//! Decimal numbers as the text that goes on the wire.
//!
//! The speed of a speech and the temperature of a transcription are numbers
//! with a fraction.  A request holds such a number as the decimal literal that
//! is sent, and [`Decimal::parse`] admits nothing else.

use vstd::prelude::*;
use vstd::string::*;
use vstd::utf8::is_ascii_chars;

verus! {

/// The ASCII codes of the characters that a decimal literal is made of.
const MINUS: u8 = 45;

const POINT: u8 = 46;

const ZERO: u8 = 48;

const NINE: u8 = 57;

/// `c` is one of the ten decimal digits.
pub open spec fn is_digit(c: char) -> bool {
    '0' <= c <= '9'
}

/// Every character of `s` from `from` up to `to` is a decimal digit.
pub open spec fn all_digits(s: Seq<char>, from: int, to: int) -> bool {
    forall|i: int| from <= i < to ==> is_digit(#[trigger] s[i])
}

/// `s` reads as a decimal number whose integer part is `s[start..end]`: an
/// optional minus sign, an integer part without a superfluous leading zero and,
/// if anything follows, a point and at least one more digit.
pub open spec fn decimal_shape(s: Seq<char>, start: int, end: int) -> bool {
    &&& start == 0 || (start == 1 && s[0] == '-')
    &&& start < end <= s.len()
    &&& all_digits(s, start, end)
    &&& end - start == 1 || s[start] != '0'
    &&& end == s.len() || (s[end] == '.' && end + 1 < s.len() && all_digits(
        s,
        end + 1,
        s.len() as int,
    ))
}

/// `s` is a decimal literal such as `0`, `-12`, `0.25` or `10.5`.
pub open spec fn is_decimal(s: Seq<char>) -> bool {
    exists|start: int, end: int| decimal_shape(s, start, end)
}

/// A decimal number, kept as its text.
#[derive(Debug)]
pub struct Decimal {
    text: String,
}

impl View for Decimal {
    type V = Seq<char>;

    closed spec fn view(&self) -> Seq<char> {
        self.text@
    }
}

impl Decimal {
    #[verifier::type_invariant]
    spec fn well_formed(&self) -> bool {
        is_decimal(self.text@)
    }

    /// Reads a decimal literal; `None` where `text` is not one.
    pub fn parse(text: &str) -> (out: Option<Decimal>)
        ensures
            out is Some <==> is_decimal(text@),
            out matches Some(d) ==> d@ == text@,
    {
        if !text.is_ascii() {
            proof {
                lemma_decimal_is_ascii(text@);
            }
            return None;
        }
        let bytes = text.as_bytes();
        let len = bytes.len();
        proof {
            is_ascii_spec_bytes(text);
        }
        assert(bytes@.len() == text@.len());
        assert(forall|i: int| 0 <= i < text@.len() ==> bytes@[i] == text@[i] as u8);
        let start: usize = if len > 0 && bytes[0] == MINUS {
            1
        } else {
            0
        };
        let mut end: usize = start;
        while end < len && ZERO <= bytes[end] && bytes[end] <= NINE
            invariant
                start <= end <= len,
                len == text@.len(),
                bytes@.len() == len,
                forall|i: int| 0 <= i < len ==> bytes@[i] == text@[i] as u8,
                is_ascii_chars(text@),
                all_digits(text@, start as int, end as int),
            decreases len - end,
        {
            end += 1;
        }
        let int_ok = end > start && (end - start == 1 || bytes[start] != ZERO);
        let mut frac_ok = end == len;
        if int_ok && end < len && bytes[end] == POINT && end + 1 < len {
            let mut i: usize = end + 1;
            while i < len && ZERO <= bytes[i] && bytes[i] <= NINE
                invariant
                    end + 1 <= i <= len,
                    len == text@.len(),
                    bytes@.len() == len,
                    forall|j: int| 0 <= j < len ==> bytes@[j] == text@[j] as u8,
                    is_ascii_chars(text@),
                    all_digits(text@, end + 1, i as int),
                decreases len - i,
            {
                i += 1;
            }
            frac_ok = i == len;
            proof {
                if i < len {
                    assert(!is_digit(text@[i as int]));
                }
            }
        }
        if int_ok && frac_ok {
            assert(decimal_shape(text@, start as int, end as int));
            Some(Decimal { text: text.to_owned() })
        } else {
            proof {
                assert forall|s: int, e: int| !decimal_shape(text@, s, e) by {
                    if decimal_shape(text@, s, e) {
                        assert(s == start) by {
                            if s == 0 && start == 1 {
                                assert(is_digit(text@[0]));
                            }
                        }
                        if e < end {
                            assert(is_digit(text@[e]));
                        }
                        if e > end {
                            assert(is_digit(text@[end as int]));
                        }
                        assert(e == end);
                    }
                }
            }
            None
        }
    }

    /// The number's text.
    pub fn as_str(&self) -> (s: &str)
        ensures
            s@ == self@,
            is_decimal(s@),
    {
        proof {
            use_type_invariant(self);
        }
        self.text.as_str()
    }
}

impl Clone for Decimal {
    fn clone(&self) -> (out: Self)
        ensures
            out@ == self@,
    {
        proof {
            use_type_invariant(self);
        }
        Decimal { text: self.text.clone() }
    }
}

/// The characters of an optional decimal.
pub open spec fn opt_decimal(value: Option<Decimal>) -> Option<Seq<char>> {
    match value {
        Some(d) => Some(d@),
        None => None,
    }
}

/// A copy of an optional decimal.
pub fn clone_opt_decimal(value: &Option<Decimal>) -> (out: Option<Decimal>)
    ensures
        opt_decimal(out) == opt_decimal(*value),
{
    match value {
        Some(d) => Some(d.clone()),
        None => None,
    }
}

/// A decimal literal holds ASCII characters only.
pub proof fn lemma_decimal_is_ascii(s: Seq<char>)
    ensures
        is_decimal(s) ==> is_ascii_chars(s),
{
    if is_decimal(s) {
        let (start, end) = choose|start: int, end: int| decimal_shape(s, start, end);
        assert forall|i: int| 0 <= i < s.len() implies '\0' <= #[trigger] s[i] <= '\u{7f}' by {
            if i < start {
            } else if i < end {
                assert(is_digit(s[i]));
            } else if i == end {
            } else {
                assert(is_digit(s[i]));
            }
        }
    }
}

} // verus!
