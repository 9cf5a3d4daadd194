//! JSON text: the object that carries a request, and the one member that a
//! transcript is read from.

use crate::decimal::{decimal_shape, is_digit, opt_decimal, Decimal};
use crate::text::opt_text;
use vstd::prelude::*;
use vstd::string::*;

verus! {

/// The JSON string literal for `s`: the characters, escaped, between quotes.
pub uninterp spec fn json_string_text(s: Seq<char>) -> Seq<char>;

/// `serde_json::Value::String` written through its `Display`: the compact JSON
/// text of the string `s`, which begins and ends with a quote.
#[verifier::external_body]
pub(crate) fn json_string(s: &str) -> (out: String)
    ensures
        out@ == json_string_text(s@),
        out@.len() >= 2,
        out@.first() == '"',
        out@.last() == '"',
{
    serde_json::Value::String(s.to_owned()).to_string()
}

/// What `serde_json` reads under `key` in `text`: the value of the string
/// member `key` of the JSON object that `text` holds, and `None` where it reads
/// no object or no string under `key`.
pub uninterp spec fn json_string_member_of(text: Seq<char>, key: Seq<char>) -> Option<Seq<char>>;

/// `serde_json::from_str` to a `serde_json::Value`, then `Value::get` and
/// `Value::as_str`: parses `text` and copies out the string under `key`.
#[verifier::external_body]
pub(crate) fn json_string_member(text: &str, key: &str) -> (out: Option<String>)
    ensures
        opt_text(out) == json_string_member_of(text@, key@),
{
    let value = serde_json::from_str::<serde_json::Value>(text).ok()?;
    Some(value.get(key)?.as_str()?.to_owned())
}

/// The text of one decimal digit.
pub open spec fn digit_text(d: int) -> Seq<char> {
    if d == 0 {
        "0"@
    } else if d == 1 {
        "1"@
    } else if d == 2 {
        "2"@
    } else if d == 3 {
        "3"@
    } else if d == 4 {
        "4"@
    } else if d == 5 {
        "5"@
    } else if d == 6 {
        "6"@
    } else if d == 7 {
        "7"@
    } else if d == 8 {
        "8"@
    } else {
        "9"@
    }
}

/// The decimal digits of `n`, without leading zeros.
pub open spec fn unsigned_text(n: nat) -> Seq<char>
    decreases n,
{
    if n < 10 {
        digit_text(n as int)
    } else {
        unsigned_text(n / 10) + digit_text((n % 10) as int)
    }
}

fn digit_str(d: u64) -> (s: &'static str)
    requires
        d < 10,
    ensures
        s@ == digit_text(d as int),
{
    if d == 0 {
        "0"
    } else if d == 1 {
        "1"
    } else if d == 2 {
        "2"
    } else if d == 3 {
        "3"
    } else if d == 4 {
        "4"
    } else if d == 5 {
        "5"
    } else if d == 6 {
        "6"
    } else if d == 7 {
        "7"
    } else if d == 8 {
        "8"
    } else {
        "9"
    }
}

/// Writes `n` in decimal.
pub fn render_unsigned(n: u64) -> (out: String)
    ensures
        out@ == unsigned_text(n as nat),
    decreases n,
{
    if n < 10 {
        digit_str(n).to_owned()
    } else {
        let mut out = render_unsigned(n / 10);
        out.append(digit_str(n % 10));
        out
    }
}

/// The characters of each string.
pub open spec fn texts(items: Seq<String>) -> Seq<Seq<char>> {
    Seq::new(items.len(), |i: int| items[i]@)
}

/// The string literals of `items`, with a comma between each two.
pub open spec fn items_text(items: Seq<Seq<char>>) -> Seq<char>
    decreases items.len(),
{
    if items.len() == 0 {
        Seq::empty()
    } else {
        items_text(items.drop_last()) + (if items.len() > 1 {
            ","@
        } else {
            Seq::empty()
        }) + json_string_text(items.last())
    }
}

/// The JSON array of the strings `items`.
pub open spec fn array_text(items: Seq<Seq<char>>) -> Seq<char> {
    "["@ + items_text(items) + "]"@
}

/// Writes the strings as a JSON array.
pub fn render_string_array(items: &Vec<String>) -> (out: String)
    ensures
        out@ == array_text(texts(items@)),
{
    let mut out = String::from_str("[");
    let mut i: usize = 0;
    while i < items.len()
        invariant
            i <= items.len(),
            out@ == "["@ + items_text(texts(items@).take(i as int)),
        decreases items.len() - i,
    {
        if i > 0 {
            out.append(",");
        }
        let literal = json_string(items[i].as_str());
        out.append(literal.as_str());
        proof {
            let next = texts(items@).take(i + 1);
            assert(next.drop_last() =~= texts(items@).take(i as int));
            assert(next.last() == items@[i as int]@);
        }
        i += 1;
    }
    proof {
        assert(texts(items@).take(i as int) =~= texts(items@));
    }
    out.append("]");
    out
}

/// The member `(key, value)` if there is a value, and nothing otherwise.
pub open spec fn optional_member(key: Seq<char>, value: Option<Seq<char>>) -> Seq<
    (Seq<char>, Seq<char>),
> {
    match value {
        Some(value) => seq![(key, value)],
        None => seq![],
    }
}

/// The JSON text of an optional string.
pub open spec fn string_value(value: Option<Seq<char>>) -> Option<Seq<char>> {
    match value {
        Some(value) => Some(json_string_text(value)),
        None => None,
    }
}

/// The JSON text of an optional number.
pub open spec fn unsigned_value(value: Option<nat>) -> Option<Seq<char>> {
    match value {
        Some(n) => Some(unsigned_text(n)),
        None => None,
    }
}

/// Some member has the key `key`.
pub open spec fn has_key(members: Seq<(Seq<char>, Seq<char>)>, key: Seq<char>) -> bool {
    exists|i: int| 0 <= i < members.len() && (#[trigger] members[i]).0 == key
}

/// The members as `"key":value`, with a comma between each two.
pub open spec fn members_text(members: Seq<(Seq<char>, Seq<char>)>) -> Seq<char>
    decreases members.len(),
{
    if members.len() == 0 {
        Seq::empty()
    } else {
        members_text(members.drop_last()) + (if members.len() > 1 {
            ","@
        } else {
            Seq::empty()
        }) + json_string_text(members.last().0) + ":"@ + members.last().1
    }
}

/// The compact JSON object with these members, in this order.
pub open spec fn object_text(members: Seq<(Seq<char>, Seq<char>)>) -> Seq<char> {
    "{"@ + members_text(members) + "}"@
}

/// One member of a JSON object: the key, and the JSON text of the value.
#[derive(Debug)]
pub struct Member {
    pub key: String,
    pub value: String,
}

impl View for Member {
    type V = (Seq<char>, Seq<char>);

    open spec fn view(&self) -> (Seq<char>, Seq<char>) {
        (self.key@, self.value@)
    }
}

/// `value` is the JSON text `null`.
pub open spec fn is_null(value: Seq<char>) -> bool {
    value == "null"@
}

/// No member has the value `null`.
pub open spec fn no_nulls(members: Seq<(Seq<char>, Seq<char>)>) -> bool {
    forall|i: int| 0 <= i < members.len() ==> !is_null((#[trigger] members[i]).1)
}

/// A JSON object under construction: its members, in the order in which they are written.
#[derive(Debug)]
pub struct JsonObject {
    pub members: Vec<Member>,
}

impl View for JsonObject {
    type V = Seq<(Seq<char>, Seq<char>)>;

    open spec fn view(&self) -> Seq<(Seq<char>, Seq<char>)> {
        Seq::new(self.members@.len(), |i: int| self.members@[i]@)
    }
}

impl JsonObject {
    /// An object without members.
    pub fn new() -> (out: JsonObject)
        ensures
            out@ == Seq::<(Seq<char>, Seq<char>)>::empty(),
    {
        let out = JsonObject { members: Vec::new() };
        assert(out@ =~= Seq::empty());
        out
    }

    fn push(&mut self, member: Member)
        ensures
            final(self)@ == old(self)@.push(member@),
    {
        self.members.push(member);
        assert(self@ =~= old(self)@.push(member@));
    }

    /// Adds a member whose value is the string `value`.
    pub fn string(&mut self, key: &str, value: &str)
        ensures
            final(self)@ == old(self)@.push((key@, json_string_text(value@))),
            no_nulls(old(self)@) ==> no_nulls(final(self)@),
    {
        proof {
            reveal_strlit("null");
        }
        self.push(Member { key: key.to_owned(), value: json_string(value) });
    }

    /// Adds a member whose value is the number `n`.
    pub fn unsigned(&mut self, key: &str, n: u64)
        ensures
            final(self)@ == old(self)@.push((key@, unsigned_text(n as nat))),
            no_nulls(old(self)@) ==> no_nulls(final(self)@),
    {
        proof {
            reveal_strlit("null");
            lemma_unsigned_text_starts_with_digit(n as nat);
        }
        self.push(Member { key: key.to_owned(), value: render_unsigned(n) });
    }

    /// Adds a member whose value is the number `value`.
    pub fn decimal(&mut self, key: &str, value: &Decimal)
        ensures
            final(self)@ == old(self)@.push((key@, value@)),
            no_nulls(old(self)@) ==> no_nulls(final(self)@),
    {
        let text = value.as_str();
        proof {
            reveal_strlit("null");
            let (start, end) = choose|start: int, end: int| decimal_shape(text@, start, end);
            assert(is_digit(text@[start]));
        }
        self.push(Member { key: key.to_owned(), value: text.to_owned() });
    }

    /// Adds a member whose value is the array of the strings `items`.
    pub fn string_array(&mut self, key: &str, items: &Vec<String>)
        ensures
            final(self)@ == old(self)@.push((key@, array_text(texts(items@)))),
            no_nulls(old(self)@) ==> no_nulls(final(self)@),
    {
        proof {
            reveal_strlit("null");
            reveal_strlit("[");
            assert(array_text(texts(items@))[0] == '[');
        }
        self.push(Member { key: key.to_owned(), value: render_string_array(items) });
    }

    /// Adds a member for the string `value`, if there is one.
    pub fn optional_string(&mut self, key: &str, value: Option<&str>)
        ensures
            final(self)@ == old(self)@ + optional_member(
                key@,
                string_value(
                    match value {
                        Some(value) => Some(value@),
                        None => None,
                    },
                ),
            ),
            no_nulls(old(self)@) ==> no_nulls(final(self)@),
    {
        match value {
            Some(value) => {
                self.string(key, value);
                assert(self@ =~= old(self)@ + seq![(key@, json_string_text(value@))]);
            },
            None => {
                assert(self@ =~= old(self)@ + seq![]);
            },
        }
    }

    /// Adds a member for the number `value`, if there is one.
    pub fn optional_unsigned(&mut self, key: &str, value: Option<u64>)
        ensures
            final(self)@ == old(self)@ + optional_member(
                key@,
                unsigned_value(
                    match value {
                        Some(n) => Some(n as nat),
                        None => None,
                    },
                ),
            ),
            no_nulls(old(self)@) ==> no_nulls(final(self)@),
    {
        match value {
            Some(n) => {
                self.unsigned(key, n);
                assert(self@ =~= old(self)@ + seq![(key@, unsigned_text(n as nat))]);
            },
            None => {
                assert(self@ =~= old(self)@ + seq![]);
            },
        }
    }

    /// Adds a member for the number `value`, if there is one.
    pub fn optional_decimal(&mut self, key: &str, value: &Option<Decimal>)
        ensures
            final(self)@ == old(self)@ + optional_member(key@, opt_decimal(*value)),
            no_nulls(old(self)@) ==> no_nulls(final(self)@),
    {
        match value {
            Some(value) => {
                self.decimal(key, value);
                assert(self@ =~= old(self)@ + seq![(key@, value@)]);
            },
            None => {
                assert(self@ =~= old(self)@ + seq![]);
            },
        }
    }

    /// Writes the object as compact JSON text.
    pub fn render(&self) -> (out: String)
        ensures
            out@ == object_text(self@),
    {
        let mut out = String::from_str("{");
        let mut i: usize = 0;
        while i < self.members.len()
            invariant
                i <= self.members.len(),
                out@ == "{"@ + members_text(self@.take(i as int)),
            decreases self.members.len() - i,
        {
            if i > 0 {
                out.append(",");
            }
            let key = json_string(self.members[i].key.as_str());
            out.append(key.as_str());
            out.append(":");
            out.append(self.members[i].value.as_str());
            proof {
                let next = self@.take(i + 1);
                assert(next.drop_last() =~= self@.take(i as int));
                assert(next.last() == self.members@[i as int]@);
            }
            i += 1;
        }
        proof {
            assert(self@.take(i as int) =~= self@);
        }
        out.append("}");
        out
    }
}

/// A key is among the members of two sequences put together exactly if it is
/// among those of one of them.
pub proof fn lemma_has_key_concat(
    first: Seq<(Seq<char>, Seq<char>)>,
    second: Seq<(Seq<char>, Seq<char>)>,
)
    ensures
        forall|key: Seq<char>| #[trigger]
            has_key(first + second, key) <==> has_key(first, key) || has_key(second, key),
{
    let both = first + second;
    assert forall|key: Seq<char>| #[trigger]
        has_key(both, key) <==> has_key(first, key) || has_key(second, key) by {
        if has_key(both, key) {
            let i = choose|i: int| 0 <= i < both.len() && (#[trigger] both[i]).0 == key;
            if i < first.len() {
                assert(first[i].0 == key);
            } else {
                assert(second[i - first.len()].0 == key);
            }
        }
        if has_key(first, key) {
            let i = choose|i: int| 0 <= i < first.len() && (#[trigger] first[i]).0 == key;
            assert(both[i].0 == key);
        }
        if has_key(second, key) {
            let i = choose|i: int| 0 <= i < second.len() && (#[trigger] second[i]).0 == key;
            assert(both[first.len() + i].0 == key);
        }
    }
}

/// An optional member has its key exactly if it has a value.
pub proof fn lemma_has_key_optional(name: Seq<char>, value: Option<Seq<char>>)
    ensures
        forall|key: Seq<char>| #[trigger]
            has_key(optional_member(name, value), key) <==> value is Some && key == name,
{
    let members = optional_member(name, value);
    assert forall|key: Seq<char>| #[trigger]
        has_key(members, key) <==> value is Some && key == name by {
        if value is Some && key == name {
            assert(members[0].0 == key);
        }
    }
}

/// The decimal digits of a number begin with a digit.
pub proof fn lemma_unsigned_text_starts_with_digit(n: nat)
    ensures
        unsigned_text(n).len() > 0,
        is_digit(unsigned_text(n)[0]),
    decreases n,
{
    reveal_strlit("0");
    reveal_strlit("1");
    reveal_strlit("2");
    reveal_strlit("3");
    reveal_strlit("4");
    reveal_strlit("5");
    reveal_strlit("6");
    reveal_strlit("7");
    reveal_strlit("8");
    reveal_strlit("9");
    if n >= 10 {
        lemma_unsigned_text_starts_with_digit(n / 10);
    }
}

} // verus!
