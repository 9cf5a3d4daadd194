//! The errors that building a request and reading a response can report.

use vstd::prelude::*;
use vstd::string::*;

verus! {

/// A field that a builder cannot do without.
#[derive(Clone, Copy, Debug, PartialEq, Eq, Structural)]
pub enum RequiredField {
    Prompt,
    Input,
    File,
    RequestType,
    Token,
}

impl RequiredField {
    /// The field's name as the builders spell it.
    pub open spec fn spec_name(self) -> Seq<char> {
        match self {
            RequiredField::Prompt => "prompt"@,
            RequiredField::Input => "input"@,
            RequiredField::File => "file"@,
            RequiredField::RequestType => "request_type"@,
            RequiredField::Token => "token"@,
        }
    }

    /// The field's name.
    pub fn name(&self) -> (s: &'static str)
        ensures
            s@ == self.spec_name(),
    {
        match self {
            RequiredField::Prompt => "prompt",
            RequiredField::Input => "input",
            RequiredField::File => "file",
            RequiredField::RequestType => "request_type",
            RequiredField::Token => "token",
        }
    }
}

/// A builder was asked to build while required fields were unset.
#[derive(Debug)]
pub struct ValidationError {
    /// The unset required fields, in the order of their declaration.
    pub missing: Vec<RequiredField>,
}

impl ValidationError {
    /// The text of the error: one clause for each missing field.
    pub open spec fn spec_message(missing: Seq<RequiredField>) -> Seq<char>
        decreases missing.len(),
    {
        if missing.len() == 0 {
            Seq::empty()
        } else {
            Self::spec_message(missing.drop_last()) + (if missing.len() > 1 {
                ", "@
            } else {
                Seq::empty()
            }) + "`"@ + missing.last().spec_name() + "` must be initialized"@
        }
    }

    /// The text of the error, which names every missing field.
    pub fn message(&self) -> (text: String)
        ensures
            text@ == Self::spec_message(self.missing@),
    {
        let mut text = String::new();
        let mut i: usize = 0;
        while i < self.missing.len()
            invariant
                i <= self.missing.len(),
                text@ == Self::spec_message(self.missing@.take(i as int)),
            decreases self.missing.len() - i,
        {
            if i > 0 {
                text.append(", ");
            }
            text.append("`");
            text.append(self.missing[i].name());
            text.append("` must be initialized");
            proof {
                let next = self.missing@.take(i + 1);
                assert(next.drop_last() =~= self.missing@.take(i as int));
                assert(next.last() == self.missing@[i as int]);
            }
            i += 1;
        }
        proof {
            assert(self.missing@.take(i as int) =~= self.missing@);
        }
        text
    }
}

/// A text that stands for none of the values of a closed set.
#[derive(Clone, Copy, Debug, PartialEq, Eq, Structural)]
pub struct VariantNotFound;

/// A call that was sent and did not succeed.
#[derive(Debug)]
pub enum SdkError {
    /// The API answered with a client or server error status.
    Api {
        /// The text of the response.
        body: String,
    },
    /// The API answered with a success status, and its response is not what
    /// the operation returns.
    Decode {
        /// The text of the response.
        body: String,
    },
}

/// What an [`SdkError`] holds.
pub enum SdkErrorView {
    Api { body: Seq<char> },
    Decode { body: Seq<char> },
}

impl View for SdkError {
    type V = SdkErrorView;

    open spec fn view(&self) -> SdkErrorView {
        match self {
            SdkError::Api { body } => SdkErrorView::Api { body: body@ },
            SdkError::Decode { body } => SdkErrorView::Decode { body: body@ },
        }
    }
}

impl SdkErrorView {
    /// The text of the error, which ends with the response.
    pub open spec fn message(self) -> Seq<char> {
        match self {
            SdkErrorView::Api { body } => "API failed: "@ + body,
            SdkErrorView::Decode { body } => "unexpected response: "@ + body,
        }
    }
}

impl SdkError {
    /// The text of the error, which ends with the response.
    pub fn message(&self) -> (text: String)
        ensures
            text@ == self@.message(),
    {
        match self {
            SdkError::Api { body } => String::from_str("API failed: ").concat(body.as_str()),
            SdkError::Decode { body } => String::from_str("unexpected response: ").concat(
                body.as_str(),
            ),
        }
    }
}

} // verus!
