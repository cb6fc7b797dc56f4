//! Errors reported by the lending protocol.

use core::str::Utf8Error;
use std::collections::TryReserveError;
use vstd::prelude::*;
use vstd::string::*;

verus! {

/// `core::str::Utf8Error`, carried through unread.
#[verifier::external_type_specification]
#[verifier::external_body]
pub struct ExUtf8Error(core::str::Utf8Error);

/// Everything the lending protocol can report to a caller.
///
/// An address that was valid once and has since been freed by other means
/// cannot be told apart from a live one; only misuse of the protocol itself
/// is detected.
#[derive(Debug, PartialEq, Eq)]
pub enum PointerError {
    /// The address is the null address.
    Null,
    /// The address is not currently lent.
    Invalid,
    /// The address is lent, but as another type.
    InvalidType,
    /// A C string did not hold valid UTF-8.
    Utf8Error(Utf8Error),
    /// The ledger could not grow to take one more entry.
    TryReserveError(TryReserveError),
}

impl PointerError {
    /// The fixed wording of each kind of error: the whole message of the
    /// first three, and what stands before the cause in the other two.
    pub open spec fn lead(&self) -> Seq<char> {
        match self {
            PointerError::Null => "dereference a null pointer will produce a crash"@,
            PointerError::Invalid => "dereference a unknown pointer could produce a crash"@,
            PointerError::InvalidType => "dereference a pointer with a different type could produce errors"@,
            PointerError::Utf8Error(_) => "the provided C string is not a valid UTF-8 string: "@,
            PointerError::TryReserveError(_) => "can not alloc memory of internal usage: "@,
        }
    }

    /// Whether `text` is the message of this error: its fixed wording,
    /// followed, where the error carries a cause, by what that cause's own
    /// `Display` prints.
    pub open spec fn is_described_by(&self, text: Seq<char>) -> bool {
        match self {
            PointerError::Utf8Error(cause) => exists|detail: String|
                #[trigger] to_string_from_display_ensures::<Utf8Error>(cause, detail) && text
                    == self.lead() + detail@,
            PointerError::TryReserveError(cause) => exists|detail: String|
                #[trigger] to_string_from_display_ensures::<TryReserveError>(cause, detail) && text
                    == self.lead() + detail@,
            _ => text == self.lead(),
        }
    }

    /// The fixed wording of this error.
    pub fn lead_text(&self) -> (text: &'static str)
        ensures
            text@ == self.lead(),
    {
        match self {
            PointerError::Null => "dereference a null pointer will produce a crash",
            PointerError::Invalid => "dereference a unknown pointer could produce a crash",
            PointerError::InvalidType => "dereference a pointer with a different type could produce errors",
            PointerError::Utf8Error(_) => "the provided C string is not a valid UTF-8 string: ",
            PointerError::TryReserveError(_) => "can not alloc memory of internal usage: ",
        }
    }

    /// The message of this error, for a human reader.
    pub fn message(&self) -> (text: String)
        ensures
            self.is_described_by(text@),
    {
        let lead = String::from_str(self.lead_text());
        match self {
            PointerError::Utf8Error(cause) => {
                let detail = cause.to_string();
                lead.concat(detail.as_str())
            },
            PointerError::TryReserveError(cause) => {
                let detail = cause.to_string();
                lead.concat(detail.as_str())
            },
            _ => lead,
        }
    }
}

impl From<Utf8Error> for PointerError {
    fn from(error: Utf8Error) -> (converted: Self) {
        PointerError::Utf8Error(error)
    }
}

impl vstd::std_specs::convert::FromSpecImpl<Utf8Error> for PointerError {
    open spec fn obeys_from_spec() -> bool {
        true
    }

    open spec fn from_spec(error: Utf8Error) -> Self {
        PointerError::Utf8Error(error)
    }
}

impl From<TryReserveError> for PointerError {
    fn from(error: TryReserveError) -> (converted: Self) {
        PointerError::TryReserveError(error)
    }
}

impl vstd::std_specs::convert::FromSpecImpl<TryReserveError> for PointerError {
    open spec fn obeys_from_spec() -> bool {
        true
    }

    open spec fn from_spec(error: TryReserveError) -> Self {
        PointerError::TryReserveError(error)
    }
}

} // verus!
