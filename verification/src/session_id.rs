//! Session identifiers: 128-bit values whose text form is the hyphenated
//! lower-case UUID notation that travels in the identifier token.

use vstd::prelude::*;

verus! {

/// The 128-bit value that `uuid::Uuid::parse_str` reads out of `text`, or
/// `None` where it rejects the text.
pub uninterp spec fn uuid_parsed(text: Seq<char>) -> Option<u128>;

/// The characters that `uuid::Uuid` prints for the 128-bit value `value`.
pub uninterp spec fn uuid_text(value: u128) -> Seq<char>;

/// The version and variant bits of a random (version 4) UUID.
pub open spec fn is_random_uuid(value: u128) -> bool {
    value & 0x0000_0000_0000_F000_C000_0000_0000_0000u128
        == 0x0000_0000_0000_4000_8000_0000_0000_0000u128
}

/// The opaque identifier that names one session record.
#[derive(Clone, Copy, Debug, PartialEq, Eq, Structural)]
pub struct AxumSessionID(pub u128);

impl View for AxumSessionID {
    type V = u128;

    open spec fn view(&self) -> u128 {
        self.0
    }
}

/// Calls `uuid::Uuid::new_v4` and returns the value as an integer. The value
/// is random; the contract states only the version and variant bits that the
/// function sets on every value it returns. `new_v4` does not return on a
/// machine that cannot supply random bytes.
#[verifier::external_body]
pub(crate) fn random_uuid() -> (value: u128)
    ensures
        is_random_uuid(value),
{
    uuid::Uuid::new_v4().as_u128()
}

/// Calls `uuid::Uuid::parse_str`. The result is a function of the text alone
/// and is named `uuid_parsed`; a text that the parser rejects gives `None`.
#[verifier::external_body]
pub(crate) fn parse_uuid(text: &str) -> (value: Option<u128>)
    ensures
        value == uuid_parsed(text@),
{
    match uuid::Uuid::parse_str(text) {
        Ok(id) => Some(id.as_u128()),
        Err(_) => None,
    }
}

/// Formats through `uuid::Uuid`'s `Display`, the hyphenated lower-case form.
/// The result is a function of the value alone and is named `uuid_text`.
#[verifier::external_body]
pub(crate) fn print_uuid(value: u128) -> (text: String)
    ensures
        text@ == uuid_text(value),
{
    uuid::Uuid::from_u128(value).to_string()
}

impl AxumSessionID {
    /// A new random candidate identifier. Whether it is free is for the
    /// store and the backend to say.
    pub fn random() -> (id: AxumSessionID)
        ensures
            is_random_uuid(id@),
    {
        AxumSessionID(random_uuid())
    }

    /// Reads an identifier from the text of an identifier token.
    pub fn parse(text: &str) -> (id: Option<AxumSessionID>)
        ensures
            id == Self::spec_parse(uuid_parsed(text@)),
    {
        Self::from_parsed(parse_uuid(text))
    }

    /// The identifier for a parsed 128-bit value, if the text held one.
    pub open spec fn spec_parse(parsed: Option<u128>) -> Option<AxumSessionID> {
        match parsed {
            Some(value) => Some(AxumSessionID(value)),
            None => None,
        }
    }

    /// The identifier for a parsed 128-bit value, if the text held one.
    pub fn from_parsed(parsed: Option<u128>) -> (id: Option<AxumSessionID>)
        ensures
            id == Self::spec_parse(parsed),
    {
        match parsed {
            Some(value) => Some(AxumSessionID(value)),
            None => None,
        }
    }

    /// The text form that is written into the identifier token.
    pub fn to_string(&self) -> (text: String)
        ensures
            text@ == uuid_text(self@),
    {
        print_uuid(self.0)
    }
}

} // verus!
