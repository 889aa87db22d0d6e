//! Types shared by the REST and the socket bindings.

use vstd::prelude::*;

verus! {

/// Kind of trading account, as the vendor spells it on the wire.
#[derive(Debug, Clone, Copy, PartialEq, Eq, Structural)]
pub enum AccountType {
    Demo,
    Live,
}

impl AccountType {
    /// The wire spelling of the account type.
    pub open spec fn wire_name(self) -> Seq<char> {
        match self {
            AccountType::Demo => "DEMO"@,
            AccountType::Live => "LIVE"@,
        }
    }

    /// Renders the account type as it appears in requests and responses.
    pub fn to_string(&self) -> (text: String)
        ensures
            text@ == self.wire_name(),
    {
        match self {
            AccountType::Demo => "DEMO".to_owned(),
            AccountType::Live => "LIVE".to_owned(),
        }
    }
}

/// A point in time: seconds since the start of 1970 in UTC, and the
/// nanoseconds into that second.
#[derive(Debug, Clone, Copy, PartialEq, Eq, Structural)]
pub struct UtcDateTime {
    pub seconds: i64,
    pub nanoseconds: u32,
}

} // verus!
