//! MsQuic status values, as far as decisions depend on them.
use vstd::prelude::*;

verus! {

/// The status codes that decisions are made on. Every other code that MsQuic knows is `Other`.
#[derive(Clone, Copy, Debug, PartialEq, Eq, Structural)]
pub enum StatusCode {
    Success,
    Pending,
    InvalidState,
    Aborted,
    StreamLimitReached,
    ConnectionTimeout,
    ConnectionIdle,
    InternalError,
    Other,
}

/// A status as MsQuic reports it.
#[derive(Clone, Copy, Debug, PartialEq, Eq, Structural)]
pub struct Status {
    /// The platform's own value.
    pub raw: u32,
    /// Whether MsQuic counts the value as a success.
    pub ok: bool,
    /// The code that the value stands for, if it stands for one.
    pub code: Option<StatusCode>,
}

impl Status {
    /// Whether MsQuic counts this status as a success.
    pub fn is_ok(&self) -> (ok: bool)
        ensures
            ok == self.ok,
    {
        self.ok
    }

    /// The code that the status stands for, `None` for a value that MsQuic has no code for.
    pub fn try_as_status_code(&self) -> (code: Option<StatusCode>)
        ensures
            code == self.code,
    {
        self.code
    }

    /// Whether the status stands for `code`.
    pub fn has_code(&self, code: StatusCode) -> (has: bool)
        ensures
            has == (self.code == Some(code)),
    {
        match self.code {
            Some(own) => own == code,
            None => false,
        }
    }
}

} // verus!
