//! What statuses promise.
use vstd::prelude::*;

use crate::status::{Status, StatusCode};

verus! {

/// A status tells whether MsQuic counts it as a success, and has the code that it stands for and no
/// other.
pub proof fn a_status_has_one_code(
    status: &Status,
    ok: bool,
    code: Option<StatusCode>,
    asked: StatusCode,
    has: bool,
)
    requires
        call_ensures(Status::is_ok, (status,), ok),
        call_ensures(Status::try_as_status_code, (status,), code),
        call_ensures(Status::has_code, (status, asked), has),
    ensures
        ok == status.ok,
        code == status.code,
        has <==> code == Some(asked),
{
}

} // verus!
