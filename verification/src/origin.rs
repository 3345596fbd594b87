//! Origins of dispatchable calls, the checks made on them, and the error a
//! dispatchable call can end with.
use vstd::prelude::*;

verus! {

/// Who a call is dispatched by, with the same variants as the runtime's raw
/// origin.
#[derive(Clone, Copy, Debug, PartialEq, Eq)]
pub enum Origin<AccountId> {
    /// The system itself: the highest privilege level.
    Root,
    /// A transaction signed by the given account.
    Signed(AccountId),
    /// Signed by nobody.
    Unsigned,
    /// Signed by nobody, authorized by the runtime.
    Authorized,
}

/// Why a dispatchable call failed.
#[derive(Clone, Copy, Debug, PartialEq, Eq)]
pub enum DispatchError<E> {
    /// The call came from an origin that it does not accept.
    BadOrigin,
    /// The pallet refused the call with one of its own errors.
    Module(E),
}

/// The error of a failed origin check.
#[derive(Clone, Copy, Debug, PartialEq, Eq)]
pub struct BadOrigin;

/// The result of a dispatchable call.
pub type DispatchResult<E> = Result<(), DispatchError<E>>;

/// Gives the signing account exactly when the origin is a signed one.
pub fn ensure_signed<AccountId>(o: Origin<AccountId>) -> (r: Result<AccountId, BadOrigin>)
    ensures
        r == (match o {
            Origin::Signed(who) => Ok::<AccountId, BadOrigin>(who),
            _ => Err(BadOrigin),
        }),
{
    match o {
        Origin::Signed(who) => Ok(who),
        _ => Err(BadOrigin),
    }
}

} // verus!
