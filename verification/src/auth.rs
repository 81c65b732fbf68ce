//! Calling identities. The host authenticates transactions; the core only
//! distinguishes an ordinary signed account from the privileged root actor.

use vstd::prelude::*;
use crate::errors::Error;

verus! {

/// The authenticated identity behind an operation.
#[derive(Clone, Copy, Debug, PartialEq, Eq)]
pub enum Origin {
    /// A specific signed account.
    Signed(u64),
    /// The privileged root actor.
    Root,
}

/// Admits only signed accounts, handing back the account identifier.
pub fn ensure_signed(origin: Origin) -> (r: Result<u64, Error>)
    ensures
        origin matches Origin::Signed(who) ==> r == Ok::<u64, Error>(who),
        origin is Root ==> r == Err::<u64, Error>(Error::BadOrigin),
{
    match origin {
        Origin::Signed(who) => Ok(who),
        Origin::Root => Err(Error::BadOrigin),
    }
}

/// Admits only the privileged root actor.
pub fn ensure_root(origin: Origin) -> (r: Result<(), Error>)
    ensures
        origin is Root ==> r == Ok::<(), Error>(()),
        origin is Signed ==> r == Err::<(), Error>(Error::BadOrigin),
{
    match origin {
        Origin::Root => Ok(()),
        Origin::Signed(_) => Err(Error::BadOrigin),
    }
}

} // verus!
