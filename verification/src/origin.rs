use vstd::prelude::*;
use vstd::std_specs::convert::FromSpecImpl;
use frame_system::RawOrigin;
use sp_runtime::traits::BadOrigin;
use crate::error::Error;

verus! {

/// `sp_runtime::traits::BadOrigin`, the error of `frame_system::ensure_signed`;
/// it carries no data.
#[verifier::external_type_specification]
#[verifier::external_body]
pub struct ExBadOrigin(BadOrigin);

/// `frame_system::RawOrigin`, the origin of the system pallet: root, a signed
/// account, none, or authorized.
#[verifier::external_type_specification]
#[verifier::external_body]
#[verifier::reject_recursive_types(AccountId)]
pub struct ExRawOrigin<AccountId>(RawOrigin<AccountId>);

/// Who stands behind a call.
#[derive(Debug, PartialEq, Eq)]
pub enum Origin<AccountId> {
    /// The system itself.
    Root,
    /// The account that signed the call.
    Signed(AccountId),
    /// Nobody signed the call.
    Unsigned,
    /// Nobody signed the call; the runtime authorized it.
    Authorized,
}

impl<AccountId> Origin<AccountId> {
    /// The account that signed, if one did.
    pub open spec fn signer(self) -> Option<AccountId> {
        match self {
            Origin::Signed(who) => Some(who),
            _ => None,
        }
    }
}

/// An origin in the form that `frame_system` reads: a value that turns into
/// a `RawOrigin`.
#[verifier::reject_recursive_types(AccountId)]
struct OuterOrigin<AccountId>(RawOrigin<AccountId>);

impl<AccountId> From<OuterOrigin<AccountId>> for Result<
    RawOrigin<AccountId>,
    OuterOrigin<AccountId>,
> {
    fn from(outer: OuterOrigin<AccountId>) -> (raw: Self) {
        Ok(outer.0)
    }
}

impl<AccountId> FromSpecImpl<OuterOrigin<AccountId>> for Result<
    RawOrigin<AccountId>,
    OuterOrigin<AccountId>,
> {
    open spec fn obeys_from_spec() -> bool {
        true
    }

    closed spec fn from_spec(outer: OuterOrigin<AccountId>) -> Self {
        Ok(outer.0)
    }
}

/// Calls `frame_system::ensure_signed` on the origin, written as the
/// `RawOrigin` of the same kind. That function returns the account of
/// `RawOrigin::Signed`, and `BadOrigin` for every other variant. The contract
/// claims exactly that: `Ok` with the signer for a signed origin, `Err` for
/// any other.
#[verifier::external_body]
fn ensure_signed<AccountId>(origin: Origin<AccountId>) -> (signed: Result<AccountId, BadOrigin>)
    ensures
        match signed {
            Ok(who) => origin == Origin::Signed(who),
            Err(_) => origin.signer() is None,
        },
{
    frame_system::ensure_signed(
        OuterOrigin(
            match origin {
                Origin::Root => RawOrigin::Root,
                Origin::Signed(who) => RawOrigin::Signed(who),
                Origin::Unsigned => RawOrigin::None,
                Origin::Authorized => RawOrigin::Authorized,
            },
        ),
    )
}

/// Authenticates the origin of a call as a signed account.
pub fn authenticate_signed<AccountId>(origin: Origin<AccountId>) -> (who: Result<AccountId, Error>)
    ensures
        who == match origin.signer() {
            Some(signer) => Ok::<AccountId, Error>(signer),
            None => Err(Error::AuthenticationFailed),
        },
{
    match ensure_signed(origin) {
        Ok(signer) => Ok(signer),
        Err(_) => Err(Error::AuthenticationFailed),
    }
}

} // verus!
