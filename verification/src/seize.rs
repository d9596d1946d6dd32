//! The seizure operation: a forced, holder-non-consensual transfer,
//! available only when the token itself was issued with a forced-transfer
//! (permanent-delegate) capability bound to an authority. The caller must
//! hold the `seizer` role; the mint must carry the capability with a
//! bound authority; only then is the delegated transfer described, for
//! the external token engine to perform.
use vstd::prelude::*;

use crate::errors::ProgramError;
use crate::state::{Address, Config, Role};
use crate::state::require_role;
use spl_token_2022::extension::BaseStateWithExtensions;
use spl_token_2022::extension::StateWithExtensions;
use spl_token_2022::extension::permanent_delegate::PermanentDelegate;
use spl_token_2022::state::Mint;

verus! {

/// What a mint's configuration says about the forced-transfer
/// capability.
#[derive(Clone, Copy, Debug)]
pub enum MintDelegateStatus {
    /// The bytes do not hold an initialized mint at all.
    Unreadable,
    /// The mint carries no forced-transfer capability: this token variant
    /// was issued without seizure support.
    Absent,
    /// The capability is present but no authority is bound to it.
    Unbound,
    /// The capability is present and `delegate` is the bound authority.
    Bound { delegate: Address },
}

/// The capability configuration that the given mint-account bytes
/// encode.
pub uninterp spec fn mint_delegate_status(data: Seq<u8>) -> MintDelegateStatus;

/// Relies on `spl_token_2022`: `StateWithExtensions::<Mint>::unpack`
/// reads a token-2022 mint account, and
/// `get_extension::<PermanentDelegate>` finds the permanent-delegate
/// record in its extension data; both are pure functions of the bytes.
/// A delegate of all zeroes means the capability has no bound authority.
#[verifier::external_body]
fn probe_permanent_delegate(mint_data: &[u8]) -> (r: MintDelegateStatus)
    ensures
        r == mint_delegate_status(mint_data@),
{
    match StateWithExtensions::<Mint>::unpack(mint_data) {
        Err(_) => MintDelegateStatus::Unreadable,
        Ok(state) => match state.get_extension::<PermanentDelegate>() {
            Err(_) => MintDelegateStatus::Absent,
            Ok(ext) => match ext.delegate.get() {
                None => MintDelegateStatus::Unbound,
                Some(d) => MintDelegateStatus::Bound { delegate: Address { bytes: d.to_bytes() } },
            },
        },
    }
}

/// The delegated transfer a granted seizure asks the external token
/// engine to perform: move `amount` (of a token with `decimals` decimal
/// places) from `source` to `destination`, signed by the mint's bound
/// delegate `authority` rather than by the holder of `source`.
#[derive(Clone, Copy, Debug)]
pub struct SeizeTransfer {
    pub source: Address,
    pub destination: Address,
    pub authority: Address,
    pub amount: u64,
    pub decimals: u8,
}

/// Decide a seizure request once the mint's capability configuration is
/// known. Checked in this order:
/// first the caller must hold the `seizer` role, or the request fails
/// with `UnauthorizedSeizer` before the mint is considered at all; then
/// the mint must carry the forced-transfer capability, or the request
/// fails gracefully with `NotSSS2Compliant` (bytes that hold no
/// initialized mint are treated the same way: such a token cannot be
/// seizure-capable); then the capability must have a bound authority, or
/// the request fails with `MissingPermanentDelegate`. Only when all
/// three hold is the delegated transfer granted, and nothing is written
/// by the decision itself.
pub fn authorize_seizure(
    config: &Config,
    caller: &Address,
    status: MintDelegateStatus,
    source: &Address,
    destination: &Address,
    amount: u64,
    decimals: u8,
) -> (r: Result<SeizeTransfer, ProgramError>)
    ensures
        caller@ != config.seizer@ ==> (r matches Err(e) && e == ProgramError::UnauthorizedSeizer),
        caller@ == config.seizer@ && (status is Unreadable || status is Absent) ==> (r matches Err(
            e,
        ) && e == ProgramError::NotSSS2Compliant),
        caller@ == config.seizer@ && status is Unbound ==> (r matches Err(e) && e
            == ProgramError::MissingPermanentDelegate),
        status matches MintDelegateStatus::Bound { delegate } ==> caller@ == config.seizer@ ==> (r
            matches Ok(t) && t.source@ == source@ && t.destination@ == destination@ && t.authority@
            == delegate@ && t.amount == amount && t.decimals == decimals),
        r is Ok <==> caller@ == config.seizer@ && status is Bound,
{
    match require_role(config, Role::Seizer, caller) {
        Err(e) => Err(e),
        Ok(()) => match status {
            MintDelegateStatus::Unreadable => Err(ProgramError::NotSSS2Compliant),
            MintDelegateStatus::Absent => Err(ProgramError::NotSSS2Compliant),
            MintDelegateStatus::Unbound => Err(ProgramError::MissingPermanentDelegate),
            MintDelegateStatus::Bound { delegate } => Ok(
                SeizeTransfer {
                    source: *source,
                    destination: *destination,
                    authority: delegate,
                    amount,
                    decimals,
                },
            ),
        },
    }
}

/// Decide a seizure request against the mint-account bytes themselves:
/// read the capability configuration out of `mint_data`, then decide as
/// [`authorize_seizure`] does. On any rejection no funds move and
/// nothing is written; on success the returned transfer still has to be
/// performed by the external token engine.
pub fn seize_funds(
    config: &Config,
    caller: &Address,
    mint_data: &[u8],
    source: &Address,
    destination: &Address,
    amount: u64,
    decimals: u8,
) -> (r: Result<SeizeTransfer, ProgramError>)
    ensures
        caller@ != config.seizer@ ==> (r matches Err(e) && e == ProgramError::UnauthorizedSeizer),
        caller@ == config.seizer@ && (mint_delegate_status(mint_data@) is Unreadable
            || mint_delegate_status(mint_data@) is Absent) ==> (r matches Err(e) && e
            == ProgramError::NotSSS2Compliant),
        caller@ == config.seizer@ && mint_delegate_status(mint_data@) is Unbound ==> (r matches
            Err(e) && e == ProgramError::MissingPermanentDelegate),
        mint_delegate_status(mint_data@) matches MintDelegateStatus::Bound { delegate }
            ==> caller@ == config.seizer@ ==> (r matches Ok(t) && t.source@ == source@
            && t.destination@ == destination@ && t.authority@ == delegate@ && t.amount == amount
            && t.decimals == decimals),
        r is Ok <==> caller@ == config.seizer@ && mint_delegate_status(mint_data@) is Bound,
{
    let status = probe_permanent_delegate(mint_data);
    authorize_seizure(config, caller, status, source, destination, amount, decimals)
}

} // verus!
