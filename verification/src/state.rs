use vstd::prelude::*;

use crate::errors::DvpnError;
use crate::keys::Pubkey;
use crate::keys::keys_equal;

verus! {

/// Protocol configuration: the trust anchor every other component checks
/// against. One instance exists per deploying authority; the surrounding
/// ledger derives its address from the authority key, so lookup is a pure
/// function of that key.
#[derive(Clone, Copy, Debug)]
pub struct State {
    /// Owning identity, immutable after creation.
    pub authority: Pubkey,
    /// Trusted oracle identity; may be rotated by the authority.
    pub attestor: Pubkey,
    /// Identifier of the reward asset; may be rotated by the authority.
    pub reward_asset: Pubkey,
    /// Reward rate in basis points, fixed at creation.
    pub reward_rate_bps: u16,
    /// Nonce of the derived signing sub-account; used only by the ledger
    /// when it signs mints on the protocol's behalf.
    pub bump: u8,
}

/// Creates the configuration record for `authority`. The caller becomes
/// both authority and attestor; the attestor can diverge later through
/// [`set_attestor`].
pub fn initialize_state(authority: Pubkey, reward_asset: Pubkey, bump: u8, reward_rate_bps: u16) -> (s: State)
    ensures
        s.authority == authority,
        s.attestor == authority,
        s.reward_asset == reward_asset,
        s.reward_rate_bps == reward_rate_bps,
        s.bump == bump,
{
    State { authority, attestor: authority, reward_asset, reward_rate_bps, bump }
}

/// Rotates the trusted attestor identity. Only the stored authority may do
/// so; any other caller is refused and the record keeps its old value.
pub fn set_attestor(state: &mut State, caller: Pubkey, new_attestor: Pubkey) -> (r: Result<(), DvpnError>)
    ensures
        r is Ok <==> caller == old(state).authority,
        r is Ok ==> *final(state) == (State { attestor: new_attestor, ..*old(state) }),
        r is Err ==> r == Err::<(), DvpnError>(DvpnError::Unauthorized) && *final(state) == *old(state),
{
    if !keys_equal(&state.authority, &caller) {
        return Err(DvpnError::Unauthorized);
    }
    state.attestor = new_attestor;
    Ok(())
}

/// Rotates the reward-asset identifier. Authority-gated exactly as
/// [`set_attestor`] is.
pub fn set_mint(state: &mut State, caller: Pubkey, new_mint: Pubkey) -> (r: Result<(), DvpnError>)
    ensures
        r is Ok <==> caller == old(state).authority,
        r is Ok ==> *final(state) == (State { reward_asset: new_mint, ..*old(state) }),
        r is Err ==> r == Err::<(), DvpnError>(DvpnError::Unauthorized) && *final(state) == *old(state),
{
    if !keys_equal(&state.authority, &caller) {
        return Err(DvpnError::Unauthorized);
    }
    state.reward_asset = new_mint;
    Ok(())
}

/// Test-network faucet gate: decides whether `caller` may have `amount`
/// fresh reward-asset units minted to an account of their choice. The
/// attestor alone may; the mint itself is the asset subsystem's work and
/// happens outside this crate, for exactly the amount returned here.
pub fn faucet(state: &State, caller: Pubkey, amount: u64) -> (r: Result<u64, DvpnError>)
    ensures
        caller == state.attestor ==> r == Ok::<u64, DvpnError>(amount),
        caller != state.attestor ==> r == Err::<u64, DvpnError>(DvpnError::Unauthorized),
{
    if !keys_equal(&state.attestor, &caller) {
        return Err(DvpnError::Unauthorized);
    }
    Ok(amount)
}

} // verus!
