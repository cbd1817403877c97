//! Supply-capped fungible ledger: the token authority record and the
//! instruction handlers that mint and burn tokens and manage the authority.
//!
//! Circulating supply is derived, never stored: it is `total_minted -
//! total_burned`, and it never exceeds [`MAX_SUPPLY`]. Both counters only
//! grow, and all arithmetic is checked: overflow is always a hard failure
//! that aborts the instruction, never a wrap.
//!
//! The external runtime authenticates signers and performs the actual token
//! mint/burn transfers; the handlers here receive the authenticated caller
//! identity as a plain value, account for the amounts, and mutate nothing
//! when they return an error.

use vstd::prelude::*;
use crate::identity::{Identity, bytes32_eq, identity_is_null, is_null_identity};

verus! {

/// Maximum circulating supply, in base units of one billionth of a token.
pub const MAX_SUPPLY: u64 = 10_000_000_000_000_000_000;

/// Initial base price in USD cents (1 cent = 0.01 USD).
pub const BASE_PRICE_USD_CENTS: u64 = 1;

/// Typed failures of the ledger instructions. Every failure aborts the
/// whole instruction: the runtime discards all of its tentative writes.
#[derive(Clone, Copy, Debug, PartialEq, Eq, Structural)]
pub enum ErrorCode {
    /// Maximum supply exceeded.
    MaxSupplyExceeded,
    /// Invalid authority provided.
    InvalidAuthority,
    /// Invalid price value.
    InvalidPrice,
    /// Math operation overflow.
    MathOverflow,
}

/// The per-mint authority record: who may mint and update settings, which
/// mint it governs, the mint/burn accumulators, the quoted base price, and
/// the bump byte of its derived storage address.
#[derive(Debug)]
pub struct TokenAuthority {
    /// The authority that can mint tokens and update settings.
    pub authority: Identity,
    /// The mint address.
    pub mint: Identity,
    /// Total tokens ever minted (including later-burned ones).
    pub total_minted: u64,
    /// Total tokens ever burned.
    pub total_burned: u64,
    /// Base price in USD cents (informational, never enforced here).
    pub base_price_usd_cents: u64,
    /// Bump seed of the record's derived address.
    pub bump: u8,
}

impl TokenAuthority {
    /// The circulating supply: minted minus burned.
    pub open spec fn circulating(&self) -> int {
        self.total_minted - self.total_burned
    }

    /// The ledger invariant: never more burned than minted, and the
    /// circulating supply never exceeds the hard ceiling.
    pub open spec fn wf(&self) -> bool {
        &&& self.total_burned <= self.total_minted
        &&& self.total_minted - self.total_burned <= MAX_SUPPLY
    }
}

/// Checked mint accounting over the raw counters: the new total-minted
/// value after minting `amount` under the supply ceiling `max_supply`.
/// Underflow of the circulating supply and overflow of any sum fail with
/// `MathOverflow`; a mint that would push the circulating supply past the
/// ceiling fails with `MaxSupplyExceeded`.
pub fn apply_mint(total_minted: u64, total_burned: u64, amount: u64, max_supply: u64) -> (r:
    Result<u64, ErrorCode>)
    ensures
        (r is Ok) <==> (total_burned <= total_minted && total_minted - total_burned + amount
            <= max_supply && total_minted + amount <= u64::MAX),
        r matches Ok(m) ==> m == total_minted + amount,
        (r == Err::<u64, ErrorCode>(ErrorCode::MaxSupplyExceeded)) <==> (total_burned
            <= total_minted && total_minted - total_burned + amount <= u64::MAX && total_minted
            - total_burned + amount > max_supply),
        (r == Err::<u64, ErrorCode>(ErrorCode::MathOverflow)) <==> (total_burned > total_minted
            || total_minted - total_burned + amount > u64::MAX || (total_minted - total_burned
            + amount <= max_supply && total_minted + amount > u64::MAX)),
{
    if total_burned > total_minted {
        return Err(ErrorCode::MathOverflow);
    }
    let circulating = total_minted - total_burned;
    if amount > u64::MAX - circulating {
        return Err(ErrorCode::MathOverflow);
    }
    let new_supply = circulating + amount;
    if new_supply > max_supply {
        return Err(ErrorCode::MaxSupplyExceeded);
    }
    if amount > u64::MAX - total_minted {
        return Err(ErrorCode::MathOverflow);
    }
    Ok(total_minted + amount)
}

/// Checked burn accounting over the raw counters: the new total-burned
/// value after burning `amount`. Fails with `MathOverflow` when the sum
/// overflows or when it would exceed the total ever minted (more burned
/// than minted is impossible, but checked defensively). No ceiling check is
/// needed: burning only shrinks the circulating supply.
pub fn apply_burn(total_minted: u64, total_burned: u64, amount: u64) -> (r: Result<
    u64,
    ErrorCode,
>)
    ensures
        (r is Ok) <==> (total_burned + amount <= u64::MAX && total_burned + amount
            <= total_minted),
        r matches Ok(b) ==> b == total_burned + amount,
        (r == Err::<u64, ErrorCode>(ErrorCode::MathOverflow)) <==> (total_burned + amount
            > u64::MAX || total_burned + amount > total_minted),
{
    if amount > u64::MAX - total_burned {
        return Err(ErrorCode::MathOverflow);
    }
    let new_burned = total_burned + amount;
    if new_burned > total_minted {
        return Err(ErrorCode::MathOverflow);
    }
    Ok(new_burned)
}

/// Initialize the token ledger: create its authority record with zeroed
/// counters and the initial base price. The caller becomes the authority.
/// The runtime has already checked that the record does not exist yet;
/// `authority_bump` is the bump byte of its derived storage address.
pub fn initialize(payer: Identity, mint: Identity, authority_bump: u8) -> (r: TokenAuthority)
    ensures
        r == (TokenAuthority {
            authority: payer,
            mint,
            total_minted: 0,
            total_burned: 0,
            base_price_usd_cents: BASE_PRICE_USD_CENTS,
            bump: authority_bump,
        }),
        r.wf(),
{
    TokenAuthority {
        authority: payer,
        mint,
        total_minted: 0,
        total_burned: 0,
        base_price_usd_cents: BASE_PRICE_USD_CENTS,
        bump: authority_bump,
    }
}

/// Mint new tokens (authority only). Accounts for `amount` under the
/// [`MAX_SUPPLY`] ceiling; on success the caller then has the runtime
/// transfer the minted tokens, and a failure there discards the whole
/// instruction. On any error nothing is mutated.
pub fn mint_tokens(token_authority: &mut TokenAuthority, caller: &Identity, amount: u64) -> (r:
    Result<(), ErrorCode>)
    ensures
        (r == Err::<(), ErrorCode>(ErrorCode::InvalidAuthority)) <==> *caller != old(
            token_authority,
        ).authority,
        (r == Err::<(), ErrorCode>(ErrorCode::MathOverflow)) <==> (*caller == old(
            token_authority,
        ).authority && (old(token_authority).total_burned > old(token_authority).total_minted || old(
            token_authority,
        ).circulating() + amount > u64::MAX || (old(token_authority).circulating() + amount
            <= MAX_SUPPLY && old(token_authority).total_minted + amount > u64::MAX))),
        (r == Err::<(), ErrorCode>(ErrorCode::MaxSupplyExceeded)) <==> (*caller == old(
            token_authority,
        ).authority && old(token_authority).total_burned <= old(token_authority).total_minted
            && old(token_authority).circulating() + amount <= u64::MAX && old(
            token_authority,
        ).circulating() + amount > MAX_SUPPLY),
        (r is Ok) <==> (*caller == old(token_authority).authority && old(
            token_authority,
        ).total_burned <= old(token_authority).total_minted && old(token_authority).circulating()
            + amount <= MAX_SUPPLY && old(token_authority).total_minted + amount <= u64::MAX),
        r is Err ==> *final(token_authority) == *old(token_authority),
        r is Ok ==> *final(token_authority) == (TokenAuthority {
            total_minted: (old(token_authority).total_minted + amount) as u64,
            ..*old(token_authority)
        }),
        r is Ok ==> final(token_authority).wf(),
        old(token_authority).wf() ==> final(token_authority).wf(),
        final(token_authority).total_minted >= old(token_authority).total_minted,
        final(token_authority).total_burned == old(token_authority).total_burned,
{
    if !bytes32_eq(caller, &token_authority.authority) {
        return Err(ErrorCode::InvalidAuthority);
    }
    match apply_mint(token_authority.total_minted, token_authority.total_burned, amount, MAX_SUPPLY) {
        Ok(new_minted) => {
            token_authority.total_minted = new_minted;
            Ok(())
        },
        Err(e) => Err(e),
    }
}

/// Burn tokens. The caller's control of the burned balance is authenticated
/// by the runtime, which performs the actual burn transfer; only the signer
/// presence is required here, so no authority check is made. On any error
/// nothing is mutated.
pub fn burn_tokens(token_authority: &mut TokenAuthority, amount: u64) -> (r: Result<
    (),
    ErrorCode,
>)
    ensures
        (r is Ok) <==> (old(token_authority).total_burned + amount <= u64::MAX && old(
            token_authority,
        ).total_burned + amount <= old(token_authority).total_minted),
        (r == Err::<(), ErrorCode>(ErrorCode::MathOverflow)) <==> !(r is Ok),
        r is Err ==> *final(token_authority) == *old(token_authority),
        r is Ok ==> *final(token_authority) == (TokenAuthority {
            total_burned: (old(token_authority).total_burned + amount) as u64,
            ..*old(token_authority)
        }),
        old(token_authority).wf() ==> final(token_authority).wf(),
        final(token_authority).total_burned >= old(token_authority).total_burned,
        final(token_authority).total_minted == old(token_authority).total_minted,
{
    match apply_burn(token_authority.total_minted, token_authority.total_burned, amount) {
        Ok(new_burned) => {
            token_authority.total_burned = new_burned;
            Ok(())
        },
        Err(e) => Err(e),
    }
}

/// Update the quoted base price (authority only). A zero price is rejected.
/// The price is informational: no other operation reads it. On any error
/// nothing is mutated.
pub fn update_base_price(
    token_authority: &mut TokenAuthority,
    caller: &Identity,
    new_price_usd_cents: u64,
) -> (r: Result<(), ErrorCode>)
    ensures
        (r == Err::<(), ErrorCode>(ErrorCode::InvalidAuthority)) <==> *caller != old(
            token_authority,
        ).authority,
        (r == Err::<(), ErrorCode>(ErrorCode::InvalidPrice)) <==> (*caller == old(
            token_authority,
        ).authority && new_price_usd_cents == 0),
        (r is Ok) <==> (*caller == old(token_authority).authority && new_price_usd_cents > 0),
        r is Err ==> *final(token_authority) == *old(token_authority),
        r is Ok ==> *final(token_authority) == (TokenAuthority {
            base_price_usd_cents: new_price_usd_cents,
            ..*old(token_authority)
        }),
        old(token_authority).wf() ==> final(token_authority).wf(),
{
    if !bytes32_eq(caller, &token_authority.authority) {
        return Err(ErrorCode::InvalidAuthority);
    }
    if new_price_usd_cents == 0 {
        return Err(ErrorCode::InvalidPrice);
    }
    token_authority.base_price_usd_cents = new_price_usd_cents;
    Ok(())
}

/// Transfer the authority to a new identity (authority only). A null
/// identity is rejected; on success the old authority loses all privilege
/// when the instruction commits. On any error nothing is mutated.
pub fn transfer_authority(
    token_authority: &mut TokenAuthority,
    caller: &Identity,
    new_authority: Identity,
) -> (r: Result<(), ErrorCode>)
    ensures
        (r == Err::<(), ErrorCode>(ErrorCode::InvalidAuthority)) <==> (*caller != old(
            token_authority,
        ).authority || is_null_identity(new_authority)),
        (r is Ok) <==> (*caller == old(token_authority).authority && !is_null_identity(
            new_authority,
        )),
        r is Err ==> *final(token_authority) == *old(token_authority),
        r is Ok ==> *final(token_authority) == (TokenAuthority {
            authority: new_authority,
            ..*old(token_authority)
        }),
        old(token_authority).wf() ==> final(token_authority).wf(),
{
    if !bytes32_eq(caller, &token_authority.authority) {
        return Err(ErrorCode::InvalidAuthority);
    }
    if identity_is_null(&new_authority) {
        return Err(ErrorCode::InvalidAuthority);
    }
    token_authority.authority = new_authority;
    Ok(())
}

/// Supply conservation law: `initialize` establishes well-formedness and
/// every handler preserves it, so every reachable ledger state is
/// well-formed — and in a well-formed state the burned total never exceeds
/// the minted total, and the circulating supply never exceeds the ceiling.
pub proof fn lemma_supply_conservation(token_authority: TokenAuthority)
    requires
        token_authority.wf(),
    ensures
        0 <= token_authority.total_burned <= token_authority.total_minted,
        0 <= token_authority.circulating() <= MAX_SUPPLY,
{
}

} // verus!
