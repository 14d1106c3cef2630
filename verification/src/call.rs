//! The delegated calls that an operation asks for, and what comes back.

use vstd::prelude::*;
use crate::pubkey::Pubkey;
use crate::state::Vault;

verus! {

/// The vault's standing to sign for its own accounts. The vault holds no
/// private key: it shows its identity, the identity it was derived from (the
/// pool, for a vault that manages one) and the byte that completes the
/// derivation, and the host accepts that as a signature.
#[derive(Clone, Copy, Debug, PartialEq, Eq)]
pub struct VaultSigner {
    /// The vault's own identity.
    pub vault: Pubkey,
    /// The identity that the vault's own was derived from.
    pub origin: Pubkey,
    /// The byte that completes the derivation.
    pub bump: u8,
}

/// The fixed first seed: the word "vault" in ASCII.
pub open spec fn vault_seed() -> Seq<u8> {
    seq![118u8, 97u8, 117u8, 108u8, 116u8]
}

impl VaultSigner {
    /// The seeds that derive the vault's identity: the fixed word, the
    /// identity it was derived from, and the bump byte.
    pub open spec fn seeds_spec(self) -> Seq<Seq<u8>> {
        seq![vault_seed(), self.origin@, seq![self.bump]]
    }

    /// The signer of the given vault, whose record lives at `vault_key`.
    pub fn of(vault_key: Pubkey, vault: &Vault) -> (signer: VaultSigner)
        ensures
            signer == signer_of(vault_key, *vault),
    {
        VaultSigner { vault: vault_key, origin: vault.whirlpool, bump: vault.bump }
    }

    /// The signing seeds, ready to hand to the host.
    pub fn seeds(&self) -> (out: Vec<Vec<u8>>)
        ensures
            out@.map_values(|seed: Vec<u8>| seed@) == self.seeds_spec(),
    {
        let mut word: Vec<u8> = Vec::new();
        word.push(118u8);
        word.push(97u8);
        word.push(117u8);
        word.push(108u8);
        word.push(116u8);
        assert(word@ =~= vault_seed());
        let pool = self.origin.to_bytes();
        let mut last: Vec<u8> = Vec::new();
        last.push(self.bump);
        assert(last@ =~= seq![self.bump]);
        let mut out: Vec<Vec<u8>> = Vec::new();
        out.push(word);
        out.push(pool);
        out.push(last);
        assert(out@.map_values(|seed: Vec<u8>| seed@) =~= self.seeds_spec());
        out
    }
}

/// The signer of a vault, as a value.
pub open spec fn signer_of(vault_key: Pubkey, vault: Vault) -> VaultSigner {
    VaultSigner { vault: vault_key, origin: vault.whirlpool, bump: vault.bump }
}

/// One call to a collaborator. The caller of a step performs it and reports
/// the result to the next step.
#[derive(Clone, Copy, Debug, PartialEq, Eq)]
pub enum Call {
    /// Move `amount` units from one token account to another. `delegate` is
    /// absent where the account's owner signs for itself.
    Transfer { from: Pubkey, to: Pubkey, authority: Pubkey, amount: u64, delegate: Option<VaultSigner> },
    /// Swap `amount` units of one reserve into the other asset, A into B
    /// where `a_to_b` holds; fail if less than `other_amount_threshold` comes
    /// out.
    Swap { whirlpool: Pubkey, amount: u64, other_amount_threshold: u64, a_to_b: bool, signer: VaultSigner },
    /// Open the vault's position over a range of ticks.
    OpenPosition { whirlpool: Pubkey, position: Pubkey, tick_lower: i32, tick_upper: i32, signer: VaultSigner },
    /// Commit up to the given amounts of each reserve to the position.
    IncreaseLiquidity { position: Pubkey, amount_a_max: u64, amount_b_max: u64, min_a: u64, min_b: u64, signer: VaultSigner },
    /// Take `liquidity` out of the position into the reserves.
    DecreaseLiquidity { position: Pubkey, liquidity: u128, min_a: u64, min_b: u64, signer: VaultSigner },
    /// Credit the fees that the position has earned to the reserves.
    CollectFees { position: Pubkey, signer: VaultSigner },
}

/// What a collaborator answered to the call of the previous step.
#[derive(Clone, Copy, Debug, PartialEq, Eq, Structural)]
pub enum Reply {
    /// The call took effect.
    Success,
    /// The call failed, with the collaborator's code.
    Failure(u64),
}

/// How the excess to swap is computed when a rebalance finds the reserves
/// uneven.
#[derive(Clone, Copy, Debug, PartialEq, Eq, Structural)]
pub enum ExcessRule {
    /// The larger balance less the maximum of the two, which is always zero.
    Literal,
    /// Half of the difference between the two balances, rounded down.
    HalfImbalance,
}

/// The knobs of the operations. `Policy::literal()` is the default: no floor
/// under any output, and the literal excess rule. Without a floor a swap or a
/// liquidity call accepts any price, so a caller that can bound the loss
/// should set one.
#[derive(Clone, Copy, Debug, PartialEq, Eq, Structural)]
pub struct Policy {
    pub excess_rule: ExcessRule,
    /// The least output that a swap may give.
    pub min_swap_output: u64,
    /// The least amount of asset A that a liquidity call may move.
    pub min_token_a: u64,
    /// The least amount of asset B that a liquidity call may move.
    pub min_token_b: u64,
}

impl Policy {
    /// The default policy, as a value.
    pub open spec fn literal_spec() -> Policy {
        Policy { excess_rule: ExcessRule::Literal, min_swap_output: 0, min_token_a: 0, min_token_b: 0 }
    }

    /// No floor under any output, and the literal excess rule.
    pub fn literal() -> (policy: Policy)
        ensures
            policy == Policy::literal_spec(),
    {
        Policy { excess_rule: ExcessRule::Literal, min_swap_output: 0, min_token_a: 0, min_token_b: 0 }
    }
}

} // verus!
