use vstd::prelude::*;

use crate::errors::VaultError;

verus! {

/// The 32-byte hash of contract code, split into two halves.
#[derive(Clone, Copy, Debug, PartialEq, Eq, Structural)]
pub struct WasmHash {
    pub high: u128,
    pub low: u128,
}

/// A proposed upgrade: the code hash and the earliest time it may run.
#[derive(Clone, Copy, Debug, PartialEq, Eq, Structural)]
pub struct PendingUpgrade {
    pub wasm_hash: WasmHash,
    pub eta: u64,
}

/// Why an upgrade could not be executed.
#[derive(Clone, Copy, Debug, PartialEq, Eq, Structural)]
pub enum UpgradeFailure {
    /// No upgrade is proposed.
    NoPending,
    /// The proposal's eta has not been reached.
    TimelockNotElapsed,
    /// The hash differs from the proposed one.
    HashMismatch,
}

/// The error each upgrade failure is answered with.
pub open spec fn failure_error(f: UpgradeFailure) -> VaultError {
    match f {
        UpgradeFailure::NoPending => VaultError::UpgradeNoPending,
        UpgradeFailure::TimelockNotElapsed => VaultError::UpgradeTimelockNotElapsed,
        UpgradeFailure::HashMismatch => VaultError::UpgradeHashMismatch,
    }
}

/// The error an upgrade failure is answered with: a distinct one per failure.
pub fn upgrade_failure_error(f: UpgradeFailure) -> (r: VaultError)
    ensures
        r == failure_error(f),
{
    match f {
        UpgradeFailure::NoPending => VaultError::UpgradeNoPending,
        UpgradeFailure::TimelockNotElapsed => VaultError::UpgradeTimelockNotElapsed,
        UpgradeFailure::HashMismatch => VaultError::UpgradeHashMismatch,
    }
}

/// Why executing an upgrade of `hash` at `now` fails, if it does.
pub open spec fn execute_failure(pending: Option<PendingUpgrade>, hash: WasmHash, now: u64) -> Option<UpgradeFailure> {
    match pending {
        None => Some(UpgradeFailure::NoPending),
        Some(p) => if now < p.eta {
            Some(UpgradeFailure::TimelockNotElapsed)
        } else if p.wasm_hash != hash {
            Some(UpgradeFailure::HashMismatch)
        } else {
            None
        },
    }
}

/// The timelock guarding code upgrades: at most one pending proposal.
#[derive(Clone, Copy, Debug)]
pub struct UpgradeTimelock {
    pub pending: Option<PendingUpgrade>,
}

impl UpgradeTimelock {
    /// A timelock with nothing proposed.
    pub fn new() -> (t: Self)
        ensures
            t.pending is None,
    {
        UpgradeTimelock { pending: None }
    }

    /// Proposes `wasm_hash`, executable from `now + timelock_seconds` on,
    /// replacing any earlier proposal: `Unauthorized` unless the caller holds
    /// the upgrader role.
    pub fn propose_upgrade(&mut self, caller_is_upgrader: bool, wasm_hash: WasmHash, now: u64, timelock_seconds: u64) -> (r: Result<(), VaultError>)
        requires
            now + timelock_seconds <= u64::MAX,
        ensures
            r is Ok <==> caller_is_upgrader,
            r matches Err(e) ==> e == VaultError::Unauthorized && final(self).pending == old(self).pending,
            r is Ok ==> final(self).pending == Some(PendingUpgrade { wasm_hash, eta: (now + timelock_seconds) as u64 }),
    {
        if !caller_is_upgrader {
            return Err(VaultError::Unauthorized);
        }
        self.pending = Some(PendingUpgrade { wasm_hash, eta: now + timelock_seconds });
        Ok(())
    }

    /// Withdraws any pending proposal: `Unauthorized` unless the caller holds
    /// the pauser role.
    pub fn cancel_upgrade(&mut self, caller_is_pauser: bool) -> (r: Result<(), VaultError>)
        ensures
            r is Ok <==> caller_is_pauser,
            r matches Err(e) ==> e == VaultError::Unauthorized && final(self).pending == old(self).pending,
            r is Ok ==> final(self).pending is None,
    {
        if !caller_is_pauser {
            return Err(VaultError::Unauthorized);
        }
        self.pending = None;
        Ok(())
    }

    /// Admits the execution of an upgrade to `wasm_hash` at `now`:
    /// `Unauthorized` unless the caller holds the upgrader role, then the
    /// error of the first failure (nothing pending, eta not reached, hash
    /// mismatch). On success the proposal is consumed.
    pub fn execute_upgrade(&mut self, caller_is_upgrader: bool, wasm_hash: WasmHash, now: u64) -> (r: Result<(), VaultError>)
        ensures
            r == (if !caller_is_upgrader {
                Err(VaultError::Unauthorized)
            } else {
                match execute_failure(old(self).pending, wasm_hash, now) {
                    Some(f) => Err(failure_error(f)),
                    None => Ok(()),
                }
            }),
            r is Err ==> final(self).pending == old(self).pending,
            r is Ok ==> final(self).pending is None,
    {
        if !caller_is_upgrader {
            return Err(VaultError::Unauthorized);
        }
        let failure = match self.pending {
            None => Some(UpgradeFailure::NoPending),
            Some(p) => if now < p.eta {
                Some(UpgradeFailure::TimelockNotElapsed)
            } else if p.wasm_hash != wasm_hash {
                Some(UpgradeFailure::HashMismatch)
            } else {
                None
            },
        };
        match failure {
            Some(f) => Err(upgrade_failure_error(f)),
            None => {
                self.pending = None;
                Ok(())
            },
        }
    }
}

/// After a cancel, no upgrade can be executed: it fails with
/// `UpgradeNoPending` whatever the hash and time.
pub proof fn law_upgrade_after_cancel_has_nothing_pending(hash: WasmHash, now: u64)
    ensures
        execute_failure(None, hash, now) == Some(UpgradeFailure::NoPending),
        failure_error(UpgradeFailure::NoPending) == VaultError::UpgradeNoPending,
{
}

/// An executed upgrade is the one proposed, no earlier than its eta; and a
/// proposal runs at most once.
pub proof fn law_upgrade_runs_only_as_proposed(p: PendingUpgrade, hash: WasmHash, now: u64)
    ensures
        execute_failure(Some(p), hash, now) is None <==> (hash == p.wasm_hash && now >= p.eta),
        execute_failure(None, hash, now) is Some,
{
}

/// Each failure has its own error, distinct from the others.
pub proof fn law_upgrade_failures_distinct(f: UpgradeFailure, g: UpgradeFailure)
    ensures
        f != g ==> failure_error(f) != failure_error(g),
{
}

} // verus!
