//! The decisions around the archiver's accounts: whether a storage account
//! has to be made, whether a proof can be submitted, whether a reward is to
//! be claimed.

use crate::archiver::ArchiverMeta;
use crate::segment::{get_segment_from_slot, segment_of};
use vstd::prelude::*;

verus! {

/// Lamports that a new storage account is made with.
pub const STORAGE_ACCOUNT_LAMPORTS: u64 = 1;

/// Why the mining account could not be set up.
#[derive(Debug, Clone, Copy, PartialEq, Eq)]
pub enum SetupError {
    /// The archiver's own account holds nothing.
    NoBalance,
    /// No recent blockhash could be had for the transaction.
    NoRecentBlockhash,
}

impl SetupError {
    /// The message that goes with the error.
    pub fn message(&self) -> (text: &'static str)
        ensures
            text@ == (match *self {
                SetupError::NoBalance => "keypair account has no balance"@,
                SetupError::NoRecentBlockhash => "unable to get recent blockhash, can't submit proof"@,
            }),
    {
        match self {
            SetupError::NoBalance => "keypair account has no balance",
            SetupError::NoRecentBlockhash => "unable to get recent blockhash, can't submit proof",
        }
    }
}

/// What setting up the mining account comes to.
#[derive(Debug, Clone, Copy, PartialEq, Eq)]
pub enum AccountPlan {
    /// The storage account exists.
    Ready,
    /// The storage account is to be made, with `lamports` lamports and a
    /// transaction that carries `blockhash`.
    Create { lamports: u64, blockhash: [u8; 32] },
}

/// Decides how the mining account is set up. `balance` is the balance of
/// the archiver's own account; `storage_balance` that of its storage
/// account, `None` where it could not be had; `recent_blockhash` a recent
/// blockhash, `None` where none could be had.
///
/// An archiver without balance cannot go on. A storage account that cannot
/// be found, or holds nothing, is made with one lamport, for which a recent
/// blockhash is needed.
pub fn setup_mining_account(
    balance: u64,
    storage_balance: Option<u64>,
    recent_blockhash: Option<[u8; 32]>,
) -> (plan: Result<AccountPlan, SetupError>)
    ensures
        plan == (if balance == 0 {
            Err::<AccountPlan, SetupError>(SetupError::NoBalance)
        } else if has_balance(storage_balance) {
            Ok(AccountPlan::Ready)
        } else {
            match recent_blockhash {
                None => Err(SetupError::NoRecentBlockhash),
                Some(blockhash) => Ok(
                    AccountPlan::Create { lamports: STORAGE_ACCOUNT_LAMPORTS, blockhash },
                ),
            }
        }),
{
    if balance == 0 {
        return Err(SetupError::NoBalance);
    }
    if account_has_balance(storage_balance) {
        return Ok(AccountPlan::Ready);
    }
    match recent_blockhash {
        None => Err(SetupError::NoRecentBlockhash),
        Some(blockhash) => Ok(AccountPlan::Create { lamports: STORAGE_ACCOUNT_LAMPORTS, blockhash }),
    }
}

/// Whether an account was found and holds something.
pub open spec fn has_balance(balance: Option<u64>) -> bool {
    match balance {
        Some(lamports) => lamports > 0,
        None => false,
    }
}

/// Whether an account was found and holds something.
pub fn account_has_balance(balance: Option<u64>) -> (has: bool)
    ensures
        has == has_balance(balance),
{
    match balance {
        Some(lamports) => lamports > 0,
        None => false,
    }
}

/// Why no proof is submitted this turn.
#[derive(Debug, Clone, Copy, PartialEq, Eq)]
pub enum ProofSkipped {
    /// There is no storage account.
    NoStorageAccount,
    /// The archiver's account cannot pay the fee.
    InsufficientBalance,
    /// No recent blockhash could be had.
    NoRecentBlockhash,
}

/// A mining proof to submit.
#[derive(Debug, Clone, Copy, PartialEq, Eq)]
pub struct MiningProof {
    /// Hash of the sampled blocks.
    pub sha_state: [u8; 32],
    /// Index of the segment proven.
    pub segment_index: u64,
    /// The signature that chose the segment.
    pub signature: [u8; 64],
    /// The turn's blockhash, which seeded the sampling.
    pub blockhash: [u8; 32],
    /// The recent blockhash that the transaction carries.
    pub recent_blockhash: [u8; 32],
}

/// Decides whether a proof is submitted, and which. The balances are those
/// of the storage account and of the archiver's own, `None` where one could
/// not be had; `recent_blockhash` is a recent blockhash, `None` where none
/// could be had. The proof names the segment that the state's slot lies in.
pub fn submit_mining_proof(
    meta: &ArchiverMeta,
    storage_balance: Option<u64>,
    balance: Option<u64>,
    recent_blockhash: Option<[u8; 32]>,
) -> (proof_to_send: Result<MiningProof, ProofSkipped>)
    requires
        meta.slots_per_segment > 0,
    ensures
        proof_to_send == (if !has_balance(storage_balance) {
            Err::<MiningProof, ProofSkipped>(ProofSkipped::NoStorageAccount)
        } else if !has_balance(balance) {
            Err(ProofSkipped::InsufficientBalance)
        } else {
            match recent_blockhash {
                None => Err(ProofSkipped::NoRecentBlockhash),
                Some(recent) => Ok(
                    MiningProof {
                        sha_state: meta.sha_state,
                        segment_index: segment_of(meta.slot, meta.slots_per_segment) as u64,
                        signature: meta.signature,
                        blockhash: meta.blockhash,
                        recent_blockhash: recent,
                    },
                ),
            }
        }),
{
    if !account_has_balance(storage_balance) {
        return Err(ProofSkipped::NoStorageAccount);
    }
    if !account_has_balance(balance) {
        return Err(ProofSkipped::InsufficientBalance);
    }
    match recent_blockhash {
        None => Err(ProofSkipped::NoRecentBlockhash),
        Some(recent) => Ok(
            MiningProof {
                sha_state: meta.sha_state,
                segment_index: get_segment_from_slot(meta.slot, meta.slots_per_segment),
                signature: meta.signature,
                blockhash: meta.blockhash,
                recent_blockhash: recent,
            },
        ),
    }
}

/// Decides whether the reward is claimed: `validations` is the number of
/// validations that the storage account reports, `None` where the account
/// or its state could not be had. A reward is claimed when there is at
/// least one validation.
pub fn redeem_rewards(validations: Option<usize>) -> (claim: bool)
    ensures
        claim == (match validations {
            Some(count) => count > 0,
            None => false,
        }),
{
    match validations {
        Some(count) => count > 0,
        None => false,
    }
}

} // verus!
