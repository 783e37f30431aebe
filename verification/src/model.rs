//! The data that the program keeps and the values that its operations hand out.

use vstd::prelude::*;

verus! {

/// Why an operation was refused.
#[derive(Debug, Clone, Copy, PartialEq, Eq, Structural)]
pub enum ContractError {
    /// The caller is not the program owner.
    Unauthorized,
    /// The credential is valid but does not grant the owner capability.
    InsufficientScope,
    /// The collection is already in the registry.
    AlreadyRegistered,
    /// The collection is not in the registry.
    UnknownCollection,
    /// A batch held no item.
    EmptyBatch,
    /// The credential verifier rejected the credential.
    CredentialInvalid,
    /// Stored data breaks an invariant of its type.
    StorageCorrupt,
}

/// A registered source of burnable items.
#[derive(Debug, Clone, PartialEq, Eq)]
pub struct CollectionInfo {
    /// Identity of the collection.
    pub address: String,
    /// Passed through to the host when a command is sent to the collection.
    pub code_hash: String,
    /// Reward paid per item burned.
    pub reward_rate: u128,
}

/// The asset in which rewards are paid.
#[derive(Debug, Clone, PartialEq, Eq)]
pub struct RewardAsset {
    pub address: String,
    pub code_hash: String,
    /// Access key cached for the asset, if one was established.
    pub viewing_key: Option<String>,
}

/// One processed batch, as kept in the history of the account that owned the
/// items.
#[derive(Debug, Clone, PartialEq, Eq)]
pub struct HistoryRecord {
    pub token_ids: Vec<String>,
    pub owner_account: String,
    pub source_collection: String,
    /// Host clock at processing time, in seconds.
    pub burn_timestamp: u64,
    /// Reward disbursed for the batch; may be zero.
    pub reward_amount: u128,
}

/// A command for the host to carry out after the operation that produced it
/// has succeeded.
#[derive(Debug, Clone, PartialEq, Eq)]
pub enum Effect {
    /// Destroy the listed items of a collection.
    Destroy { collection: String, code_hash: String, token_ids: Vec<String> },
    /// Move an amount of the reward asset to an account.
    Transfer { asset: String, code_hash: String, amount: u128, destination: String },
    /// Ask a collection to notify this program of items it receives.
    RegisterReceive { collection: String, code_hash: String, callback_code_hash: String },
    /// Establish the access key of the reward asset.
    SetViewingKey { asset: String, code_hash: String, key: String },
}

/// Whether some entry of `cols` has the address `addr`.
pub open spec fn is_registered(cols: Seq<CollectionInfo>, addr: Seq<char>) -> bool {
    exists|i: int| 0 <= i < cols.len() && (#[trigger] cols[i]).address@ == addr
}

/// The position of an entry with the address `addr`; meaningful where
/// `is_registered` holds, and the only such position where the addresses are
/// distinct.
pub open spec fn slot_of(cols: Seq<CollectionInfo>, addr: Seq<char>) -> int {
    choose|i: int| 0 <= i < cols.len() && (#[trigger] cols[i]).address@ == addr
}

/// No two entries share an address.
pub open spec fn distinct_addresses(cols: Seq<CollectionInfo>) -> bool {
    forall|i: int, j: int|
        0 <= i < j < cols.len() ==> (#[trigger] cols[i]).address@ != (#[trigger] cols[j]).address@
}

/// The singleton state of the program.
#[derive(Debug, Clone, PartialEq, Eq)]
pub struct GlobalState {
    /// The account with administrative capability; never changes.
    pub owner: String,
    /// The registered collections, in order of registration.
    pub collections: Vec<CollectionInfo>,
    pub reward_asset: RewardAsset,
    /// Items destroyed so far, over all accounts.
    pub total_burned: u64,
    /// Reward disbursed so far for burns.
    pub total_reward_paid: u128,
}

impl GlobalState {
    /// The invariant of the state: collection addresses are pairwise distinct.
    pub open spec fn wf(&self) -> bool {
        distinct_addresses(self.collections@)
    }

    /// Whether `addr` is the address of a registered collection.
    pub open spec fn has_collection(&self, addr: Seq<char>) -> bool {
        is_registered(self.collections@, addr)
    }

    /// The reward rate of the collection `addr`, which must be registered.
    pub open spec fn rate_of(&self, addr: Seq<char>) -> u128
        recommends
            self.has_collection(addr),
    {
        self.collections@[slot_of(self.collections@, addr)].reward_rate
    }
}

} // verus!
