//! The notifications that the operations hand back for the host to publish.

use vstd::prelude::*;
use crate::address::Address;

verus! {

pub struct ProfileCreated {
    pub profile: Address,
    pub authority: Address,
    pub main_address: Address,
    pub username: String,
}

pub struct ProfileUpdated {
    pub profile: Address,
    pub authority: Address,
}

pub struct MainAddressChanged {
    pub profile: Address,
    pub new_main: Address,
}

pub struct AuthorityChanged {
    pub profile: Address,
    pub new_authority: Address,
}

pub struct MappingSet {
    pub profile: Address,
    pub address_type: String,
    pub target: Address,
    pub tag: u8,
}

pub struct MappingFetched {
    pub profile: Address,
    pub address_type: String,
    pub target: Address,
    pub tag: u8,
}

pub struct MappingCleared {
    pub profile: Address,
    pub address_type: String,
}

pub struct UserPointsInitialized {
    pub username: String,
    pub initial_points: u32,
    pub points_value_gorb: u64,
}

pub struct AuthSessionCreated {
    pub username: String,
    pub session_id: String,
    pub required_points: u32,
    pub created_at: i64,
}

pub struct PointsDeducted {
    pub username: String,
    pub session_id: String,
    pub points_deducted: u32,
    pub remaining_points: u32,
    pub remaining_value_gorb: u64,
}

pub struct PointsAdded {
    pub username: String,
    pub points_added: u32,
    pub new_balance: u32,
    pub new_value_gorb: u64,
}

pub struct PointsBalanceRequested {
    pub username: String,
    pub points_balance: u32,
    pub points_value_gorb: u64,
    pub requester: Address,
    pub timestamp: i64,
}

/// An authorized transfer to a recipient's main address. The host moves
/// `amount` native units from `sender` to `recipient`.
pub struct TokenTransferByUsername {
    pub sender: Address,
    pub sender_username: String,
    pub recipient: Address,
    pub recipient_username: String,
    pub amount: u64,
    pub memo: String,
    pub timestamp: i64,
    pub session_id: String,
}

/// An authorized transfer to a mapped address. The host moves `amount`
/// native units from `sender` to `recipient`.
pub struct TokenTransferByMapping {
    pub sender: Address,
    pub sender_username: String,
    pub recipient: Address,
    pub recipient_username: String,
    pub address_type: String,
    pub amount: u64,
    pub memo: String,
    pub timestamp: i64,
    pub session_id: String,
}

pub struct TransferHistoryRequested {
    pub profile: Address,
    pub username: String,
    pub requester: Address,
    pub limit: u8,
    pub timestamp: i64,
}

} // verus!
