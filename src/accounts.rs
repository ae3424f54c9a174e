//! What the host supplies with each operation: the signer, the handles that
//! name the records involved, and the clock where the operation reads it.

use vstd::prelude::*;
use crate::address::Address;

verus! {

pub struct CreateProfile {
    /// The signer, who becomes the owning authority and the main address.
    pub authority: Address,
}

pub struct EditProfile {
    pub authority: Address,
    pub username: String,
}

pub struct SetMainAddress {
    pub authority: Address,
    pub username: String,
}

pub struct TransferAuthority {
    pub authority: Address,
    pub username: String,
}

pub struct SetMapping {
    pub authority: Address,
    pub username: String,
}

pub struct GetMapping {
    pub username: String,
    pub address_type: String,
}

pub struct ClearMapping {
    pub authority: Address,
    pub username: String,
    pub address_type: String,
}

pub struct CreateAuthSession {
    pub authority: Address,
    pub username: String,
    /// The current time, in seconds since the epoch.
    pub now: i64,
}

pub struct ValidateAndDeductPoints {
    pub authority: Address,
    pub username: String,
}

pub struct AddPoints {
    pub authority: Address,
    pub username: String,
}

pub struct GetPointsBalance {
    pub requester: Address,
    pub now: i64,
}

pub struct TransferByUsername {
    /// The signer, who must own the sending identity.
    pub sender: Address,
    pub sender_username: String,
    pub now: i64,
}

pub struct TransferByMapping {
    pub sender: Address,
    pub sender_username: String,
    pub now: i64,
}

pub struct GetTransferHistory {
    pub requester: Address,
    pub now: i64,
}

} // verus!
