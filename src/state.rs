//! The records of the registry, their mathematical models, and the slots that
//! key them.

use vstd::prelude::*;
use vstd::utf8::*;
use crate::address::Address;

verus! {

pub const MAX_BIO: usize = 256;
pub const MAX_AVATAR: usize = 128;
pub const MAX_HANDLE: usize = 32;
pub const MAX_SITE: usize = 64;
pub const MAX_MEMO: usize = 100;
pub const MAX_SESSION_ID: usize = 64;
pub const MAX_TRANSFER_HISTORY_LIMIT: u8 = 50;

/// The balance that every new identity starts with.
pub const INITIAL_POINTS: u32 = 100;
/// Native value units per point.
pub const POINT_VALUE_GORB: u64 = 50_000;
/// The advised cost of one transaction, in points.
pub const DEFAULT_TRANSACTION_COST: u32 = 1;

/// An identity: the owner of a handle.
pub struct Profile {
    pub authority: Address,
    pub main_address: Address,
    pub bump: u8,
    pub username: String,
    pub bio: String,
    pub avatar: String,
    pub twitter: String,
    pub discord: String,
    pub website: String,
}

/// A typed sub-address `address_type@handle`.
pub struct AddressMapping {
    /// The address of the owning identity.
    pub profile: Address,
    pub address_type: String,
    pub target: Address,
    pub extra_tag: u8,
}

/// The handle that an address was last registered as main address of.
pub struct ReverseLookup {
    pub username: String,
}

/// The points ledger of one handle.
pub struct UserPoints {
    pub username: String,
    pub points_balance: u32,
    /// Always `points_balance * POINT_VALUE_GORB`.
    pub points_value_gorb: u64,
}

/// A single-use authentication session.
pub struct AuthSession {
    pub username: String,
    pub session_id: String,
    pub required_points: u32,
    pub created_at: i64,
    pub is_active: bool,
}

impl Profile {
    pub fn duplicate(&self) -> (r: Profile)
        ensures
            r == *self,
    {
        Profile {
            authority: self.authority,
            main_address: self.main_address,
            bump: self.bump,
            username: self.username.clone(),
            bio: self.bio.clone(),
            avatar: self.avatar.clone(),
            twitter: self.twitter.clone(),
            discord: self.discord.clone(),
            website: self.website.clone(),
        }
    }
}

impl UserPoints {
    pub fn duplicate(&self) -> (r: UserPoints)
        ensures
            r == *self,
    {
        UserPoints {
            username: self.username.clone(),
            points_balance: self.points_balance,
            points_value_gorb: self.points_value_gorb,
        }
    }
}

impl AuthSession {
    pub fn duplicate(&self) -> (r: AuthSession)
        ensures
            r == *self,
    {
        AuthSession {
            username: self.username.clone(),
            session_id: self.session_id.clone(),
            required_points: self.required_points,
            created_at: self.created_at,
            is_active: self.is_active,
        }
    }
}

/// What an identity record holds; free-text fields as their UTF-8 bytes.
pub struct ProfileModel {
    /// The bytes of the identity's own derived address.
    pub address: Seq<u8>,
    pub authority: Address,
    pub main_address: Address,
    pub bump: u8,
    pub username: Seq<char>,
    pub bio: Seq<u8>,
    pub avatar: Seq<u8>,
    pub twitter: Seq<u8>,
    pub discord: Seq<u8>,
    pub website: Seq<u8>,
}

pub struct MappingModel {
    /// The handle that the mapping hangs under.
    pub owner: Seq<char>,
    /// The bytes of the owning identity's address.
    pub profile: Seq<u8>,
    pub address_type: Seq<char>,
    pub target: Address,
    pub extra_tag: u8,
}

pub struct PointsModel {
    pub username: Seq<char>,
    pub balance: u32,
    pub value: u64,
}

pub struct SessionModel {
    pub username: Seq<char>,
    pub session_id: Seq<char>,
    pub required_points: u32,
    pub created_at: i64,
    pub is_active: bool,
}

/// The place of a record in the store: a namespace and the parts that
/// identify the record within it.
pub enum Slot {
    Profile(Seq<char>),
    Mapping(Seq<char>, Seq<char>),
    Reverse(Address),
    Points(Seq<char>),
    Session(Seq<char>, Seq<char>),
}

/// The model of one stored record.
pub enum Entry {
    Profile(ProfileModel),
    Mapping(MappingModel),
    Reverse(Address, Seq<char>),
    Points(PointsModel),
    Session(SessionModel),
}

impl Entry {
    /// A record lives at the slot that its own identifying fields name.
    pub open spec fn slot(self) -> Slot {
        match self {
            Entry::Profile(p) => Slot::Profile(p.username),
            Entry::Mapping(m) => Slot::Mapping(m.owner, m.address_type),
            Entry::Reverse(a, _) => Slot::Reverse(a),
            Entry::Points(p) => Slot::Points(p.username),
            Entry::Session(s) => Slot::Session(s.username, s.session_id),
        }
    }
}

/// A stored record.
pub enum Record {
    Profile { address: Address, profile: Profile },
    Mapping { owner: String, mapping: AddressMapping },
    Reverse { address: Address, lookup: ReverseLookup },
    Points(UserPoints),
    Session(AuthSession),
}

pub open spec fn profile_model(address: Address, p: Profile) -> ProfileModel {
    ProfileModel {
        address: address.bytes@,
        authority: p.authority,
        main_address: p.main_address,
        bump: p.bump,
        username: p.username@,
        bio: encode_utf8(p.bio@),
        avatar: encode_utf8(p.avatar@),
        twitter: encode_utf8(p.twitter@),
        discord: encode_utf8(p.discord@),
        website: encode_utf8(p.website@),
    }
}

pub open spec fn mapping_model(owner: String, m: AddressMapping) -> MappingModel {
    MappingModel {
        owner: owner@,
        profile: m.profile.bytes@,
        address_type: m.address_type@,
        target: m.target,
        extra_tag: m.extra_tag,
    }
}

pub open spec fn points_model(p: UserPoints) -> PointsModel {
    PointsModel { username: p.username@, balance: p.points_balance, value: p.points_value_gorb }
}

pub open spec fn session_model(s: AuthSession) -> SessionModel {
    SessionModel {
        username: s.username@,
        session_id: s.session_id@,
        required_points: s.required_points,
        created_at: s.created_at,
        is_active: s.is_active,
    }
}

impl View for Record {
    type V = Entry;

    open spec fn view(&self) -> Entry {
        match *self {
            Record::Profile { address, profile } => Entry::Profile(profile_model(address, profile)),
            Record::Mapping { owner, mapping } => Entry::Mapping(mapping_model(owner, mapping)),
            Record::Reverse { address, lookup } => Entry::Reverse(address, lookup.username@),
            Record::Points(p) => Entry::Points(points_model(p)),
            Record::Session(s) => Entry::Session(session_model(s)),
        }
    }
}

/// An executable name for a slot, used to look a record up.
pub enum Probe<'a> {
    Profile(&'a String),
    Mapping(&'a String, &'a String),
    Reverse(Address),
    Points(&'a String),
    Session(&'a String, &'a String),
}

impl<'a> View for Probe<'a> {
    type V = Slot;

    open spec fn view(&self) -> Slot {
        match *self {
            Probe::Profile(h) => Slot::Profile(h@),
            Probe::Mapping(h, t) => Slot::Mapping(h@, t@),
            Probe::Reverse(a) => Slot::Reverse(a),
            Probe::Points(h) => Slot::Points(h@),
            Probe::Session(h, s) => Slot::Session(h@, s@),
        }
    }
}

/// Whether `rec` lives at the slot that `probe` names.
pub fn record_at(rec: &Record, probe: &Probe) -> (r: bool)
    ensures
        r == (rec@.slot() == probe@),
{
    match (rec, probe) {
        (Record::Profile { profile, .. }, Probe::Profile(h)) => profile.username == **h,
        (Record::Mapping { owner, mapping }, Probe::Mapping(h, t)) => {
            *owner == **h && mapping.address_type == **t
        },
        (Record::Reverse { address, .. }, Probe::Reverse(a)) => *address == *a,
        (Record::Points(p), Probe::Points(h)) => p.username == **h,
        (Record::Session(s), Probe::Session(h, id)) => s.username == **h && s.session_id == **id,
        _ => false,
    }
}

/// Whether two records live at the same slot.
pub fn same_slot(a: &Record, b: &Record) -> (r: bool)
    ensures
        r == (a@.slot() == b@.slot()),
{
    match (a, b) {
        (Record::Profile { profile: p, .. }, Record::Profile { profile: q, .. }) => {
            p.username == q.username
        },
        (Record::Mapping { owner: o1, mapping: m1 }, Record::Mapping { owner: o2, mapping: m2 }) => {
            *o1 == *o2 && m1.address_type == m2.address_type
        },
        (Record::Reverse { address: a1, .. }, Record::Reverse { address: a2, .. }) => *a1 == *a2,
        (Record::Points(p), Record::Points(q)) => p.username == q.username,
        (Record::Session(s), Record::Session(t)) => {
            s.username == t.username && s.session_id == t.session_id
        },
        _ => false,
    }
}

} // verus!
