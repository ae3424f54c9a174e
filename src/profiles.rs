//! The operations of the registry. Each one checks its inputs against the
//! current records, and either fails with one error and changes nothing, or
//! applies its whole effect and returns the notification for it.

use vstd::prelude::*;
use vstd::utf8::*;
use crate::accounts::{
    AddPoints, ClearMapping, CreateAuthSession, CreateProfile, EditProfile, GetMapping,
    GetPointsBalance, GetTransferHistory, SetMainAddress, SetMapping, TransferAuthority,
    TransferByMapping, TransferByUsername, ValidateAndDeductPoints,
};
use crate::address::{
    lemma_address_bytes_eq, program_address, seeds_view, try_find_program_address, Address,
};
use crate::error::ErrorCode;
use crate::events::{
    AuthSessionCreated, AuthorityChanged, MainAddressChanged, MappingCleared, MappingFetched,
    MappingSet, PointsAdded, PointsBalanceRequested, PointsDeducted, ProfileCreated,
    ProfileUpdated, TokenTransferByMapping, TokenTransferByUsername, TransferHistoryRequested,
    UserPointsInitialized,
};
use crate::registry::{
    mapping_of, points_of, points_value_consistent, profile_of, session_of, Registry,
};
use crate::state::{
    profile_model, AddressMapping, AuthSession, Entry, MappingModel, PointsModel, Probe, Profile,
    ProfileModel, Record, ReverseLookup, SessionModel, Slot, UserPoints, INITIAL_POINTS,
    MAX_AVATAR, MAX_BIO, MAX_HANDLE, MAX_MEMO, MAX_SESSION_ID, MAX_SITE,
    MAX_TRANSFER_HISTORY_LIMIT, POINT_VALUE_GORB,
};
use crate::validate::{
    clip_bytes, clip_opt, opt_bytes, valid_handle, valid_mapping_type, validate_addr_type,
    validate_username,
};

verus! {

broadcast use vstd::string::group_string_axioms;

/// The bytes of "profile", the namespace of identity addresses.
pub open spec fn profile_namespace() -> Seq<u8> {
    seq![112u8, 114, 111, 102, 105, 108, 101]
}

/// The seeds from which the address of the identity of `h` is derived.
pub open spec fn profile_seeds(h: Seq<char>) -> Seq<Seq<u8>> {
    seq![profile_namespace(), encode_utf8(h)]
}

fn profile_seeds_of(h: &String) -> (r: Vec<Vec<u8>>)
    ensures
        seeds_view(r@) == profile_seeds(h@),
{
    let mut seeds: Vec<Vec<u8>> = Vec::new();
    // b"profile"
    seeds.push(vec![112u8, 114, 111, 102, 105, 108, 101]);
    seeds.push(vstd::slice::slice_to_vec(h.as_str().as_bytes()));
    assert(seeds_view(seeds@) =~= profile_seeds(h@));
    seeds
}

/// Why `create_profile` fails, if it does.
pub open spec fn create_profile_error(
    m: Map<Slot, Entry>,
    program: Address,
    authority: Address,
    h: Seq<char>,
) -> Option<ErrorCode> {
    if !valid_handle(h) {
        Some(ErrorCode::InvalidHandle)
    } else if m.contains_key(Slot::Profile(h)) || m.contains_key(Slot::Points(h))
        || m.contains_key(Slot::Reverse(authority)) {
        Some(ErrorCode::AlreadyExists)
    } else if program_address(profile_seeds(h), program.bytes@) is None {
        Some(ErrorCode::NoViableAddress)
    } else {
        None
    }
}

/// The records after a successful `create_profile`: the identity, the
/// reverse lookup of its main address, and a ledger with the initial balance.
pub open spec fn create_profile_apply(
    m: Map<Slot, Entry>,
    program: Address,
    authority: Address,
    h: Seq<char>,
    bio: Option<String>,
    avatar: Option<String>,
    twitter: Option<String>,
    discord: Option<String>,
    website: Option<String>,
) -> Map<Slot, Entry> {
    let found = program_address(profile_seeds(h), program.bytes@).unwrap();
    let profile = ProfileModel {
        address: found.0,
        authority,
        main_address: authority,
        bump: found.1,
        username: h,
        bio: clip_bytes(opt_bytes(bio), MAX_BIO as int),
        avatar: clip_bytes(opt_bytes(avatar), MAX_AVATAR as int),
        twitter: clip_bytes(opt_bytes(twitter), MAX_HANDLE as int),
        discord: clip_bytes(opt_bytes(discord), MAX_HANDLE as int),
        website: clip_bytes(opt_bytes(website), MAX_SITE as int),
    };
    let points = PointsModel {
        username: h,
        balance: INITIAL_POINTS,
        value: (INITIAL_POINTS as int * POINT_VALUE_GORB as int) as u64,
    };
    m.insert(Slot::Profile(h), Entry::Profile(profile)).insert(
        Slot::Reverse(authority),
        Entry::Reverse(authority, h),
    ).insert(Slot::Points(h), Entry::Points(points))
}

/// Registers the handle `username` for the signer, who becomes its owning
/// authority and its main address, and opens its points ledger.
pub fn create_profile(
    registry: &mut Registry,
    ctx: &CreateProfile,
    username: String,
    bio: Option<String>,
    avatar: Option<String>,
    twitter: Option<String>,
    discord: Option<String>,
    website: Option<String>,
) -> (r: Result<(ProfileCreated, UserPointsInitialized), ErrorCode>)
    requires
        old(registry).wf(),
    ensures
        final(registry).wf(),
        final(registry).program() == old(registry).program(),
        match create_profile_error(old(registry)@, old(registry).program(), ctx.authority, username@) {
            Some(e) => r == Err::<(ProfileCreated, UserPointsInitialized), ErrorCode>(e)
                && final(registry)@ == old(registry)@,
            None => {
                &&& final(registry)@ == create_profile_apply(
                    old(registry)@,
                    old(registry).program(),
                    ctx.authority,
                    username@,
                    bio,
                    avatar,
                    twitter,
                    discord,
                    website,
                )
                &&& r matches Ok((created, init))
                &&& created.profile.bytes@ == program_address(
                    profile_seeds(username@),
                    old(registry).program().bytes@,
                ).unwrap().0
                &&& created.authority == ctx.authority
                &&& created.main_address == ctx.authority
                &&& created.username@ == username@
                &&& init.username@ == username@
                &&& init.initial_points == INITIAL_POINTS
                &&& init.points_value_gorb == INITIAL_POINTS as u64 * POINT_VALUE_GORB
            },
        },
{
    if let Err(e) = validate_username(username.as_str()) {
        return Err(e);
    }
    if registry.profile(&username).is_some() || registry.points(&username).is_some()
        || registry.reverse_lookup(ctx.authority).is_some() {
        return Err(ErrorCode::AlreadyExists);
    }
    let seeds = profile_seeds_of(&username);
    let (address, bump) = match try_find_program_address(&seeds, &registry.program_id()) {
        Some(found) => found,
        None => {
            return Err(ErrorCode::NoViableAddress);
        },
    };
    let ghost m0 = registry@;
    let profile = Profile {
        authority: ctx.authority,
        main_address: ctx.authority,
        bump,
        username: username.clone(),
        bio: clip_opt(bio, MAX_BIO),
        avatar: clip_opt(avatar, MAX_AVATAR),
        twitter: clip_opt(twitter, MAX_HANDLE),
        discord: clip_opt(discord, MAX_HANDLE),
        website: clip_opt(website, MAX_SITE),
    };
    registry.put(Record::Profile { address, profile });
    registry.put(
        Record::Reverse { address: ctx.authority, lookup: ReverseLookup { username: username.clone() } },
    );
    let value = INITIAL_POINTS as u64 * POINT_VALUE_GORB;
    registry.put(
        Record::Points(
            UserPoints {
                username: username.clone(),
                points_balance: INITIAL_POINTS,
                points_value_gorb: value,
            },
        ),
    );
    let ghost m1 = registry@;
    proof {
        assert(m1 =~= create_profile_apply(
            m0,
            registry.program(),
            ctx.authority,
            username@,
            bio,
            avatar,
            twitter,
            discord,
            website,
        ));
        assert forall|k: Slot| #[trigger] m1.contains_key(k) implies m1[k].slot() == k by {
            if k != Slot::Profile(username@) && k != Slot::Points(username@) && k != Slot::Reverse(
                ctx.authority,
            ) {
                assert(m0.contains_key(k));
            }
        }
        assert forall|h: Seq<char>| #[trigger]
            m1.contains_key(Slot::Points(h)) implies points_value_consistent(
            m1[Slot::Points(h)],
        ) by {
            if h != username@ {
                assert(m0.contains_key(Slot::Points(h)));
            }
        }
        assert forall|h: Seq<char>| #[trigger]
            m1.contains_key(Slot::Profile(h)) <==> m1.contains_key(Slot::Points(h)) by {
            if h != username@ {
                assert(m1.contains_key(Slot::Profile(h)) == m0.contains_key(Slot::Profile(h)));
                assert(m1.contains_key(Slot::Points(h)) == m0.contains_key(Slot::Points(h)));
            }
        }
    }
    let created = ProfileCreated {
        profile: address,
        authority: ctx.authority,
        main_address: ctx.authority,
        username: username.clone(),
    };
    let init = UserPointsInitialized {
        username,
        initial_points: INITIAL_POINTS,
        points_value_gorb: value,
    };
    Ok((created, init))
}

/// The value in native units of a balance of `b` points.
pub open spec fn value_of(b: u32) -> u64 {
    (b as int * POINT_VALUE_GORB as int) as u64
}

fn points_value(b: u32) -> (r: u64)
    ensures
        r == value_of(b),
        r as int == b as int * POINT_VALUE_GORB as int,
{
    assert(b as int * 50000 <= 4294967295 * 50000) by (nonlinear_arith)
        requires
            b <= 4294967295,
    ;
    b as u64 * POINT_VALUE_GORB
}

/// Why an operation that only the owning authority of `h` may perform fails
/// at its first check, if it does.
pub open spec fn owner_error(m: Map<Slot, Entry>, caller: Address, h: Seq<char>) -> Option<ErrorCode> {
    match profile_of(m, h) {
        None => Some(ErrorCode::NotFound),
        Some(p) => if p.authority != caller {
            Some(ErrorCode::NotAuthorized)
        } else {
            None
        },
    }
}

fn check_owner<'a>(registry: &'a Registry, caller: Address, h: &String) -> (r: Result<
    (Address, &'a Profile),
    ErrorCode,
>)
    requires
        registry.wf(),
    ensures
        match owner_error(registry@, caller, h@) {
            Some(e) => r == Err::<(Address, &Profile), ErrorCode>(e),
            None => r matches Ok((a, p)) && profile_of(registry@, h@) == Some(profile_model(a, *p)),
        },
{
    match registry.profile(h) {
        None => Err(ErrorCode::NotFound),
        Some((a, p)) => {
            if p.authority != caller {
                Err(ErrorCode::NotAuthorized)
            } else {
                Ok((a, p))
            }
        },
    }
}

/// The model with the ledger of `h` set to balance `b`.
pub open spec fn with_balance(m: Map<Slot, Entry>, h: Seq<char>, b: u32) -> Map<Slot, Entry> {
    m.insert(Slot::Points(h), Entry::Points(PointsModel { username: h, balance: b, value: value_of(b) }))
}

/// Stores a ledger of `h` with balance `b`, in place of the one there.
fn store_balance(registry: &mut Registry, h: &String, b: u32) -> (value: u64)
    requires
        old(registry).wf(),
        old(registry)@.contains_key(Slot::Points(h@)),
    ensures
        final(registry).wf(),
        final(registry)@ == with_balance(old(registry)@, h@, b),
        final(registry).program() == old(registry).program(),
        value == value_of(b),
{
    let ghost m0 = registry@;
    let value = points_value(b);
    registry.put(Record::Points(UserPoints { username: h.clone(), points_balance: b, points_value_gorb: value }));
    proof {
        let m1 = registry@;
        assert forall|k: Slot| #[trigger] m1.contains_key(k) implies m1[k].slot() == k by {
            if k != Slot::Points(h@) {
                assert(m0.contains_key(k));
            }
        }
        assert forall|g: Seq<char>| #[trigger]
            m1.contains_key(Slot::Points(g)) implies points_value_consistent(m1[Slot::Points(g)]) by {
            if g != h@ {
                assert(m0.contains_key(Slot::Points(g)));
            }
        }
        assert forall|g: Seq<char>| #[trigger]
            m1.contains_key(Slot::Profile(g)) <==> m1.contains_key(Slot::Points(g)) by {
            if g != h@ {
                assert(m1.contains_key(Slot::Profile(g)) == m0.contains_key(Slot::Profile(g)));
                assert(m1.contains_key(Slot::Points(g)) == m0.contains_key(Slot::Points(g)));
            }
        }
    }
    value
}

/// Why `validate_and_deduct_points` fails, if it does.
pub open spec fn consume_error(
    m: Map<Slot, Entry>,
    caller: Address,
    h: Seq<char>,
    s: Seq<char>,
    n: u32,
) -> Option<ErrorCode> {
    if owner_error(m, caller, h) is Some {
        owner_error(m, caller, h)
    } else if points_of(m, h) is None || session_of(m, h, s) is None {
        Some(ErrorCode::NotFound)
    } else {
        let p = points_of(m, h).unwrap();
        let session = session_of(m, h, s).unwrap();
        if session.username != p.username {
            Some(ErrorCode::SessionUsernameMismatch)
        } else if session.session_id != s {
            Some(ErrorCode::InvalidSessionId)
        } else if !session.is_active {
            Some(ErrorCode::SessionExpired)
        } else if p.balance < n {
            Some(ErrorCode::InsufficientPoints)
        } else {
            None
        }
    }
}

/// The records after a successful `validate_and_deduct_points`: `n` points
/// fewer, and the session consumed.
pub open spec fn consume_apply(m: Map<Slot, Entry>, h: Seq<char>, s: Seq<char>, n: u32) -> Map<
    Slot,
    Entry,
> {
    let p = points_of(m, h).unwrap();
    let session = session_of(m, h, s).unwrap();
    with_balance(m, h, (p.balance - n) as u32).insert(
        Slot::Session(h, s),
        Entry::Session(SessionModel { is_active: false, ..session }),
    )
}

/// The checks and the effect of consuming session `session_id` of the ledger
/// of `h`, deducting `n` points: the one step from active to consumed.
fn consume_session(registry: &mut Registry, caller: Address, h: &String, session_id: &String, n: u32) -> (r: Result<
    (u32, u64),
    ErrorCode,
>)
    requires
        old(registry).wf(),
    ensures
        final(registry).wf(),
        final(registry).program() == old(registry).program(),
        match consume_error(old(registry)@, caller, h@, session_id@, n) {
            Some(e) => r == Err::<(u32, u64), ErrorCode>(e) && final(registry)@ == old(registry)@,
            None => {
                &&& final(registry)@ == consume_apply(old(registry)@, h@, session_id@, n)
                &&& r == Ok::<(u32, u64), ErrorCode>(
                    (
                        (points_of(old(registry)@, h@).unwrap().balance - n) as u32,
                        value_of((points_of(old(registry)@, h@).unwrap().balance - n) as u32),
                    ),
                )
            },
        },
{
    if let Err(e) = check_owner(registry, caller, h) {
        return Err(e);
    }
    let balance = match registry.points(h) {
        Some(p) => {
            if registry.session(h, session_id).is_none() {
                return Err(ErrorCode::NotFound);
            }
            p.points_balance
        },
        None => {
            return Err(ErrorCode::NotFound);
        },
    };
    let session = match registry.session(h, session_id) {
        Some(s) => s.duplicate(),
        None => {
            return Err(ErrorCode::NotFound);
        },
    };
    let ghost p = points_of(registry@, h@).unwrap();
    assert(p.username == h@);
    if session.username != *h {
        return Err(ErrorCode::SessionUsernameMismatch);
    }
    if session.session_id != *session_id {
        return Err(ErrorCode::InvalidSessionId);
    }
    if !session.is_active {
        return Err(ErrorCode::SessionExpired);
    }
    if balance < n {
        return Err(ErrorCode::InsufficientPoints);
    }
    let remaining = balance.saturating_sub(n);
    let value = store_balance(registry, h, remaining);
    let consumed = AuthSession { is_active: false, ..session };
    store_record(registry, Record::Session(consumed));
    Ok((remaining, value))
}

/// Consumes the active session `session_id` of the signer's handle and
/// deducts `points_to_deduct` points from its ledger.
pub fn validate_and_deduct_points(
    registry: &mut Registry,
    ctx: &ValidateAndDeductPoints,
    session_id: String,
    points_to_deduct: u32,
) -> (r: Result<PointsDeducted, ErrorCode>)
    requires
        old(registry).wf(),
    ensures
        final(registry).wf(),
        final(registry).program() == old(registry).program(),
        match consume_error(old(registry)@, ctx.authority, ctx.username@, session_id@, points_to_deduct) {
            Some(e) => r == Err::<PointsDeducted, ErrorCode>(e) && final(registry)@ == old(registry)@,
            None => {
                &&& final(registry)@ == consume_apply(
                    old(registry)@,
                    ctx.username@,
                    session_id@,
                    points_to_deduct,
                )
                &&& r matches Ok(ev)
                &&& ev.username@ == ctx.username@
                &&& ev.session_id@ == session_id@
                &&& ev.points_deducted == points_to_deduct
                &&& ev.remaining_points == points_of(final(registry)@, ctx.username@).unwrap().balance
                &&& ev.remaining_value_gorb == points_of(final(registry)@, ctx.username@).unwrap().value
            },
        },
{
    match consume_session(registry, ctx.authority, &ctx.username, &session_id, points_to_deduct) {
        Err(e) => Err(e),
        Ok((remaining, value)) => Ok(
            PointsDeducted {
                username: ctx.username.clone(),
                session_id,
                points_deducted: points_to_deduct,
                remaining_points: remaining,
                remaining_value_gorb: value,
            },
        ),
    }
}

/// Why `create_auth_session` fails, if it does.
pub open spec fn create_session_error(
    m: Map<Slot, Entry>,
    caller: Address,
    h: Seq<char>,
    s: Seq<char>,
    required: u32,
) -> Option<ErrorCode> {
    if owner_error(m, caller, h) is Some {
        owner_error(m, caller, h)
    } else if points_of(m, h) is None {
        Some(ErrorCode::NotFound)
    } else if encode_utf8(s).len() > MAX_SESSION_ID {
        Some(ErrorCode::InvalidSessionId)
    } else if m.contains_key(Slot::Session(h, s)) {
        Some(ErrorCode::AlreadyExists)
    } else if points_of(m, h).unwrap().balance < required {
        Some(ErrorCode::InsufficientPoints)
    } else {
        None
    }
}

/// The records after a successful `create_auth_session`: a new active session.
pub open spec fn create_session_apply(
    m: Map<Slot, Entry>,
    h: Seq<char>,
    s: Seq<char>,
    required: u32,
    now: i64,
) -> Map<Slot, Entry> {
    m.insert(
        Slot::Session(h, s),
        Entry::Session(
            SessionModel {
                username: h,
                session_id: s,
                required_points: required,
                created_at: now,
                is_active: true,
            },
        ),
    )
}

/// Opens an active session `session_id` for the signer's handle, after
/// checking that its balance covers `required_points`; no points are reserved.
/// A session has no time limit: it stays active until it is consumed.
pub fn create_auth_session(
    registry: &mut Registry,
    ctx: &CreateAuthSession,
    session_id: String,
    required_points: u32,
) -> (r: Result<AuthSessionCreated, ErrorCode>)
    requires
        old(registry).wf(),
    ensures
        final(registry).wf(),
        final(registry).program() == old(registry).program(),
        match create_session_error(old(registry)@, ctx.authority, ctx.username@, session_id@, required_points) {
            Some(e) => r == Err::<AuthSessionCreated, ErrorCode>(e) && final(registry)@ == old(registry)@,
            None => {
                &&& final(registry)@ == create_session_apply(
                    old(registry)@,
                    ctx.username@,
                    session_id@,
                    required_points,
                    ctx.now,
                )
                &&& r matches Ok(ev)
                &&& ev.username@ == ctx.username@
                &&& ev.session_id@ == session_id@
                &&& ev.required_points == required_points
                &&& ev.created_at == ctx.now
            },
        },
{
    if let Err(e) = check_owner(registry, ctx.authority, &ctx.username) {
        return Err(e);
    }
    let balance = match registry.points(&ctx.username) {
        Some(p) => p.points_balance,
        None => {
            return Err(ErrorCode::NotFound);
        },
    };
    if session_id.as_str().as_bytes().len() > MAX_SESSION_ID {
        return Err(ErrorCode::InvalidSessionId);
    }
    if registry.session(&ctx.username, &session_id).is_some() {
        return Err(ErrorCode::AlreadyExists);
    }
    if balance < required_points {
        return Err(ErrorCode::InsufficientPoints);
    }
    let session = AuthSession {
        username: ctx.username.clone(),
        session_id: session_id.clone(),
        required_points,
        created_at: ctx.now,
        is_active: true,
    };
    store_record(registry, Record::Session(session));
    Ok(
        AuthSessionCreated {
            username: ctx.username.clone(),
            session_id,
            required_points,
            created_at: ctx.now,
        },
    )
}

/// Why `add_points` fails, if it does.
pub open spec fn add_points_error(m: Map<Slot, Entry>, caller: Address, h: Seq<char>) -> Option<ErrorCode> {
    if owner_error(m, caller, h) is Some {
        owner_error(m, caller, h)
    } else if points_of(m, h) is None {
        Some(ErrorCode::NotFound)
    } else {
        None
    }
}

/// The records after a successful `add_points`: the balance raised by `n`,
/// stopping at `u32::MAX`.
pub open spec fn add_points_apply(m: Map<Slot, Entry>, h: Seq<char>, n: u32) -> Map<Slot, Entry> {
    with_balance(m, h, points_of(m, h).unwrap().balance.saturating_add(n))
}

/// Credits `points_to_add` points to the signer's ledger; the balance stops at
/// `u32::MAX` rather than overflowing.
pub fn add_points(registry: &mut Registry, ctx: &AddPoints, points_to_add: u32) -> (r: Result<
    PointsAdded,
    ErrorCode,
>)
    requires
        old(registry).wf(),
    ensures
        final(registry).wf(),
        final(registry).program() == old(registry).program(),
        match add_points_error(old(registry)@, ctx.authority, ctx.username@) {
            Some(e) => r == Err::<PointsAdded, ErrorCode>(e) && final(registry)@ == old(registry)@,
            None => {
                &&& final(registry)@ == add_points_apply(old(registry)@, ctx.username@, points_to_add)
                &&& r matches Ok(ev)
                &&& ev.username@ == ctx.username@
                &&& ev.points_added == points_to_add
                &&& ev.new_balance == points_of(final(registry)@, ctx.username@).unwrap().balance
                &&& ev.new_value_gorb == points_of(final(registry)@, ctx.username@).unwrap().value
            },
        },
{
    if let Err(e) = check_owner(registry, ctx.authority, &ctx.username) {
        return Err(e);
    }
    let balance = match registry.points(&ctx.username) {
        Some(p) => p.points_balance,
        None => {
            return Err(ErrorCode::NotFound);
        },
    };
    let new_balance = balance.saturating_add(points_to_add);
    let value = store_balance(registry, &ctx.username, new_balance);
    Ok(
        PointsAdded {
            username: ctx.username.clone(),
            points_added: points_to_add,
            new_balance,
            new_value_gorb: value,
        },
    )
}

/// The points that session `s` of `h` was opened for, or zero where there is no such session.
pub open spec fn session_cost(m: Map<Slot, Entry>, h: Seq<char>, s: Seq<char>) -> u32 {
    match session_of(m, h, s) {
        Some(x) => x.required_points,
        None => 0,
    }
}

/// The checks on a transfer request from the identity `sender_handle` to `to`,
/// before the recipient's target address is resolved.
pub open spec fn transfer_request_error(
    m: Map<Slot, Entry>,
    sender: Address,
    sender_handle: Seq<char>,
    to: Seq<char>,
    amount: u64,
) -> Option<ErrorCode> {
    if owner_error(m, sender, sender_handle) is Some {
        owner_error(m, sender, sender_handle)
    } else if !valid_handle(to) {
        Some(ErrorCode::InvalidHandle)
    } else if amount == 0 {
        Some(ErrorCode::InvalidTransferAmount)
    } else if profile_of(m, to) is None {
        Some(ErrorCode::NotFound)
    } else if profile_of(m, to).unwrap().username != to {
        Some(ErrorCode::UsernameMismatch)
    } else {
        None
    }
}

/// Why `transfer_by_username` fails, if it does.
pub open spec fn transfer_to_main_error(
    m: Map<Slot, Entry>,
    sender: Address,
    sender_handle: Seq<char>,
    to: Seq<char>,
    amount: u64,
    s: Seq<char>,
) -> Option<ErrorCode> {
    if transfer_request_error(m, sender, sender_handle, to, amount) is Some {
        transfer_request_error(m, sender, sender_handle, to, amount)
    } else {
        consume_error(m, sender, sender_handle, s, session_cost(m, sender_handle, s))
    }
}

/// The records after an authorized transfer: the sender's session consumed
/// and the points it was opened for deducted.
pub open spec fn transfer_apply(m: Map<Slot, Entry>, sender_handle: Seq<char>, s: Seq<char>) -> Map<
    Slot,
    Entry,
> {
    consume_apply(m, sender_handle, s, session_cost(m, sender_handle, s))
}

/// Authorizes a transfer of `amount` native units from the signer to the main
/// address of `to_username`, consuming the signer's session `session_id` in the
/// same step. The returned notification names the move that the host makes.
pub fn transfer_by_username(
    registry: &mut Registry,
    ctx: &TransferByUsername,
    to_username: String,
    amount: u64,
    memo: Option<String>,
    session_id: String,
) -> (r: Result<TokenTransferByUsername, ErrorCode>)
    requires
        old(registry).wf(),
    ensures
        final(registry).wf(),
        final(registry).program() == old(registry).program(),
        match transfer_to_main_error(
            old(registry)@,
            ctx.sender,
            ctx.sender_username@,
            to_username@,
            amount,
            session_id@,
        ) {
            Some(e) => r == Err::<TokenTransferByUsername, ErrorCode>(e) && final(registry)@ == old(
                registry,
            )@,
            None => {
                &&& final(registry)@ == transfer_apply(old(registry)@, ctx.sender_username@, session_id@)
                &&& r matches Ok(ev)
                &&& ev.sender == ctx.sender
                &&& ev.sender_username@ == ctx.sender_username@
                &&& ev.recipient == profile_of(old(registry)@, to_username@).unwrap().main_address
                &&& ev.recipient_username@ == to_username@
                &&& ev.amount == amount
                &&& encode_utf8(ev.memo@) == clip_bytes(opt_bytes(memo), MAX_MEMO as int)
                &&& ev.timestamp == ctx.now
                &&& ev.session_id@ == session_id@
            },
        },
{
    if let Err(e) = check_owner(registry, ctx.sender, &ctx.sender_username) {
        return Err(e);
    }
    if let Err(e) = validate_username(to_username.as_str()) {
        return Err(e);
    }
    if amount == 0 {
        return Err(ErrorCode::InvalidTransferAmount);
    }
    let recipient = match registry.profile(&to_username) {
        Some((_, p)) => {
            if p.username != to_username {
                return Err(ErrorCode::UsernameMismatch);
            }
            p.main_address
        },
        None => {
            return Err(ErrorCode::NotFound);
        },
    };
    let cost = match registry.session(&ctx.sender_username, &session_id) {
        Some(x) => x.required_points,
        None => 0,
    };
    if let Err(e) = consume_session(registry, ctx.sender, &ctx.sender_username, &session_id, cost) {
        return Err(e);
    }
    Ok(
        TokenTransferByUsername {
            sender: ctx.sender,
            sender_username: ctx.sender_username.clone(),
            recipient,
            recipient_username: to_username,
            amount,
            memo: clip_opt(memo, MAX_MEMO),
            timestamp: ctx.now,
            session_id,
        },
    )
}

/// Why `transfer_by_mapping` fails, if it does.
pub open spec fn transfer_to_mapping_error(
    m: Map<Slot, Entry>,
    sender: Address,
    sender_handle: Seq<char>,
    to: Seq<char>,
    t: Seq<char>,
    amount: u64,
    s: Seq<char>,
) -> Option<ErrorCode> {
    if owner_error(m, sender, sender_handle) is Some {
        owner_error(m, sender, sender_handle)
    } else if !valid_handle(to) {
        Some(ErrorCode::InvalidHandle)
    } else if !valid_mapping_type(t) {
        Some(ErrorCode::InvalidMappingType)
    } else if transfer_request_error(m, sender, sender_handle, to, amount) is Some {
        transfer_request_error(m, sender, sender_handle, to, amount)
    } else if mapping_of(m, to, t) is None {
        Some(ErrorCode::NotFound)
    } else if mapping_of(m, to, t).unwrap().profile != profile_of(m, to).unwrap().address
        || mapping_of(m, to, t).unwrap().address_type != t {
        Some(ErrorCode::MappingMismatch)
    } else {
        consume_error(m, sender, sender_handle, s, session_cost(m, sender_handle, s))
    }
}

/// Authorizes a transfer of `amount` native units from the signer to the
/// mapping `address_type@to_username`, consuming the signer's session
/// `session_id` in the same step. The mapping must belong to the recipient's
/// identity and carry the requested type.
pub fn transfer_by_mapping(
    registry: &mut Registry,
    ctx: &TransferByMapping,
    to_username: String,
    address_type: String,
    amount: u64,
    memo: Option<String>,
    session_id: String,
) -> (r: Result<TokenTransferByMapping, ErrorCode>)
    requires
        old(registry).wf(),
    ensures
        final(registry).wf(),
        final(registry).program() == old(registry).program(),
        match transfer_to_mapping_error(
            old(registry)@,
            ctx.sender,
            ctx.sender_username@,
            to_username@,
            address_type@,
            amount,
            session_id@,
        ) {
            Some(e) => r == Err::<TokenTransferByMapping, ErrorCode>(e) && final(registry)@ == old(
                registry,
            )@,
            None => {
                &&& final(registry)@ == transfer_apply(old(registry)@, ctx.sender_username@, session_id@)
                &&& r matches Ok(ev)
                &&& ev.sender == ctx.sender
                &&& ev.sender_username@ == ctx.sender_username@
                &&& ev.recipient == mapping_of(old(registry)@, to_username@, address_type@).unwrap().target
                &&& ev.recipient_username@ == to_username@
                &&& ev.address_type@ == address_type@
                &&& ev.amount == amount
                &&& encode_utf8(ev.memo@) == clip_bytes(opt_bytes(memo), MAX_MEMO as int)
                &&& ev.timestamp == ctx.now
                &&& ev.session_id@ == session_id@
            },
        },
{
    if let Err(e) = check_owner(registry, ctx.sender, &ctx.sender_username) {
        return Err(e);
    }
    if let Err(e) = validate_username(to_username.as_str()) {
        return Err(e);
    }
    if let Err(e) = validate_addr_type(address_type.as_str()) {
        return Err(e);
    }
    if amount == 0 {
        return Err(ErrorCode::InvalidTransferAmount);
    }
    let recipient_profile = match registry.profile(&to_username) {
        Some((a, p)) => {
            if p.username != to_username {
                return Err(ErrorCode::UsernameMismatch);
            }
            a
        },
        None => {
            return Err(ErrorCode::NotFound);
        },
    };
    let recipient = match registry.mapping(&to_username, &address_type) {
        Some(m) => {
            proof {
                lemma_address_bytes_eq(m.profile, recipient_profile);
            }
            if m.profile != recipient_profile || m.address_type != address_type {
                return Err(ErrorCode::MappingMismatch);
            }
            m.target
        },
        None => {
            return Err(ErrorCode::NotFound);
        },
    };
    let cost = match registry.session(&ctx.sender_username, &session_id) {
        Some(x) => x.required_points,
        None => 0,
    };
    if let Err(e) = consume_session(registry, ctx.sender, &ctx.sender_username, &session_id, cost) {
        return Err(e);
    }
    Ok(
        TokenTransferByMapping {
            sender: ctx.sender,
            sender_username: ctx.sender_username.clone(),
            recipient,
            recipient_username: to_username,
            address_type,
            amount,
            memo: clip_opt(memo, MAX_MEMO),
            timestamp: ctx.now,
            session_id,
        },
    )
}

/// Stores a record that is neither a ledger nor a new identity.
fn store_record(registry: &mut Registry, rec: Record)
    requires
        old(registry).wf(),
        !(rec@ is Points),
        rec@ is Profile ==> old(registry)@.contains_key(rec@.slot()),
    ensures
        final(registry).wf(),
        final(registry)@ == old(registry)@.insert(rec@.slot(), rec@),
        final(registry).program() == old(registry).program(),
{
    let ghost m0 = registry@;
    let ghost k0 = rec@.slot();
    registry.put(rec);
    proof {
        let m1 = registry@;
        assert forall|k: Slot| #[trigger] m1.contains_key(k) implies m1[k].slot() == k by {
            if k != k0 {
                assert(m0.contains_key(k));
            }
        }
        assert forall|g: Seq<char>| #[trigger]
            m1.contains_key(Slot::Points(g)) implies points_value_consistent(m1[Slot::Points(g)]) by {
            assert(m0.contains_key(Slot::Points(g)));
        }
        assert forall|g: Seq<char>| #[trigger]
            m1.contains_key(Slot::Profile(g)) <==> m1.contains_key(Slot::Points(g)) by {
            assert(m1.contains_key(Slot::Profile(g)) == m0.contains_key(Slot::Profile(g)));
            assert(m1.contains_key(Slot::Points(g)) == m0.contains_key(Slot::Points(g)));
        }
    }
}

/// The model with the identity of `h` replaced by `p`.
pub open spec fn with_profile(m: Map<Slot, Entry>, h: Seq<char>, p: ProfileModel) -> Map<Slot, Entry> {
    m.insert(Slot::Profile(h), Entry::Profile(p))
}

/// Why `set_address_mapping` fails, if it does.
pub open spec fn set_mapping_error(m: Map<Slot, Entry>, caller: Address, h: Seq<char>, t: Seq<char>) -> Option<
    ErrorCode,
> {
    if owner_error(m, caller, h) is Some {
        owner_error(m, caller, h)
    } else if !valid_mapping_type(t) {
        Some(ErrorCode::InvalidMappingType)
    } else {
        None
    }
}

/// The records after a successful `set_address_mapping`.
pub open spec fn set_mapping_apply(
    m: Map<Slot, Entry>,
    h: Seq<char>,
    t: Seq<char>,
    target: Address,
    tag: u8,
) -> Map<Slot, Entry> {
    m.insert(
        Slot::Mapping(h, t),
        Entry::Mapping(
            MappingModel {
                owner: h,
                profile: profile_of(m, h).unwrap().address,
                address_type: t,
                target,
                extra_tag: tag,
            },
        ),
    )
}

/// Creates or overwrites the mapping `address_type@handle` of the signer's
/// identity, pointing it at `target`.
pub fn set_address_mapping(
    registry: &mut Registry,
    ctx: &SetMapping,
    address_type: String,
    target: Address,
    type_hint: u8,
) -> (r: Result<MappingSet, ErrorCode>)
    requires
        old(registry).wf(),
    ensures
        final(registry).wf(),
        final(registry).program() == old(registry).program(),
        match set_mapping_error(old(registry)@, ctx.authority, ctx.username@, address_type@) {
            Some(e) => r == Err::<MappingSet, ErrorCode>(e) && final(registry)@ == old(registry)@,
            None => {
                &&& final(registry)@ == set_mapping_apply(
                    old(registry)@,
                    ctx.username@,
                    address_type@,
                    target,
                    type_hint,
                )
                &&& r matches Ok(ev)
                &&& ev.profile.bytes@ == profile_of(old(registry)@, ctx.username@).unwrap().address
                &&& ev.address_type@ == address_type@
                &&& ev.target == target
                &&& ev.tag == type_hint
            },
        },
{
    let profile = match check_owner(registry, ctx.authority, &ctx.username) {
        Err(e) => {
            return Err(e);
        },
        Ok((a, _)) => a,
    };
    if let Err(e) = validate_addr_type(address_type.as_str()) {
        return Err(e);
    }
    let mapping = AddressMapping {
        profile,
        address_type: address_type.clone(),
        target,
        extra_tag: type_hint,
    };
    store_record(registry, Record::Mapping { owner: ctx.username.clone(), mapping });
    Ok(MappingSet { profile, address_type, target, tag: type_hint })
}

/// Why `get_address_mapping` fails, if it does.
pub open spec fn get_mapping_error(m: Map<Slot, Entry>, h: Seq<char>, t: Seq<char>) -> Option<ErrorCode> {
    if profile_of(m, h) is None || mapping_of(m, h, t) is None {
        Some(ErrorCode::NotFound)
    } else {
        None
    }
}

/// Resolves the mapping `address_type@username`.
pub fn get_address_mapping(registry: &Registry, ctx: &GetMapping) -> (r: Result<MappingFetched, ErrorCode>)
    requires
        registry.wf(),
    ensures
        match get_mapping_error(registry@, ctx.username@, ctx.address_type@) {
            Some(e) => r == Err::<MappingFetched, ErrorCode>(e),
            None => {
                let x = mapping_of(registry@, ctx.username@, ctx.address_type@).unwrap();
                &&& r matches Ok(ev)
                &&& ev.profile.bytes@ == x.profile
                &&& ev.address_type@ == x.address_type
                &&& ev.target == x.target
                &&& ev.tag == x.extra_tag
            },
        },
{
    if registry.profile(&ctx.username).is_none() {
        return Err(ErrorCode::NotFound);
    }
    match registry.mapping(&ctx.username, &ctx.address_type) {
        None => Err(ErrorCode::NotFound),
        Some(m) => Ok(
            MappingFetched {
                profile: m.profile,
                address_type: m.address_type.clone(),
                target: m.target,
                tag: m.extra_tag,
            },
        ),
    }
}

/// Why `clear_address_mapping` fails, if it does.
pub open spec fn clear_mapping_error(m: Map<Slot, Entry>, caller: Address, h: Seq<char>, t: Seq<char>) -> Option<
    ErrorCode,
> {
    if owner_error(m, caller, h) is Some {
        owner_error(m, caller, h)
    } else if mapping_of(m, h, t) is None {
        Some(ErrorCode::NotFound)
    } else {
        None
    }
}

/// Removes the mapping `address_type@username` of the signer's identity.
pub fn clear_address_mapping(registry: &mut Registry, ctx: &ClearMapping) -> (r: Result<
    MappingCleared,
    ErrorCode,
>)
    requires
        old(registry).wf(),
    ensures
        final(registry).wf(),
        final(registry).program() == old(registry).program(),
        match clear_mapping_error(old(registry)@, ctx.authority, ctx.username@, ctx.address_type@) {
            Some(e) => r == Err::<MappingCleared, ErrorCode>(e) && final(registry)@ == old(registry)@,
            None => {
                &&& final(registry)@ == old(registry)@.remove(
                    Slot::Mapping(ctx.username@, ctx.address_type@),
                )
                &&& r matches Ok(ev)
                &&& ev.profile.bytes@ == profile_of(old(registry)@, ctx.username@).unwrap().address
                &&& ev.address_type@ == ctx.address_type@
            },
        },
{
    let profile = match check_owner(registry, ctx.authority, &ctx.username) {
        Err(e) => {
            return Err(e);
        },
        Ok((a, _)) => a,
    };
    if registry.mapping(&ctx.username, &ctx.address_type).is_none() {
        return Err(ErrorCode::NotFound);
    }
    let ghost m0 = registry@;
    registry.delete(&Probe::Mapping(&ctx.username, &ctx.address_type));
    proof {
        let m1 = registry@;
        let k0 = Slot::Mapping(ctx.username@, ctx.address_type@);
        assert forall|k: Slot| #[trigger] m1.contains_key(k) implies m1[k].slot() == k by {
            assert(m0.contains_key(k));
        }
        assert forall|g: Seq<char>| #[trigger]
            m1.contains_key(Slot::Points(g)) implies points_value_consistent(m1[Slot::Points(g)]) by {
            assert(m0.contains_key(Slot::Points(g)));
        }
        assert forall|g: Seq<char>| #[trigger]
            m1.contains_key(Slot::Profile(g)) <==> m1.contains_key(Slot::Points(g)) by {
            assert(m1.contains_key(Slot::Profile(g)) == m0.contains_key(Slot::Profile(g)));
            assert(m1.contains_key(Slot::Points(g)) == m0.contains_key(Slot::Points(g)));
        }
    }
    Ok(MappingCleared { profile, address_type: ctx.address_type.clone() })
}

/// Replaces the bio, avatar and social fields of the signer's identity, each
/// cut to its bound.
pub fn set_profile_details(
    registry: &mut Registry,
    ctx: &EditProfile,
    bio: Option<String>,
    avatar: Option<String>,
    twitter: Option<String>,
    discord: Option<String>,
    website: Option<String>,
) -> (r: Result<ProfileUpdated, ErrorCode>)
    requires
        old(registry).wf(),
    ensures
        final(registry).wf(),
        final(registry).program() == old(registry).program(),
        match owner_error(old(registry)@, ctx.authority, ctx.username@) {
            Some(e) => r == Err::<ProfileUpdated, ErrorCode>(e) && final(registry)@ == old(registry)@,
            None => {
                let p = profile_of(old(registry)@, ctx.username@).unwrap();
                &&& final(registry)@ == with_profile(
                    old(registry)@,
                    ctx.username@,
                    ProfileModel {
                        bio: clip_bytes(opt_bytes(bio), MAX_BIO as int),
                        avatar: clip_bytes(opt_bytes(avatar), MAX_AVATAR as int),
                        twitter: clip_bytes(opt_bytes(twitter), MAX_HANDLE as int),
                        discord: clip_bytes(opt_bytes(discord), MAX_HANDLE as int),
                        website: clip_bytes(opt_bytes(website), MAX_SITE as int),
                        ..p
                    },
                )
                &&& r matches Ok(ev)
                &&& ev.profile.bytes@ == p.address
                &&& ev.authority == p.authority
            },
        },
{
    let (address, mut p) = match check_owner(registry, ctx.authority, &ctx.username) {
        Err(e) => {
            return Err(e);
        },
        Ok((a, p)) => (a, p.duplicate()),
    };
    p.bio = clip_opt(bio, MAX_BIO);
    p.avatar = clip_opt(avatar, MAX_AVATAR);
    p.twitter = clip_opt(twitter, MAX_HANDLE);
    p.discord = clip_opt(discord, MAX_HANDLE);
    p.website = clip_opt(website, MAX_SITE);
    let authority = p.authority;
    store_record(registry, Record::Profile { address, profile: p });
    Ok(ProfileUpdated { profile: address, authority })
}

/// Points the signer's identity at a new main address, and registers the
/// reverse lookup of that address. The lookup of the previous main address
/// stays in place.
pub fn set_main_address(registry: &mut Registry, ctx: &SetMainAddress, new_main: Address) -> (r:
    Result<MainAddressChanged, ErrorCode>)
    requires
        old(registry).wf(),
    ensures
        final(registry).wf(),
        final(registry).program() == old(registry).program(),
        match owner_error(old(registry)@, ctx.authority, ctx.username@) {
            Some(e) => r == Err::<MainAddressChanged, ErrorCode>(e) && final(registry)@ == old(
                registry,
            )@,
            None => {
                let p = profile_of(old(registry)@, ctx.username@).unwrap();
                &&& final(registry)@ == with_profile(
                    old(registry)@,
                    ctx.username@,
                    ProfileModel { main_address: new_main, ..p },
                ).insert(Slot::Reverse(new_main), Entry::Reverse(new_main, ctx.username@))
                &&& r matches Ok(ev)
                &&& ev.profile.bytes@ == p.address
                &&& ev.new_main == new_main
            },
        },
{
    let (address, mut p) = match check_owner(registry, ctx.authority, &ctx.username) {
        Err(e) => {
            return Err(e);
        },
        Ok((a, p)) => (a, p.duplicate()),
    };
    p.main_address = new_main;
    let username = p.username.clone();
    store_record(registry, Record::Profile { address, profile: p });
    store_record(registry, Record::Reverse { address: new_main, lookup: ReverseLookup { username } });
    Ok(MainAddressChanged { profile: address, new_main })
}

/// Hands the signer's identity over to `new_authority`, with immediate effect.
pub fn set_authority(registry: &mut Registry, ctx: &TransferAuthority, new_authority: Address) -> (r:
    Result<AuthorityChanged, ErrorCode>)
    requires
        old(registry).wf(),
    ensures
        final(registry).wf(),
        final(registry).program() == old(registry).program(),
        match owner_error(old(registry)@, ctx.authority, ctx.username@) {
            Some(e) => r == Err::<AuthorityChanged, ErrorCode>(e) && final(registry)@ == old(
                registry,
            )@,
            None => {
                let p = profile_of(old(registry)@, ctx.username@).unwrap();
                &&& final(registry)@ == with_profile(
                    old(registry)@,
                    ctx.username@,
                    ProfileModel { authority: new_authority, ..p },
                )
                &&& r matches Ok(ev)
                &&& ev.profile.bytes@ == p.address
                &&& ev.new_authority == new_authority
            },
        },
{
    let (address, mut p) = match check_owner(registry, ctx.authority, &ctx.username) {
        Err(e) => {
            return Err(e);
        },
        Ok((a, p)) => (a, p.duplicate()),
    };
    p.authority = new_authority;
    store_record(registry, Record::Profile { address, profile: p });
    Ok(AuthorityChanged { profile: address, new_authority })
}

/// Why `get_points_balance` fails, if it does.
pub open spec fn balance_error(m: Map<Slot, Entry>, h: Seq<char>) -> Option<ErrorCode> {
    if profile_of(m, h) is None || points_of(m, h) is None {
        Some(ErrorCode::NotFound)
    } else if points_of(m, h).unwrap().username != h {
        Some(ErrorCode::UsernameMismatch)
    } else {
        None
    }
}

/// Reads the points balance of `username` and its value; anyone may ask.
pub fn get_points_balance(registry: &Registry, ctx: &GetPointsBalance, username: String) -> (r: Result<
    PointsBalanceRequested,
    ErrorCode,
>)
    requires
        registry.wf(),
    ensures
        match balance_error(registry@, username@) {
            Some(e) => r == Err::<PointsBalanceRequested, ErrorCode>(e),
            None => {
                let p = points_of(registry@, username@).unwrap();
                &&& r matches Ok(ev)
                &&& ev.username@ == username@
                &&& ev.points_balance == p.balance
                &&& ev.points_value_gorb == p.value
                &&& ev.requester == ctx.requester
                &&& ev.timestamp == ctx.now
            },
        },
{
    if registry.profile(&username).is_none() {
        return Err(ErrorCode::NotFound);
    }
    let (balance, value) = match registry.points(&username) {
        None => {
            return Err(ErrorCode::NotFound);
        },
        Some(p) => {
            if p.username != username {
                return Err(ErrorCode::UsernameMismatch);
            }
            (p.points_balance, p.points_value_gorb)
        },
    };
    Ok(
        PointsBalanceRequested {
            username,
            points_balance: balance,
            points_value_gorb: value,
            requester: ctx.requester,
            timestamp: ctx.now,
        },
    )
}

/// Why `get_transfer_history` fails, if it does.
pub open spec fn history_error(m: Map<Slot, Entry>, h: Seq<char>) -> Option<ErrorCode> {
    if !valid_handle(h) {
        Some(ErrorCode::InvalidHandle)
    } else if profile_of(m, h) is None {
        Some(ErrorCode::NotFound)
    } else if profile_of(m, h).unwrap().username != h {
        Some(ErrorCode::UsernameMismatch)
    } else {
        None
    }
}

/// Asks for the recent transfers of `username`, at most 50 of them.
pub fn get_transfer_history(
    registry: &Registry,
    ctx: &GetTransferHistory,
    username: String,
    limit: u8,
) -> (r: Result<TransferHistoryRequested, ErrorCode>)
    requires
        registry.wf(),
    ensures
        match history_error(registry@, username@) {
            Some(e) => r == Err::<TransferHistoryRequested, ErrorCode>(e),
            None => {
                &&& r matches Ok(ev)
                &&& ev.profile.bytes@ == profile_of(registry@, username@).unwrap().address
                &&& ev.username@ == username@
                &&& ev.requester == ctx.requester
                &&& ev.limit == if limit < MAX_TRANSFER_HISTORY_LIMIT {
                    limit
                } else {
                    MAX_TRANSFER_HISTORY_LIMIT
                }
                &&& ev.timestamp == ctx.now
            },
        },
{
    if let Err(e) = validate_username(username.as_str()) {
        return Err(e);
    }
    let profile = match registry.profile(&username) {
        None => {
            return Err(ErrorCode::NotFound);
        },
        Some((a, p)) => {
            if p.username != username {
                return Err(ErrorCode::UsernameMismatch);
            }
            a
        },
    };
    let capped = if limit < MAX_TRANSFER_HISTORY_LIMIT {
        limit
    } else {
        MAX_TRANSFER_HISTORY_LIMIT
    };
    Ok(
        TransferHistoryRequested {
            profile,
            username,
            requester: ctx.requester,
            limit: capped,
            timestamp: ctx.now,
        },
    )
}

} // verus!
