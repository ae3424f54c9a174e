//! Properties of the registry that span several operations, proved over the
//! models that the operations' contracts are stated in.

use vstd::prelude::*;
use crate::address::Address;
use crate::error::ErrorCode;
use crate::profiles::{
    add_points_apply, add_points_error, clear_mapping_error, consume_apply, consume_error,
    create_profile_apply, create_profile_error, create_session_apply, create_session_error,
    get_mapping_error, owner_error, set_mapping_apply, set_mapping_error, transfer_apply,
    transfer_to_main_error, value_of,
};
use crate::registry::{mapping_of, model_wf, points_of, profile_of, session_of};
use crate::state::{Entry, Slot, INITIAL_POINTS, POINT_VALUE_GORB};
use crate::validate::valid_handle;

verus! {

/// Creating an identity for a valid handle, where the creation succeeds,
/// leaves an identity under that handle whose main address and authority are
/// the creator, and a ledger holding the initial balance.
pub proof fn lemma_create_then_resolve(
    m: Map<Slot, Entry>,
    program: Address,
    authority: Address,
    h: Seq<char>,
    bio: Option<String>,
    avatar: Option<String>,
    twitter: Option<String>,
    discord: Option<String>,
    website: Option<String>,
)
    requires
        model_wf(m),
        valid_handle(h),
        create_profile_error(m, program, authority, h) is None,
    ensures
        ({
            let m1 = create_profile_apply(m, program, authority, h, bio, avatar, twitter, discord, website);
            &&& profile_of(m1, h) is Some
            &&& profile_of(m1, h).unwrap().username == h
            &&& profile_of(m1, h).unwrap().main_address == authority
            &&& profile_of(m1, h).unwrap().authority == authority
            &&& points_of(m1, h) is Some
            &&& points_of(m1, h).unwrap().balance == INITIAL_POINTS
        }),
{
}

/// A second creation under the same handle fails with `AlreadyExists`,
/// whoever asks; a failed creation changes no record.
pub proof fn lemma_create_twice_fails(
    m: Map<Slot, Entry>,
    program: Address,
    first: Address,
    second: Address,
    h: Seq<char>,
    bio: Option<String>,
    avatar: Option<String>,
    twitter: Option<String>,
    discord: Option<String>,
    website: Option<String>,
)
    requires
        model_wf(m),
        create_profile_error(m, program, first, h) is None,
    ensures
        create_profile_error(
            create_profile_apply(m, program, first, h, bio, avatar, twitter, discord, website),
            program,
            second,
            h,
        ) == Some(ErrorCode::AlreadyExists),
{
}

/// A session created for `required` points can be consumed once for at most
/// that many points; every later attempt fails with `SessionExpired`.
pub proof fn lemma_session_consumed_once(
    m: Map<Slot, Entry>,
    caller: Address,
    h: Seq<char>,
    s: Seq<char>,
    required: u32,
    now: i64,
    n: u32,
    later: u32,
)
    requires
        model_wf(m),
        create_session_error(m, caller, h, s, required) is None,
        n <= required,
    ensures
        ({
            let m1 = create_session_apply(m, h, s, required, now);
            &&& consume_error(m1, caller, h, s, n) is None
            &&& consume_error(consume_apply(m1, h, s, n), caller, h, s, later) == Some(
                ErrorCode::SessionExpired,
            )
        }),
{
    let m1 = create_session_apply(m, h, s, required, now);
    assert(m.contains_key(Slot::Points(h)));
    assert(points_of(m1, h) == points_of(m, h));
    assert(m.contains_key(Slot::Profile(h)));
    assert(profile_of(m1, h) == profile_of(m, h));
    let m2 = consume_apply(m1, h, s, n);
    assert(profile_of(m2, h) == profile_of(m, h));
    assert(m[Slot::Points(h)].slot() == Slot::Points(h));
}

/// Consuming a session never takes more points than the balance holds: it
/// succeeds only when the balance covers the deduction, and lowers the
/// balance by exactly that much; an active session of an owner whose balance
/// is short fails with `InsufficientPoints`.
pub proof fn lemma_points_never_negative(
    m: Map<Slot, Entry>,
    caller: Address,
    h: Seq<char>,
    s: Seq<char>,
    n: u32,
)
    requires
        model_wf(m),
    ensures
        consume_error(m, caller, h, s, n) is None ==> {
            &&& n <= points_of(m, h).unwrap().balance
            &&& points_of(consume_apply(m, h, s, n), h).unwrap().balance == points_of(m, h).unwrap().balance
                - n
        },
        ({
            &&& owner_error(m, caller, h) is None
            &&& points_of(m, h) is Some
            &&& session_of(m, h, s) is Some
            &&& session_of(m, h, s).unwrap().is_active
            &&& points_of(m, h).unwrap().balance < n
        }) ==> consume_error(m, caller, h, s, n) == Some(ErrorCode::InsufficientPoints),
{
    if points_of(m, h) is Some && session_of(m, h, s) is Some {
        assert(m[Slot::Points(h)].slot() == Slot::Points(h));
        assert(m[Slot::Session(h, s)].slot() == Slot::Session(h, s));
    }
}

/// Credits saturate: two credits raise the balance to the sum, stopping at
/// `u32::MAX`, and the value stays the balance times the value of a point.
pub proof fn lemma_credit_saturates(m: Map<Slot, Entry>, caller: Address, h: Seq<char>, x: u32, y: u32)
    requires
        model_wf(m),
        add_points_error(m, caller, h) is None,
    ensures
        ({
            let m1 = add_points_apply(m, h, x);
            let m2 = add_points_apply(m1, h, y);
            let b = points_of(m, h).unwrap().balance as int;
            let total = if b + x + y > u32::MAX {
                u32::MAX as int
            } else {
                b + x + y
            };
            &&& add_points_error(m1, caller, h) is None
            &&& points_of(m2, h).unwrap().balance == total
            &&& points_of(m2, h).unwrap().value as int == total * POINT_VALUE_GORB as int
        }),
{
    let m1 = add_points_apply(m, h, x);
    assert(profile_of(m1, h) == profile_of(m, h));
    let b2 = points_of(m1, h).unwrap().balance.saturating_add(y);
    assert(b2 as int * 50000 <= 4294967295 * 50000) by (nonlinear_arith)
        requires
            b2 <= 4294967295,
    ;
    assert(value_of(b2) as int == b2 as int * POINT_VALUE_GORB as int);
}

/// A mapping that was set resolves to its target; once cleared it resolves
/// to `NotFound`.
pub proof fn lemma_mapping_round_trip(
    m: Map<Slot, Entry>,
    caller: Address,
    h: Seq<char>,
    t: Seq<char>,
    target: Address,
    tag: u8,
)
    requires
        model_wf(m),
        set_mapping_error(m, caller, h, t) is None,
    ensures
        ({
            let m1 = set_mapping_apply(m, h, t, target, tag);
            &&& get_mapping_error(m1, h, t) is None
            &&& mapping_of(m1, h, t).unwrap().target == target
            &&& clear_mapping_error(m1, caller, h, t) is None
            &&& get_mapping_error(m1.remove(Slot::Mapping(h, t)), h, t) == Some(ErrorCode::NotFound)
        }),
{
    let m1 = set_mapping_apply(m, h, t, target, tag);
    assert(profile_of(m1, h) == profile_of(m, h));
}

/// A transfer to an existing handle, paid for with a fresh session, is
/// authorized: it deducts the session's points, goes to the recipient's main
/// address, and cannot be repeated with the same session, which then fails
/// with `SessionExpired`.
pub proof fn lemma_transfer_end_to_end(
    m: Map<Slot, Entry>,
    sender: Address,
    from: Seq<char>,
    to: Seq<char>,
    amount: u64,
    s: Seq<char>,
    required: u32,
    now: i64,
)
    requires
        model_wf(m),
        create_session_error(m, sender, from, s, required) is None,
        valid_handle(to),
        profile_of(m, to) is Some,
        amount > 0,
    ensures
        ({
            let m1 = create_session_apply(m, from, s, required, now);
            let m2 = transfer_apply(m1, from, s);
            &&& transfer_to_main_error(m1, sender, from, to, amount, s) is None
            &&& points_of(m2, from).unwrap().balance == points_of(m, from).unwrap().balance - required
            &&& profile_of(m1, to).unwrap().main_address == profile_of(m, to).unwrap().main_address
            &&& transfer_to_main_error(m2, sender, from, to, amount, s) == Some(
                ErrorCode::SessionExpired,
            )
        }),
{
    let m1 = create_session_apply(m, from, s, required, now);
    assert(m.contains_key(Slot::Points(from)));
    assert(m[Slot::Profile(to)].slot() == Slot::Profile(to));
    assert(profile_of(m1, to) == profile_of(m, to));
    assert(profile_of(m1, from) == profile_of(m, from));
    assert(points_of(m1, from) == points_of(m, from));
    let m2 = transfer_apply(m1, from, s);
    assert(profile_of(m2, to) == profile_of(m, to));
    assert(profile_of(m2, from) == profile_of(m, from));
    assert(m[Slot::Points(from)].slot() == Slot::Points(from));
}

} // verus!
