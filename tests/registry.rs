use profiles::accounts::{
    AddPoints, ClearMapping, CreateAuthSession, CreateProfile, EditProfile, GetMapping,
    GetPointsBalance, GetTransferHistory, SetMainAddress, SetMapping, TransferAuthority,
    TransferByMapping, TransferByUsername, ValidateAndDeductPoints,
};
use profiles::address::Address;
use profiles::error::ErrorCode;
use profiles::profiles::{
    add_points, clear_address_mapping, create_auth_session, create_profile, get_address_mapping,
    get_points_balance, get_transfer_history, set_address_mapping, set_authority,
    set_main_address, set_profile_details, transfer_by_mapping, transfer_by_username,
    validate_and_deduct_points,
};
use profiles::registry::Registry;
use profiles::state::{INITIAL_POINTS, POINT_VALUE_GORB};
use profiles::validate::{clip_opt, validate_addr_type, validate_username};

fn addr(b: u8) -> Address {
    Address::new([b; 32])
}

fn program() -> Address {
    addr(200)
}

fn registry_with(handles: &[(&str, u8)]) -> Registry {
    let mut reg = Registry::new(program());
    for (h, a) in handles {
        create_profile(
            &mut reg,
            &CreateProfile { authority: addr(*a) },
            h.to_string(),
            None,
            None,
            None,
            None,
            None,
        )
        .unwrap();
    }
    reg
}

fn open_session(reg: &mut Registry, h: &str, a: u8, id: &str, required: u32) -> Result<(), ErrorCode> {
    create_auth_session(
        reg,
        &CreateAuthSession { authority: addr(a), username: h.to_string(), now: 1_700_000_000 },
        id.to_string(),
        required,
    )
    .map(|_| ())
}

fn consume(reg: &mut Registry, h: &str, a: u8, id: &str, n: u32) -> Result<u32, ErrorCode> {
    validate_and_deduct_points(
        reg,
        &ValidateAndDeductPoints { authority: addr(a), username: h.to_string() },
        id.to_string(),
        n,
    )
    .map(|ev| ev.remaining_points)
}

fn balance(reg: &Registry, h: &str) -> (u32, u64) {
    let p = reg.points(&h.to_string()).unwrap();
    (p.points_balance, p.points_value_gorb)
}

#[test]
fn create_then_resolve() {
    let mut reg = Registry::new(program());
    let (created, init) = create_profile(
        &mut reg,
        &CreateProfile { authority: addr(1) },
        "alice".to_string(),
        Some("hello".to_string()),
        None,
        None,
        None,
        None,
    )
    .unwrap();
    let (key, p) = reg.profile(&"alice".to_string()).unwrap();
    assert!(p.main_address == addr(1));
    assert!(p.authority == addr(1));
    assert_eq!(p.username, "alice");
    assert_eq!(p.bio, "hello");
    assert!(key == created.profile);
    assert_eq!(created.username, "alice");
    assert_eq!(init.initial_points, 100);
    assert_eq!(init.points_value_gorb, 5_000_000);
    assert_eq!(balance(&reg, "alice"), (100, 5_000_000));
    assert_eq!(reg.reverse_lookup(addr(1)).unwrap().username, "alice");
}

#[test]
fn derived_address_matches_program_derivation() {
    let reg = registry_with(&[("alice", 1)]);
    let (key, p) = reg.profile(&"alice".to_string()).unwrap();
    let program_key = anchor_lang::prelude::Pubkey::new_from_array(program().bytes);
    let (expected, bump) =
        anchor_lang::prelude::Pubkey::find_program_address(&[b"profile", b"alice"], &program_key);
    assert_eq!(key.bytes, expected.to_bytes());
    assert_eq!(p.bump, bump);
    assert!(key != program());
}

#[test]
fn derived_address_differs_per_handle() {
    let reg = registry_with(&[("alice", 1), ("bob", 2)]);
    let (a, _) = reg.profile(&"alice".to_string()).unwrap();
    let (b, _) = reg.profile(&"bob".to_string()).unwrap();
    assert!(a != b);
}

#[test]
fn create_twice_fails() {
    let mut reg = registry_with(&[("alice", 1)]);
    let r = create_profile(
        &mut reg,
        &CreateProfile { authority: addr(2) },
        "alice".to_string(),
        Some("other".to_string()),
        None,
        None,
        None,
        None,
    );
    assert!(matches!(r, Err(ErrorCode::AlreadyExists)));
    let (_, p) = reg.profile(&"alice".to_string()).unwrap();
    assert!(p.authority == addr(1));
    assert_eq!(p.bio, "");
    assert!(reg.reverse_lookup(addr(2)).is_none());
    assert_eq!(balance(&reg, "alice"), (100, 5_000_000));
}

#[test]
fn same_authority_cannot_create_second_identity() {
    let mut reg = registry_with(&[("alice", 1)]);
    let r = create_profile(
        &mut reg,
        &CreateProfile { authority: addr(1) },
        "alice2".to_string(),
        None,
        None,
        None,
        None,
        None,
    );
    assert!(matches!(r, Err(ErrorCode::AlreadyExists)));
    assert!(reg.profile(&"alice2".to_string()).is_none());
    assert!(reg.points(&"alice2".to_string()).is_none());
}

#[test]
fn handle_validation() {
    let long = "a".repeat(33);
    for bad in ["Alice", "bob@x", "", long.as_str(), "bob bot", "caf\u{e9}"] {
        assert_eq!(validate_username(bad), Err(ErrorCode::InvalidHandle), "{bad:?}");
        let mut reg = Registry::new(program());
        let r = create_profile(
            &mut reg,
            &CreateProfile { authority: addr(1) },
            bad.to_string(),
            None,
            None,
            None,
            None,
            None,
        );
        assert!(matches!(r, Err(ErrorCode::InvalidHandle)));
        assert!(reg.reverse_lookup(addr(1)).is_none());
    }
    assert_eq!(validate_username("bob.bot-1"), Ok(()));
    assert_eq!(validate_username(&"z".repeat(32)), Ok(()));
    let reg = registry_with(&[("bob.bot-1", 1)]);
    assert!(reg.profile(&"bob.bot-1".to_string()).is_some());
}

#[test]
fn mapping_type_validation() {
    assert_eq!(validate_addr_type("wallet"), Ok(()));
    assert_eq!(validate_addr_type("custom-foo.1"), Ok(()));
    assert_eq!(validate_addr_type(&"n".repeat(16)), Ok(()));
    for bad in ["", "nft_1", "Wallet", "a@b"] {
        assert_eq!(validate_addr_type(bad), Err(ErrorCode::InvalidMappingType), "{bad:?}");
    }
    assert_eq!(validate_addr_type(&"n".repeat(17)), Err(ErrorCode::InvalidMappingType));
}

#[test]
fn session_exactly_once() {
    let mut reg = registry_with(&[("alice", 1)]);
    open_session(&mut reg, "alice", 1, "s1", 5).unwrap();
    assert_eq!(consume(&mut reg, "alice", 1, "s1", 5), Ok(95));
    assert_eq!(consume(&mut reg, "alice", 1, "s1", 5), Err(ErrorCode::SessionExpired));
    assert_eq!(balance(&reg, "alice"), (95, 95 * 50_000));
    assert!(!reg.session(&"alice".to_string(), &"s1".to_string()).unwrap().is_active);
}

#[test]
fn session_ids_are_independent() {
    let mut reg = registry_with(&[("alice", 1)]);
    open_session(&mut reg, "alice", 1, "s1", 1).unwrap();
    open_session(&mut reg, "alice", 1, "s2", 1).unwrap();
    assert_eq!(open_session(&mut reg, "alice", 1, "s1", 1), Err(ErrorCode::AlreadyExists));
    assert_eq!(consume(&mut reg, "alice", 1, "s1", 1), Ok(99));
    assert_eq!(consume(&mut reg, "alice", 1, "s2", 1), Ok(98));
}

#[test]
fn session_creation_checks() {
    let mut reg = registry_with(&[("alice", 1)]);
    assert_eq!(open_session(&mut reg, "alice", 2, "s1", 1), Err(ErrorCode::NotAuthorized));
    assert_eq!(open_session(&mut reg, "nobody", 1, "s1", 1), Err(ErrorCode::NotFound));
    assert_eq!(open_session(&mut reg, "alice", 1, "s1", 101), Err(ErrorCode::InsufficientPoints));
    let long = "x".repeat(65);
    assert_eq!(open_session(&mut reg, "alice", 1, &long, 1), Err(ErrorCode::InvalidSessionId));
    assert!(open_session(&mut reg, "alice", 1, &"x".repeat(64), 1).is_ok());
    let s = reg.session(&"alice".to_string(), &"x".repeat(64)).unwrap();
    assert!(s.is_active);
    assert_eq!(s.created_at, 1_700_000_000);
    assert_eq!(s.required_points, 1);
}

#[test]
fn consume_unknown_session_or_wrong_owner() {
    let mut reg = registry_with(&[("alice", 1)]);
    assert_eq!(consume(&mut reg, "alice", 1, "nope", 1), Err(ErrorCode::NotFound));
    open_session(&mut reg, "alice", 1, "s1", 1).unwrap();
    assert_eq!(consume(&mut reg, "alice", 9, "s1", 1), Err(ErrorCode::NotAuthorized));
    assert!(reg.session(&"alice".to_string(), &"s1".to_string()).unwrap().is_active);
}

#[test]
fn overdraw_refused() {
    let mut reg = registry_with(&[("alice", 1)]);
    open_session(&mut reg, "alice", 1, "s1", 0).unwrap();
    assert_eq!(consume(&mut reg, "alice", 1, "s1", 150), Err(ErrorCode::InsufficientPoints));
    assert_eq!(balance(&reg, "alice"), (100, 5_000_000));
    assert!(reg.session(&"alice".to_string(), &"s1".to_string()).unwrap().is_active);
    assert_eq!(consume(&mut reg, "alice", 1, "s1", 100), Ok(0));
}

#[test]
fn balance_rechecked_at_consumption() {
    let mut reg = registry_with(&[("alice", 1)]);
    open_session(&mut reg, "alice", 1, "a", 80).unwrap();
    open_session(&mut reg, "alice", 1, "b", 80).unwrap();
    assert_eq!(consume(&mut reg, "alice", 1, "a", 80), Ok(20));
    assert_eq!(consume(&mut reg, "alice", 1, "b", 80), Err(ErrorCode::InsufficientPoints));
}

#[test]
fn credit_saturation() {
    let mut reg = registry_with(&[("alice", 1)]);
    let ctx = AddPoints { authority: addr(1), username: "alice".to_string() };
    let ev = add_points(&mut reg, &ctx, u32::MAX).unwrap();
    assert_eq!(ev.new_balance, u32::MAX);
    let ev = add_points(&mut reg, &ctx, u32::MAX).unwrap();
    assert_eq!(ev.new_balance, u32::MAX);
    assert_eq!(ev.new_value_gorb, u32::MAX as u64 * 50_000);
    assert_eq!(balance(&reg, "alice"), (u32::MAX, 214_748_364_750_000));
}

#[test]
fn credit_adds_and_needs_owner() {
    let mut reg = registry_with(&[("alice", 1)]);
    let ev = add_points(&mut reg, &AddPoints { authority: addr(1), username: "alice".to_string() }, 25)
        .unwrap();
    assert_eq!(ev.new_balance, 125);
    assert_eq!(ev.new_value_gorb, 6_250_000);
    let r = add_points(&mut reg, &AddPoints { authority: addr(2), username: "alice".to_string() }, 5);
    assert!(matches!(r, Err(ErrorCode::NotAuthorized)));
    assert_eq!(balance(&reg, "alice"), (125, 6_250_000));
}

#[test]
fn mapping_round_trip() {
    let mut reg = registry_with(&[("alice", 1)]);
    let ctx = SetMapping { authority: addr(1), username: "alice".to_string() };
    set_address_mapping(&mut reg, &ctx, "wallet".to_string(), addr(42), 0).unwrap();
    let get = GetMapping { username: "alice".to_string(), address_type: "wallet".to_string() };
    let ev = get_address_mapping(&reg, &get).unwrap();
    assert!(ev.target == addr(42));
    assert_eq!(ev.address_type, "wallet");
    let (key, _) = reg.profile(&"alice".to_string()).unwrap();
    assert!(ev.profile == key);
    set_address_mapping(&mut reg, &ctx, "wallet".to_string(), addr(43), 1).unwrap();
    assert!(get_address_mapping(&reg, &get).unwrap().target == addr(43));
    let clear = ClearMapping {
        authority: addr(1),
        username: "alice".to_string(),
        address_type: "wallet".to_string(),
    };
    clear_address_mapping(&mut reg, &clear).unwrap();
    assert!(matches!(get_address_mapping(&reg, &get), Err(ErrorCode::NotFound)));
    assert!(matches!(clear_address_mapping(&mut reg, &clear), Err(ErrorCode::NotFound)));
}

#[test]
fn mapping_checks() {
    let mut reg = registry_with(&[("alice", 1)]);
    let r = set_address_mapping(
        &mut reg,
        &SetMapping { authority: addr(2), username: "alice".to_string() },
        "wallet".to_string(),
        addr(42),
        0,
    );
    assert!(matches!(r, Err(ErrorCode::NotAuthorized)));
    let r = set_address_mapping(
        &mut reg,
        &SetMapping { authority: addr(1), username: "alice".to_string() },
        "Wallet".to_string(),
        addr(42),
        0,
    );
    assert!(matches!(r, Err(ErrorCode::InvalidMappingType)));
    assert!(reg.mapping(&"alice".to_string(), &"Wallet".to_string()).is_none());
}

#[test]
fn transfer_end_to_end() {
    let mut reg = registry_with(&[("alice", 1), ("bob", 2)]);
    open_session(&mut reg, "alice", 1, "tx1", 1).unwrap();
    let ctx = TransferByUsername { sender: addr(1), sender_username: "alice".to_string(), now: 7 };
    let ev = transfer_by_username(
        &mut reg,
        &ctx,
        "bob".to_string(),
        1000,
        Some("lunch".to_string()),
        "tx1".to_string(),
    )
    .unwrap();
    assert!(ev.sender == addr(1));
    assert!(ev.recipient == addr(2));
    assert_eq!(ev.amount, 1000);
    assert_eq!(ev.memo, "lunch");
    assert_eq!(ev.recipient_username, "bob");
    assert_eq!(ev.timestamp, 7);
    assert_eq!(balance(&reg, "alice"), (99, 99 * 50_000));
    let again = transfer_by_username(&mut reg, &ctx, "bob".to_string(), 1000, None, "tx1".to_string());
    assert!(matches!(again, Err(ErrorCode::SessionExpired)));
    assert_eq!(balance(&reg, "alice"), (99, 99 * 50_000));
}

#[test]
fn transfer_follows_main_address() {
    let mut reg = registry_with(&[("alice", 1), ("bob", 2)]);
    set_main_address(
        &mut reg,
        &SetMainAddress { authority: addr(2), username: "bob".to_string() },
        addr(77),
    )
    .unwrap();
    open_session(&mut reg, "alice", 1, "tx", 1).unwrap();
    let ctx = TransferByUsername { sender: addr(1), sender_username: "alice".to_string(), now: 0 };
    let ev = transfer_by_username(&mut reg, &ctx, "bob".to_string(), 5, None, "tx".to_string()).unwrap();
    assert!(ev.recipient == addr(77));
    assert_eq!(ev.memo, "");
}

#[test]
fn transfer_checks() {
    let mut reg = registry_with(&[("alice", 1), ("bob", 2)]);
    open_session(&mut reg, "alice", 1, "tx", 1).unwrap();
    let ctx = TransferByUsername { sender: addr(1), sender_username: "alice".to_string(), now: 0 };
    let thief = TransferByUsername { sender: addr(9), sender_username: "alice".to_string(), now: 0 };
    let send = |reg: &mut Registry, c: &TransferByUsername, to: &str, amount: u64, s: &str| {
        transfer_by_username(reg, c, to.to_string(), amount, None, s.to_string()).map(|_| ())
    };
    assert_eq!(send(&mut reg, &thief, "bob", 1, "tx"), Err(ErrorCode::NotAuthorized));
    assert_eq!(send(&mut reg, &ctx, "Bob", 1, "tx"), Err(ErrorCode::InvalidHandle));
    assert_eq!(send(&mut reg, &ctx, "bob", 0, "tx"), Err(ErrorCode::InvalidTransferAmount));
    assert_eq!(send(&mut reg, &ctx, "carol", 1, "tx"), Err(ErrorCode::NotFound));
    assert_eq!(send(&mut reg, &ctx, "bob", 1, "other"), Err(ErrorCode::NotFound));
    assert_eq!(balance(&reg, "alice"), (100, 5_000_000));
    assert_eq!(send(&mut reg, &ctx, "bob", 1, "tx"), Ok(()));
}

#[test]
fn transfer_memo_is_clipped() {
    let mut reg = registry_with(&[("alice", 1), ("bob", 2)]);
    open_session(&mut reg, "alice", 1, "tx", 1).unwrap();
    let ctx = TransferByUsername { sender: addr(1), sender_username: "alice".to_string(), now: 0 };
    let memo = "m".repeat(150);
    let ev = transfer_by_username(&mut reg, &ctx, "bob".to_string(), 3, Some(memo), "tx".to_string())
        .unwrap();
    assert_eq!(ev.memo, "m".repeat(100));
}

#[test]
fn transfer_by_mapping_end_to_end() {
    let mut reg = registry_with(&[("alice", 1), ("bob", 2)]);
    set_address_mapping(
        &mut reg,
        &SetMapping { authority: addr(2), username: "bob".to_string() },
        "donation".to_string(),
        addr(55),
        4,
    )
    .unwrap();
    open_session(&mut reg, "alice", 1, "tx", 3).unwrap();
    let ctx = TransferByMapping { sender: addr(1), sender_username: "alice".to_string(), now: 9 };
    let missing = transfer_by_mapping(
        &mut reg,
        &ctx,
        "bob".to_string(),
        "wallet".to_string(),
        10,
        None,
        "tx".to_string(),
    );
    assert!(matches!(missing, Err(ErrorCode::NotFound)));
    let bad_type = transfer_by_mapping(
        &mut reg,
        &ctx,
        "bob".to_string(),
        "don_ation".to_string(),
        10,
        None,
        "tx".to_string(),
    );
    assert!(matches!(bad_type, Err(ErrorCode::InvalidMappingType)));
    let ev = transfer_by_mapping(
        &mut reg,
        &ctx,
        "bob".to_string(),
        "donation".to_string(),
        10,
        None,
        "tx".to_string(),
    )
    .unwrap();
    assert!(ev.recipient == addr(55));
    assert_eq!(ev.address_type, "donation");
    assert_eq!(ev.amount, 10);
    assert_eq!(balance(&reg, "alice"), (97, 97 * 50_000));
    let again = transfer_by_mapping(
        &mut reg,
        &ctx,
        "bob".to_string(),
        "donation".to_string(),
        10,
        None,
        "tx".to_string(),
    );
    assert!(matches!(again, Err(ErrorCode::SessionExpired)));
}

#[test]
fn main_address_change_leaves_stale_reverse_lookup() {
    let mut reg = registry_with(&[("alice", 1)]);
    let ev = set_main_address(
        &mut reg,
        &SetMainAddress { authority: addr(1), username: "alice".to_string() },
        addr(5),
    )
    .unwrap();
    assert!(ev.new_main == addr(5));
    assert!(reg.profile(&"alice".to_string()).unwrap().1.main_address == addr(5));
    assert_eq!(reg.reverse_lookup(addr(5)).unwrap().username, "alice");
    assert_eq!(reg.reverse_lookup(addr(1)).unwrap().username, "alice");
    let r = set_main_address(
        &mut reg,
        &SetMainAddress { authority: addr(5), username: "alice".to_string() },
        addr(6),
    );
    assert!(matches!(r, Err(ErrorCode::NotAuthorized)));
}

#[test]
fn authority_transfer_is_immediate() {
    let mut reg = registry_with(&[("alice", 1)]);
    let ev = set_authority(
        &mut reg,
        &TransferAuthority { authority: addr(1), username: "alice".to_string() },
        addr(3),
    )
    .unwrap();
    assert!(ev.new_authority == addr(3));
    let old = set_authority(
        &mut reg,
        &TransferAuthority { authority: addr(1), username: "alice".to_string() },
        addr(1),
    );
    assert!(matches!(old, Err(ErrorCode::NotAuthorized)));
    assert_eq!(open_session(&mut reg, "alice", 3, "s", 1), Ok(()));
    let p = reg.profile(&"alice".to_string()).unwrap().1;
    assert!(p.authority == addr(3));
    assert!(p.main_address == addr(1));
}

#[test]
fn profile_details_are_clipped() {
    let mut reg = registry_with(&[("alice", 1)]);
    let ev = set_profile_details(
        &mut reg,
        &EditProfile { authority: addr(1), username: "alice".to_string() },
        Some("b".repeat(300)),
        Some("a".repeat(10)),
        Some("t".repeat(40)),
        None,
        Some("w".repeat(64)),
    )
    .unwrap();
    assert!(ev.authority == addr(1));
    let p = reg.profile(&"alice".to_string()).unwrap().1;
    assert_eq!(p.bio, "b".repeat(256));
    assert_eq!(p.avatar, "a".repeat(10));
    assert_eq!(p.twitter, "t".repeat(32));
    assert_eq!(p.discord, "");
    assert_eq!(p.website, "w".repeat(64));
    let r = set_profile_details(
        &mut reg,
        &EditProfile { authority: addr(2), username: "alice".to_string() },
        None,
        None,
        None,
        None,
        None,
    );
    assert!(matches!(r, Err(ErrorCode::NotAuthorized)));
}

#[test]
fn clip_keeps_characters_whole() {
    assert_eq!(clip_opt(None, 5), "");
    assert_eq!(clip_opt(Some("hello".to_string()), 5), "hello");
    assert_eq!(clip_opt(Some("hello".to_string()), 3), "hel");
    assert_eq!(clip_opt(Some("h\u{e9}llo".to_string()), 2), "h");
    assert_eq!(clip_opt(Some("h\u{e9}llo".to_string()), 3), "h\u{e9}");
    assert_eq!(clip_opt(Some("\u{e9}".to_string()), 0), "");
}

#[test]
fn points_balance_query() {
    let reg = registry_with(&[("alice", 1)]);
    let ev = get_points_balance(&reg, &GetPointsBalance { requester: addr(8), now: 11 }, "alice".to_string())
        .unwrap();
    assert_eq!(ev.points_balance, INITIAL_POINTS);
    assert_eq!(ev.points_value_gorb, INITIAL_POINTS as u64 * POINT_VALUE_GORB);
    assert!(ev.requester == addr(8));
    assert_eq!(ev.timestamp, 11);
    let r = get_points_balance(&reg, &GetPointsBalance { requester: addr(8), now: 11 }, "bob".to_string());
    assert!(matches!(r, Err(ErrorCode::NotFound)));
}

#[test]
fn transfer_history_limit_is_capped() {
    let reg = registry_with(&[("alice", 1)]);
    let ctx = GetTransferHistory { requester: addr(4), now: 3 };
    let ev = get_transfer_history(&reg, &ctx, "alice".to_string(), 200).unwrap();
    assert_eq!(ev.limit, 50);
    assert_eq!(ev.username, "alice");
    let ev = get_transfer_history(&reg, &ctx, "alice".to_string(), 7).unwrap();
    assert_eq!(ev.limit, 7);
    assert!(matches!(
        get_transfer_history(&reg, &ctx, "ALICE".to_string(), 7),
        Err(ErrorCode::InvalidHandle)
    ));
    assert!(matches!(
        get_transfer_history(&reg, &ctx, "bob".to_string(), 7),
        Err(ErrorCode::NotFound)
    ));
}

#[test]
fn error_messages() {
    assert_eq!(ErrorCode::SessionExpired.message(), "Authentication session has expired or is inactive");
    assert_eq!(ErrorCode::InsufficientPoints.message(), "Insufficient points for this operation");
}
