use polyfield::abi::{encode_reply, intercept_outcome, panic_message, LogLevel, POLYFIELD_ABI_VERSION};
use polyfield::color;
use polyfield::context::{
    c_text, config_file_name, global_owner_key, max_players_from_raw, namespaced_key,
    nonzero_ref, player_count_from_raw, port_from_raw, present_text, slot_name, split_map_list,
};
use polyfield::events::{DamageEvent, ShootEvent};
use polyfield::game_enums::{
    ClassRole, DamageType, GadgetId, MatchType, UserState, VehicleType, WeaponId,
};
use polyfield::player::{
    cstr_to_string, first_string_reply, is_dead_from, second_string_reply, slot_id,
    HostStringStep, HOST_STRING_STACK_CAP,
};
use polyfield::text::{parse_u32_str, u32_to_decimal};

fn damage(damage_type: i32, weapon_id: i32) -> DamageEvent {
    DamageEvent {
        attacker: 7,
        victim: 0,
        amount: 40,
        damage_type,
        weapon_id,
        is_npc: false,
        data: String::new(),
        frame: 0,
    }
}

#[test]
fn damage_type_from_raw_and_names() {
    let expected = [
        (DamageType::Accident, "accident"),
        (DamageType::Bullet, "bullet"),
        (DamageType::Launcher, "launcher"),
        (DamageType::Grenade, "grenade"),
        (DamageType::Shell, "shell"),
        (DamageType::VehicleExplosion, "vehicleExplosion"),
        (DamageType::Artillery, "artillery"),
        (DamageType::Nuke, "nuke"),
    ];
    for (i, (t, n)) in expected.iter().enumerate() {
        assert_eq!(DamageType::from_raw(i as i32), Some(*t));
        assert_eq!(t.name(), *n);
    }
    assert_eq!(DamageType::from_raw(-1), None);
    assert_eq!(DamageType::from_raw(8), None);
}

#[test]
fn gadget_id_from_raw_and_names() {
    let expected = [
        (GadgetId::Bazooka, "Bazooka"),
        (GadgetId::BandagePouch, "BandagePouch"),
        (GadgetId::AmmoPouch, "AmmoPouch"),
        (GadgetId::Panzerschreck, "Panzerschreck"),
    ];
    for (i, (t, n)) in expected.iter().enumerate() {
        assert_eq!(GadgetId::from_raw(i as i32), Some(*t));
        assert_eq!(t.name(), *n);
    }
    assert_eq!(GadgetId::from_raw(4), None);
    assert_eq!(GadgetId::from_raw(i32::MIN), None);
}

#[test]
fn weapon_id_from_raw_and_names() {
    let expected = [
        (WeaponId::M1915, "M1915"),
        (WeaponId::M1Garand, "M1 Garand"),
        (WeaponId::Mp40, "MP40"),
        (WeaponId::Kar98k, "Kar98k"),
        (WeaponId::Stg44, "STG 44"),
        (WeaponId::Mg42, "MG42"),
        (WeaponId::Sten, "Sten"),
        (WeaponId::Mg34, "MG34"),
        (WeaponId::M2Browning, "M2Browning"),
        (WeaponId::Welrod, "Welrod"),
    ];
    for (i, (t, n)) in expected.iter().enumerate() {
        assert_eq!(WeaponId::from_raw(i as i32), Some(*t));
        assert_eq!(t.name(), *n);
    }
    assert_eq!(WeaponId::from_raw(10), None);
    assert_eq!(WeaponId::from_raw(-3), None);
}

#[test]
fn match_type_raw_and_names() {
    assert_eq!(MatchType::from_raw(0), Some(MatchType::teamMatch));
    assert_eq!(MatchType::from_raw(1), Some(MatchType::conquest));
    assert_eq!(MatchType::from_raw(2), None);
    assert_eq!(MatchType::teamMatch.name(), "teamMatch");
    assert_eq!(MatchType::conquest.name(), "conquest");
}

#[test]
fn match_type_from_name_round_trips() {
    for t in [MatchType::teamMatch, MatchType::conquest] {
        assert_eq!(MatchType::from_name(t.name()), Some(t));
    }
    assert_eq!(MatchType::from_name("unknown:3"), None);
    assert_eq!(MatchType::from_name(""), None);
    assert_eq!(MatchType::from_name("TeamMatch"), None);
    assert_eq!(MatchType::from_name("conquest "), None);
}

#[test]
fn vehicle_type_from_raw_and_names() {
    let expected = [
        (VehicleType::NoVehicle, "none"),
        (VehicleType::Jeep, "jeep"),
        (VehicleType::Tank, "tank"),
        (VehicleType::Airplane, "airplane"),
    ];
    for (i, (t, n)) in expected.iter().enumerate() {
        assert_eq!(VehicleType::from_raw(i as i32), Some(*t));
        assert_eq!(t.name(), *n);
    }
    assert_eq!(VehicleType::from_raw(4), None);
}

#[test]
fn user_state_and_privilege() {
    let expected = [
        (UserState::client, "client", false),
        (UserState::host, "host", true),
        (UserState::admin, "admin", true),
        (UserState::kicked, "kicked", false),
        (UserState::banned, "banned", false),
    ];
    for (i, (t, n, p)) in expected.iter().enumerate() {
        assert_eq!(UserState::from_raw(i as i32), Some(*t));
        assert_eq!(t.name(), *n);
        assert_eq!(t.is_privileged(), *p);
    }
    assert_eq!(UserState::from_raw(5), None);
}

#[test]
fn class_role_from_raw_and_names() {
    let expected = [
        (ClassRole::assault, "assault"),
        (ClassRole::medic, "medic"),
        (ClassRole::support, "support"),
        (ClassRole::scout, "scout"),
        (ClassRole::tanker, "tanker"),
    ];
    for (i, (t, n)) in expected.iter().enumerate() {
        assert_eq!(ClassRole::from_raw(i as i32), Some(*t));
        assert_eq!(t.name(), *n);
    }
    assert_eq!(ClassRole::from_raw(5), None);
    assert_eq!(ClassRole::from_raw(-1), None);
}

#[test]
fn damage_event_typed_views() {
    let e = damage(3, 1);
    assert_eq!(e.damage_type_enum(), Some(DamageType::Grenade));
    assert_eq!(e.weapon_enum(), Some(WeaponId::M1Garand));
    assert_eq!(e.gadget_enum(), Some(GadgetId::BandagePouch));
    let e = damage(9, 5);
    assert_eq!(e.damage_type_enum(), None);
    assert_eq!(e.weapon_enum(), Some(WeaponId::Mg42));
    assert_eq!(e.gadget_enum(), None);
    let e = damage(0, -1);
    assert_eq!(e.damage_type_enum(), Some(DamageType::Accident));
    assert_eq!(e.weapon_enum(), None);
    assert_eq!(e.gadget_enum(), None);
}

#[test]
fn shoot_event_weapon() {
    let mut e = ShootEvent { player: 1, weapon_type: 9, shoot_data: String::from("x") };
    assert_eq!(e.weapon_enum(), Some(WeaponId::Welrod));
    e.weapon_type = 10;
    assert_eq!(e.weapon_enum(), None);
    e.weapon_type = 255;
    assert_eq!(e.weapon_enum(), None);
}

#[test]
fn color_wraps_message() {
    assert_eq!(color("red", "speed hack"), "<color=red>speed hack</color>");
    assert_eq!(color("#ff0080", ""), "<color=#ff0080></color>");
}

#[test]
fn keys_are_namespaced_per_plugin() {
    assert_eq!(namespaced_key("foo", "count"), "foo:count");
    assert_eq!(namespaced_key("", ""), ":");
    assert_ne!(namespaced_key("foo", "count"), namespaced_key("bar", "count"));
    assert_ne!(namespaced_key("a:b", "c"), namespaced_key("a", "c"));
    assert_eq!(global_owner_key("shared:key"), "__pf_global_owner:shared:key");
}

#[test]
fn slot_names_and_ids() {
    assert_eq!(slot_name(3), "Player3");
    assert_eq!(slot_name(0), "Player0");
    assert_eq!(slot_name(u32::MAX), "Player4294967295");
    assert_eq!(slot_id("Player3"), 3);
    assert_eq!(slot_id("Player12"), 12);
    assert_eq!(slot_id("Player007"), 7);
    assert_eq!(slot_id("Player+7"), 7);
    assert_eq!(slot_id("Player"), 0);
    assert_eq!(slot_id("Player+"), 0);
    assert_eq!(slot_id("Player-1"), 0);
    assert_eq!(slot_id("Player 1"), 0);
    assert_eq!(slot_id("Player4294967295"), u32::MAX);
    assert_eq!(slot_id("Player4294967296"), 0);
    assert_eq!(slot_id("player3"), 0);
    assert_eq!(slot_id("Host"), 0);
    assert_eq!(slot_id(""), 0);
    assert_eq!(slot_id("Player3x"), 0);
    assert_eq!(slot_id("Playerß"), 0);
}

#[test]
fn slot_name_round_trips_through_slot_id() {
    for id in [0u32, 1, 9, 10, 99, 100, 12345, 4294967294, u32::MAX] {
        assert_eq!(slot_id(&slot_name(id)), id);
    }
}

#[test]
fn decimal_text() {
    assert_eq!(u32_to_decimal(0), "0");
    assert_eq!(u32_to_decimal(10), "10");
    assert_eq!(u32_to_decimal(305419896), "305419896");
    assert_eq!(parse_u32_str("42"), Some(42));
    assert_eq!(parse_u32_str("+42"), Some(42));
    assert_eq!(parse_u32_str("0042"), Some(42));
    assert_eq!(parse_u32_str(""), None);
    assert_eq!(parse_u32_str("+"), None);
    assert_eq!(parse_u32_str("-0"), None);
    assert_eq!(parse_u32_str("4294967296"), None);
    assert_eq!(parse_u32_str("99999999999999999999x"), None);
    for s in ["", "+", "-1", "0", "+0", "17", "4294967295", "4294967296", "1a", " 1"] {
        assert_eq!(parse_u32_str(s), s.parse::<u32>().ok(), "input {:?}", s);
    }
}

#[test]
fn present_text_reads_empty_as_absent() {
    assert_eq!(present_text(String::new()), None);
    assert_eq!(present_text(String::from("dust")), Some(String::from("dust")));
}

#[test]
fn config_file_is_named_after_plugin() {
    assert_eq!(config_file_name("anti-teleport"), "anti-teleport.toml");
}

#[test]
fn c_text_drops_text_with_nul() {
    assert_eq!(c_text("hello"), "hello");
    assert_eq!(c_text(""), "");
    assert_eq!(c_text("a\0b"), "");
    assert_eq!(c_text("\0"), "");
}

#[test]
fn raw_host_values() {
    assert_eq!(nonzero_ref(0), None);
    assert_eq!(nonzero_ref(0xdead), Some(0xdead));
    assert_eq!(port_from_raw(0), None);
    assert_eq!(port_from_raw(7777), Some(7777));
    assert_eq!(max_players_from_raw(0), None);
    assert_eq!(max_players_from_raw(32), Some(32));
    assert_eq!(player_count_from_raw(u32::MAX), None);
    assert_eq!(player_count_from_raw(0), Some(0));
    assert_eq!(player_count_from_raw(12), Some(12));
}

#[test]
fn map_pool_splitting() {
    assert_eq!(split_map_list("dust\nharbor\n\nvalley\n"), vec!["dust", "harbor", "valley"]);
    assert_eq!(split_map_list(""), Vec::<String>::new());
    assert_eq!(split_map_list("\n\n"), Vec::<String>::new());
    assert_eq!(split_map_list("solo"), vec!["solo"]);
    assert_eq!(split_map_list("a b\n c"), vec!["a b", " c"]);
}

#[test]
fn map_pool_round_trips() {
    let names = vec!["desert", "snow field", "x"];
    assert_eq!(split_map_list(&names.join("\n")), names);
}

#[test]
fn cstr_decoding() {
    assert_eq!(cstr_to_string(b"abc\0def"), "abc");
    assert_eq!(cstr_to_string(b"abc"), "abc");
    assert_eq!(cstr_to_string(b"\0abc"), "");
    assert_eq!(cstr_to_string(b""), "");
    assert_eq!(cstr_to_string(&[0x66, 0xff, 0x67]), "f\u{FFFD}g");
    assert_eq!(cstr_to_string("zoë\0!".as_bytes()), "zoë");
}

#[test]
fn host_string_protocol() {
    let mut buf = [0u8; HOST_STRING_STACK_CAP];
    buf[..4].copy_from_slice(b"map\0");
    match first_string_reply(&buf, 0) {
        HostStringStep::Done(s) => assert_eq!(s, ""),
        HostStringStep::Retry(_) => panic!("no retry expected"),
    }
    match first_string_reply(&buf, 4) {
        HostStringStep::Done(s) => assert_eq!(s, "map"),
        HostStringStep::Retry(_) => panic!("no retry expected"),
    }
    match first_string_reply(&buf, 2) {
        HostStringStep::Done(s) => assert_eq!(s, "ma"),
        HostStringStep::Retry(_) => panic!("no retry expected"),
    }
    match first_string_reply(&buf, HOST_STRING_STACK_CAP) {
        HostStringStep::Done(s) => assert_eq!(s, "map"),
        HostStringStep::Retry(_) => panic!("no retry expected"),
    }
    match first_string_reply(&buf, 300) {
        HostStringStep::Done(_) => panic!("retry expected"),
        HostStringStep::Retry(n) => assert_eq!(n, 300),
    }
    let long = vec![b'a'; 300];
    assert_eq!(second_string_reply(&long, 300).len(), 300);
    assert_eq!(second_string_reply(&long, 500).len(), 300);
    assert_eq!(second_string_reply(&long, 5), "aaaaa");
}

#[test]
fn intercepted_calls_fail_open() {
    assert!(intercept_outcome(Some(true)));
    assert!(!intercept_outcome(Some(false)));
    assert!(intercept_outcome(None));
}

#[test]
fn panic_report_line() {
    assert_eq!(panic_message("on_damage"), "panicked in on_damage (caught \u{2014} not propagated)");
}

#[test]
fn death_rule() {
    assert!(is_dead_from(true, 100));
    assert!(is_dead_from(false, 0));
    assert!(is_dead_from(false, -5));
    assert!(!is_dead_from(false, 1));
}

#[test]
fn abi_values() {
    assert_eq!(POLYFIELD_ABI_VERSION, 31);
    assert_eq!(LogLevel::Info.code(), 0);
    assert_eq!(LogLevel::Warn.code(), 1);
    assert_eq!(LogLevel::Error.code(), 2);
}

#[test]
fn reply_encoding() {
    let (bytes, need) = encode_reply("pong", 16);
    assert_eq!(need, 4);
    assert_eq!(bytes, b"pong\0".to_vec());
    let (bytes, need) = encode_reply("pong", 4);
    assert_eq!(need, 4);
    assert_eq!(bytes, b"pong".to_vec());
    let (bytes, need) = encode_reply("pong", 2);
    assert_eq!(need, 4);
    assert_eq!(bytes, b"po".to_vec());
    let (bytes, need) = encode_reply("pong", 0);
    assert_eq!(need, 4);
    assert!(bytes.is_empty());
    let (bytes, need) = encode_reply("bad\0reply", 16);
    assert_eq!(need, 0);
    assert_eq!(bytes, vec![0u8]);
}

#[test]
fn reply_reads_back_through_host_convention() {
    for text in ["pong", "zo\u{eb} \u{2014} \u{1F600}", ""] {
        for cap in [text.len(), text.len() + 1, 64] {
            let (bytes, need) = encode_reply(text, cap);
            let mut buf = vec![0xAAu8; cap];
            buf[..bytes.len()].copy_from_slice(&bytes);
            match first_string_reply(&buf, need) {
                HostStringStep::Done(s) => assert_eq!(s, text),
                HostStringStep::Retry(_) => panic!("reply fits"),
            }
        }
    }
}
