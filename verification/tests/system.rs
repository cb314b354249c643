use airmash_server::component::{ErrorType, KeyState, PlaneType, SpectateTarget, UpgradeType, Upgrades};
use airmash_server::protocol::datatypes::keycode::KeyCode;
use airmash_server::system::collision::{check_collisions, nearest_per_entity, retain_cross_layer, CollisionPair};
use airmash_server::system::command::{
    apply_upgrade, can_spectate, command_kind, flag_of_command, on_respawn_command, on_spectate_command,
    on_upgrade_command, parse_plane, parse_spectate_data, respawn_allowed, upgrade_number, CommandKind,
    plane_name, Respawn, RespawnOutcome, SpectateOutcome,
};
use airmash_server::system::despawn;
use airmash_server::system::handler::{
    leave_horizon_type, missile_despawn, missile_hits, players_killed, reset_player, PlayerFlags, powerup_duration_millis, saturate_u16, say_audience,
    update_audience, watchers_of, whisper_recipients, Audience, DespawnType, LeaveHorizonType, MissileDespawnType,
};
use airmash_server::system::keys::{self, fire_count, force_update_packet, update_keystate, FireInput};
use airmash_server::system::network::{
    connection_event, login_check, make_unique_name, player_id, route_packet, ClientPacketKind, ConnAction, ConnEvent,
    PacketRoute,
};
use airmash_server::system::physics::{movement_plan, spectator_position_source, update_packet_due};
use airmash_server::system::ping::{self, handle_ping_response, PingData};
use airmash_server::system::powerups;
use airmash_server::system::sets::sorted_unique;
use airmash_server::system::spatial::{contains_layer, query_layer, LayerSpec};
use airmash_server::system::specials::{
    goliath_repel, kill_predator_boost_when_out_of_energy, prowler_cloak, prowler_decloak, repelled_entities,
    prowler_decloak_on_hit, tornado_special_fire, track_predator_boost, update_mohawk_on_strafe, Cloak, SpecialKind,
};
use airmash_server::system::upgrades::{self, on_powerup_upgrades, on_upgrade_pickup, UpgradeState};
use airmash_server::system::visibility::{
    horizon_changes, horizon_frame, record_new_entities, spawn_frame, visible_entities,
};
use airmash_server::game_config::GameConfig;

const SEC: u64 = 1_000_000_000;

#[test]
fn ping_history_keeps_ten() {
    let mut data = PingData::new();
    assert_eq!(data.last_ping(), None);
    for i in 0..12u32 {
        data.push_seq(i, 100 + i as u64);
    }
    assert_eq!(data.last_ping(), Some(111));
    assert_eq!(data.seq_time(0), None);
    assert_eq!(data.seq_time(1), None);
    assert_eq!(data.seq_time(2), Some(102));
    assert_eq!(data.seq_time(11), Some(111));
}

#[test]
fn ping_every_five_seconds() {
    let mut data = PingData::new();
    let first = ping::update(&mut data, 10 * SEC).unwrap();
    assert_eq!(data.seq_time(first), Some(10 * SEC));
    assert_eq!(ping::update(&mut data, 14 * SEC), None);
    assert!(ping::update(&mut data, 15 * SEC).is_some());
    assert_eq!(data.last_ping(), Some(15 * SEC));
    // A last ping later than this frame counts as just sent.
    assert_eq!(ping::update(&mut data, 3 * SEC), None);
    assert_eq!(data.last_ping(), Some(15 * SEC));
}

#[test]
fn ping_response_times() {
    let mut data = PingData::new();
    data.push_seq(7, SEC);
    assert_eq!(handle_ping_response(&data, 7, SEC + 42_500_000), Some((42_500_000, 42)));
    assert_eq!(handle_ping_response(&data, 7, SEC - 5), Some((0, 0)));
    assert_eq!(handle_ping_response(&data, 7, SEC + 100 * SEC), Some((100 * SEC, u16::MAX)));
    assert_eq!(handle_ping_response(&data, 8, SEC), None);
}

#[test]
fn respawn_rules() {
    assert!(!respawn_allowed(false, false, true, 0, 10 * SEC));
    assert!(respawn_allowed(false, true, false, 0, 0));
    assert!(!respawn_allowed(true, true, false, 0, 10 * SEC));
    assert!(!respawn_allowed(true, true, true, 9 * SEC, 10 * SEC));
    assert!(respawn_allowed(true, true, true, 8 * SEC, 10 * SEC));
    assert!(!respawn_allowed(true, true, true, 11 * SEC, 10 * SEC));
}

#[test]
fn spectate_rules() {
    assert!(can_spectate(true, true, false, 9 * SEC, 10 * SEC));
    assert!(can_spectate(false, false, false, 9 * SEC, 10 * SEC));
    assert!(!can_spectate(false, true, false, 0, 10 * SEC));
    assert!(!can_spectate(false, true, true, 9 * SEC, 10 * SEC));
    assert!(can_spectate(false, true, true, 8 * SEC, 10 * SEC));
}

#[test]
fn plane_numbers() {
    assert_eq!(parse_plane(b"1"), Some(PlaneType::Predator));
    assert_eq!(parse_plane(b"2"), Some(PlaneType::Goliath));
    assert_eq!(parse_plane(b"+5"), Some(PlaneType::Prowler));
    assert_eq!(parse_plane(b"6"), None);
    assert_eq!(parse_plane(b" 1"), None);
    assert_eq!(parse_plane(b"-1"), None);
    assert_eq!(parse_plane(&[0xFF]), None);
    assert_eq!(PlaneType::try_from_number(3), Some(PlaneType::Mohawk));
    assert_eq!(PlaneType::try_from_number(4), Some(PlaneType::Tornado));
}

#[test]
fn command_names() {
    assert_eq!(command_kind(b"respawn"), CommandKind::Respawn);
    assert_eq!(command_kind(b"flag"), CommandKind::Flag);
    assert_eq!(command_kind(b"spectate"), CommandKind::Spectate);
    assert_eq!(command_kind(b"upgrade"), CommandKind::Upgrade);
    assert_eq!(command_kind(b"Respawn"), CommandKind::Other);
    assert_eq!(command_kind(&[0xFF]), CommandKind::Other);
}

#[test]
fn respawn_command() {
    let t = 10 * SEC;
    let all: Vec<String> =
        ["predator", "goliath", "mohawk", "tornado", "prowler"].iter().map(|s| s.to_string()).collect();
    let pred = PlaneType::Predator;
    assert_eq!(
        on_respawn_command(true, b"respawn", b"3", false, true, false, 0, t, pred, &all),
        RespawnOutcome::Respawned(Respawn {
            plane: PlaneType::Mohawk,
            prototype: PlaneType::Mohawk,
            was_alive: false,
            changed_from: Some(PlaneType::Predator),
        })
    );
    assert_eq!(
        on_respawn_command(true, b"respawn", b"1", true, true, true, 0, t, pred, &all),
        RespawnOutcome::Respawned(Respawn {
            plane: PlaneType::Predator,
            prototype: PlaneType::Predator,
            was_alive: true,
            changed_from: None,
        })
    );
    let no_pred: Vec<String> = vec!["mohawk".to_string()];
    assert_eq!(
        on_respawn_command(true, b"respawn", b"1", false, true, false, 0, t, PlaneType::Mohawk, &no_pred),
        RespawnOutcome::Unavailable(PlaneType::Predator)
    );
    assert_eq!(
        on_respawn_command(true, b"respawn", b"3", false, true, false, 0, t, pred, &no_pred),
        RespawnOutcome::Respawned(Respawn {
            plane: PlaneType::Mohawk,
            prototype: PlaneType::Mohawk,
            was_alive: false,
            changed_from: Some(PlaneType::Predator),
        })
    );
    assert_eq!(on_respawn_command(false, b"respawn", b"3", false, true, false, 0, t, pred, &all), RespawnOutcome::Ignored);
    assert_eq!(on_respawn_command(true, b"flag", b"3", false, true, false, 0, t, pred, &all), RespawnOutcome::Ignored);
    assert_eq!(on_respawn_command(true, b"respawn", b"x", false, true, false, 0, t, pred, &all), RespawnOutcome::Ignored);
    assert_eq!(on_respawn_command(true, b"respawn", b"1", true, true, true, t, t, pred, &all), RespawnOutcome::Denied);
    assert_eq!(plane_name(PlaneType::Goliath), "goliath");
}

#[test]
fn spectate_targets() {
    assert_eq!(parse_spectate_data("-1"), Some(SpectateTarget::Next));
    assert_eq!(parse_spectate_data("-2"), Some(SpectateTarget::Prev));
    assert_eq!(parse_spectate_data("-3"), Some(SpectateTarget::Force));
    assert_eq!(parse_spectate_data("-4"), None);
    assert_eq!(parse_spectate_data("0"), Some(SpectateTarget::Target(0)));
    assert_eq!(parse_spectate_data("65535"), Some(SpectateTarget::Target(65535)));
    assert_eq!(parse_spectate_data("65536"), None);
    assert_eq!(parse_spectate_data("abc"), None);
    assert_eq!(parse_spectate_data(""), None);
    let t = 10 * SEC;
    assert_eq!(on_spectate_command(b"spectate", b"-3", false, true, true, 0, t), SpectateOutcome::Spectate(SpectateTarget::Force));
    assert_eq!(on_spectate_command(b"spectate", b"12", false, true, false, 0, t), SpectateOutcome::Denied);
    assert_eq!(on_spectate_command(b"spectate", &[0xFF], true, true, true, 0, t), SpectateOutcome::Ignored);
    assert_eq!(on_spectate_command(b"upgrade", b"-3", true, true, true, 0, t), SpectateOutcome::Ignored);
}

#[test]
fn flag_command() {
    assert_eq!(flag_of_command(b"gb").to_str(), "GB");
    assert_eq!(flag_of_command(b"nowhere").to_str(), "UN");
    assert_eq!(flag_of_command(&[0xC3]).to_str(), "UN");
    assert_eq!(flag_of_command(b"communist").to_u16(), 93);
}

#[test]
fn upgrade_commands() {
    assert_eq!(upgrade_number(b"3"), Some(3));
    assert_eq!(upgrade_number(b"256"), None);
    assert_eq!(upgrade_number(&[b'1', 0xFF]), None);

    let mut u = Upgrades { unused: 2, speed: 4, ..Default::default() };
    assert_eq!(apply_upgrade(&mut u, 1), Some(UpgradeType::Speed));
    assert_eq!(u, Upgrades { unused: 1, speed: 5, ..Default::default() });
    assert_eq!(apply_upgrade(&mut u, 1), None);
    assert_eq!(apply_upgrade(&mut u, 9), None);
    assert_eq!(apply_upgrade(&mut u, 4), Some(UpgradeType::Missile));
    assert_eq!(u.unused, 0);
    assert_eq!(apply_upgrade(&mut u, 2), None);

    let mut u = Upgrades { unused: 1, ..Default::default() };
    let mut prev = Upgrades::default();
    assert_eq!(on_upgrade_command(b"upgrade", b"2", &mut u, &mut prev), Some(UpgradeType::Defense));
    assert_eq!(u.defense, 1);
    assert_eq!(prev, u);
    assert_eq!(on_upgrade_command(b"upgrade", b"3", &mut u, &mut prev), None);
    assert_eq!(on_upgrade_command(b"flag", b"3", &mut u, &mut prev), None);
}

#[test]
fn boost_tracking() {
    let held = KeyState { special: true, up: true, ..Default::default() };
    let mut active = false;
    assert_eq!(track_predator_boost(KeyCode::Up, &held, SpecialKind::Boost, true, &mut active), Some(true));
    assert!(active);
    assert_eq!(track_predator_boost(KeyCode::Up, &held, SpecialKind::Boost, true, &mut active), None);
    let released = KeyState { special: false, up: true, ..Default::default() };
    assert_eq!(track_predator_boost(KeyCode::Special, &released, SpecialKind::Boost, true, &mut active), Some(false));
    assert!(!active);
    assert_eq!(track_predator_boost(KeyCode::Up, &held, SpecialKind::Boost, false, &mut active), None);
    assert_eq!(track_predator_boost(KeyCode::Fire, &held, SpecialKind::Boost, true, &mut active), None);
    assert_eq!(track_predator_boost(KeyCode::Up, &held, SpecialKind::Repel, true, &mut active), None);

    let mut active = true;
    assert!(kill_predator_boost_when_out_of_energy(SpecialKind::Boost, false, true, &mut active));
    assert!(!active);
    assert!(!kill_predator_boost_when_out_of_energy(SpecialKind::Boost, true, true, &mut active));
}

#[test]
fn other_specials() {
    assert!(tornado_special_fire(SpecialKind::Multishot, true, true, 0, SEC, SEC, true));
    assert!(!tornado_special_fire(SpecialKind::Multishot, true, true, 1, SEC, SEC, true));
    assert!(!tornado_special_fire(SpecialKind::Boost, true, true, 0, SEC, SEC, true));

    let mut last = 0;
    assert!(goliath_repel(SpecialKind::Repel, true, true, &mut last, 2 * SEC, SEC, true));
    assert_eq!(last, 2 * SEC);
    assert!(!goliath_repel(SpecialKind::Repel, true, true, &mut last, 2 * SEC + 1, SEC, true));
    assert_eq!(last, 2 * SEC);

    assert_eq!(
        prowler_cloak(KeyCode::Special, true, SpecialKind::Stealth, true, false, 0, 2 * SEC, SEC, true),
        Some(Cloak { stealthed: true, spend: true })
    );
    assert_eq!(
        prowler_cloak(KeyCode::Special, true, SpecialKind::Stealth, true, true, 0, 0, SEC, false),
        Some(Cloak { stealthed: false, spend: false })
    );
    assert_eq!(prowler_cloak(KeyCode::Special, false, SpecialKind::Stealth, true, false, 0, 2 * SEC, SEC, true), None);
    assert_eq!(prowler_cloak(KeyCode::Special, true, SpecialKind::Stealth, true, false, 0, 2 * SEC, SEC, false), None);
    assert!(prowler_decloak(SpecialKind::Stealth, true));
    assert!(!prowler_decloak(SpecialKind::Stealth, false));
    assert!(update_mohawk_on_strafe(KeyCode::Special, SpecialKind::Strafe));
    assert!(!update_mohawk_on_strafe(KeyCode::Up, SpecialKind::Strafe));

    let (p, m) = repelled_entities(&vec![5, 3, 5, 1], &vec![9, 9]);
    assert_eq!(p, vec![1, 3, 5]);
    assert_eq!(m, vec![9]);
}

#[test]
fn sorting_sets() {
    assert_eq!(sorted_unique(&vec![]), Vec::<u64>::new());
    assert_eq!(sorted_unique(&vec![4, 4, 2, 8, 2, 1]), vec![1, 2, 4, 8]);
}

#[test]
fn firing() {
    let p = FireInput { entity: 3, alive: true, fire: true, last_fire: 0, fire_delay: SEC, enough_energy: true, inferno: false };
    assert_eq!(fire_count(&p, SEC), Some(1));
    assert_eq!(fire_count(&FireInput { inferno: true, ..p }, SEC), Some(3));
    assert_eq!(fire_count(&p, SEC - 1), None);
    assert_eq!(fire_count(&FireInput { enough_energy: false, ..p }, SEC), None);
    // A last shot later than this frame counts as no time passed.
    assert_eq!(fire_count(&FireInput { last_fire: 2 * SEC, ..p }, SEC), None);
    assert_eq!(fire_count(&FireInput { last_fire: 2 * SEC, fire_delay: 0, ..p }, SEC), Some(1));
    let events = keys::update(&vec![p, FireInput { entity: 4, alive: false, ..p }, FireInput { entity: 5, inferno: true, ..p }], SEC);
    assert_eq!(events, vec![(3, 1), (5, 3)]);
}

#[test]
fn key_events() {
    let mut k = KeyState::default();
    let mut last_action = 0u64;
    update_keystate(KeyCode::Left, true, &mut k, &mut last_action, 5);
    assert_eq!(last_action, 5);
    update_keystate(KeyCode::Fire, true, &mut k, &mut last_action, 7);
    update_keystate(KeyCode::Left, false, &mut k, &mut last_action, 9);
    assert_eq!(k, KeyState { fire: true, ..Default::default() });
    assert_eq!(last_action, 9);
    assert!(force_update_packet(KeyCode::Down));
    assert!(!force_update_packet(KeyCode::Special));
}

#[test]
fn movement() {
    let up = KeyState { up: true, ..Default::default() };
    let plan = movement_plan(&up, SpecialKind::Boost, true);
    assert!(plan.boosted && !plan.turn_left && !plan.turn_right);
    assert_eq!(plan.direction, Some(0));
    let down_left = KeyState { down: true, left: true, ..Default::default() };
    let plan = movement_plan(&down_left, SpecialKind::Strafe, false);
    assert!(plan.turn_left && !plan.boosted);
    assert_eq!(plan.direction, Some(4));
    let strafe = KeyState { special: true, right: true, up: true, ..Default::default() };
    let plan = movement_plan(&strafe, SpecialKind::Strafe, false);
    assert!(!plan.turn_right);
    assert_eq!(plan.direction, Some(1));
    let strafe_left = KeyState { special: true, left: true, down: true, ..Default::default() };
    assert_eq!(movement_plan(&strafe_left, SpecialKind::Strafe, false).direction, Some(-3));
    let strafe_only = KeyState { special: true, left: true, ..Default::default() };
    assert_eq!(movement_plan(&strafe_only, SpecialKind::Strafe, false).direction, Some(-2));
    assert_eq!(movement_plan(&KeyState::default(), SpecialKind::Boost, false).direction, None);

    assert_eq!(spectator_position_source(1, Some(2)), Some(2));
    assert_eq!(spectator_position_source(1, Some(1)), None);
    assert_eq!(spectator_position_source(1, None), None);

    let mut last = 0;
    assert!(!update_packet_due(true, &mut last, SEC - 1));
    assert!(update_packet_due(true, &mut last, SEC));
    assert_eq!(last, SEC);
    assert!(!update_packet_due(false, &mut last, 5 * SEC));
}

#[test]
fn collisions() {
    let mut frame = 0;
    assert!(check_collisions(&mut frame, 0));
    assert!(!check_collisions(&mut frame, 16_000_000));
    assert!(check_collisions(&mut frame, 16_000_000));
    assert!(check_collisions(&mut frame, 31_000_000));
    assert_eq!(frame, 4);

    let pair = |a, b, dist, layer| CollisionPair { a, a_layer: layer, b, b_layer: 1, dist };
    let pairs = vec![pair(7, 1, 30, 2), pair(3, 2, 10, 2), pair(7, 4, 20, 2), pair(3, 5, 15, 1)];
    let nearest = nearest_per_entity(&pairs);
    assert_eq!(nearest, vec![pair(3, 2, 10, 2), pair(7, 4, 20, 2)]);
    let cross = retain_cross_layer(&pairs);
    assert_eq!(cross.len(), 3);
    assert!(cross.iter().all(|p| p.a_layer != p.b_layer));
}

#[test]
fn horizons() {
    let (lost, found) = horizon_changes(&vec![1, 2, 3], &vec![3, 4, 1]);
    assert_eq!(lost, vec![2]);
    assert_eq!(found, vec![4]);
    assert_eq!(visible_entities(2, &vec![2, 5, 1], &vec![9], &vec![7, 5]), vec![1, 5, 7, 9]);
}

#[test]
fn despawning() {
    let (missiles, mobs) = despawn::update(&vec![(1, true), (2, false)], &vec![(3, 5), (4, 10), (5, 11)], 10);
    assert_eq!(missiles, vec![1]);
    assert_eq!(mobs, vec![3]);
    assert_eq!(powerups::update(&vec![(1, Some(10)), (2, None), (3, Some(11))], 10), vec![1]);
}

#[test]
fn upgrade_updates() {
    let a = Upgrades { unused: 1, ..Default::default() };
    let b = Upgrades { speed: 1, ..Default::default() };
    let mut players = vec![
        UpgradeState { entity: 1, upgrades: a, prev: a },
        UpgradeState { entity: 2, upgrades: a, prev: Upgrades::default() },
        UpgradeState { entity: 3, upgrades: b, prev: Upgrades::default() },
    ];
    assert_eq!(upgrades::update(&mut players), vec![(2, false), (3, true)]);
    assert!(players.iter().all(|p| p.prev == p.upgrades));
    assert_eq!(upgrades::update(&mut players), vec![]);

    let mut u = Upgrades::default();
    let mut prev = Upgrades::default();
    on_upgrade_pickup(&mut u, &mut prev);
    assert_eq!(u.unused, 1);
    assert_eq!(prev, u);
    on_powerup_upgrades(&mut u, &mut prev, 0);
    assert_eq!(u.unused, 1);
    on_powerup_upgrades(&mut u, &mut prev, 3);
    assert_eq!(u.unused, 4);
}

#[test]
fn logins_and_names() {
    assert_eq!(login_check(4, 3), Err(ErrorType::IncorrectProtocol));
    assert_eq!(login_check(5, 41), Err(ErrorType::InvalidLogin));
    assert_eq!(login_check(5, 40), Ok(()));
    assert_eq!(player_id(65535), Ok(65535));
    assert_eq!(player_id(65536), Err(ErrorType::Unknown(255)));

    assert_eq!(route_packet(false, ClientPacketKind::Chat), PacketRoute::Drop);
    assert_eq!(route_packet(false, ClientPacketKind::Login), PacketRoute::Login);
    assert_eq!(route_packet(true, ClientPacketKind::Backup), PacketRoute::Ignore);
    assert_eq!(route_packet(true, ClientPacketKind::Key), PacketRoute::Dispatch);

    let mut names: Vec<Vec<u8>> = vec![b"bob".to_vec()];
    let mut name = b"alice".to_vec();
    make_unique_name(&mut names, &mut name);
    assert_eq!(name, b"alice".to_vec());
    assert!(names.contains(&b"alice".to_vec()));

    let mut name = b"bob".to_vec();
    make_unique_name(&mut names, &mut name);
    assert_eq!(name.len(), 7);
    assert!(name.starts_with(b"bob#"));
    assert!(name[4..].iter().all(|c| c.is_ascii_digit()));
    assert_eq!(names.len(), 3);

    let mut long = vec![b'a'; 300];
    make_unique_name(&mut names, &mut long);
    assert_eq!(long.len(), 255);
}

#[test]
fn handler_decisions() {
    assert_eq!(say_audience(SpecialKind::Stealth, true), Audience::TeamVisible);
    assert_eq!(say_audience(SpecialKind::Stealth, false), Audience::Visible);
    assert_eq!(update_audience(true), Audience::TeamVisible);
    assert_eq!(whisper_recipients(1, 2), vec![2, 1]);
    assert_eq!(whisper_recipients(1, 1), vec![1]);
    assert_eq!(powerup_duration_millis(10, 250_000_000), 10_250);
    assert_eq!(powerup_duration_millis(4_294_968, 0), 4_294_968_000u64 as u32);
    assert_eq!(saturate_u16(70_000), u16::MAX);
    assert_eq!(saturate_u16(7), 7);
    assert_eq!(leave_horizon_type(true, false, false), Some(LeaveHorizonType::Player));
    assert_eq!(leave_horizon_type(false, true, false), Some(LeaveHorizonType::Mob));
    assert_eq!(leave_horizon_type(false, false, true), Some(LeaveHorizonType::Mob));
    assert_eq!(leave_horizon_type(true, true, false), None);
    assert_eq!(missile_despawn(MissileDespawnType::HitTerrain), (DespawnType::Collided, true));
    assert_eq!(missile_despawn(MissileDespawnType::LifetimeEnded), (DespawnType::LifetimeEnded, false));
    assert_eq!(players_killed(&vec![(1, true), (2, false), (1, true), (3, true)]), vec![1, 3]);
}

#[test]
fn spatial_queries_filter_by_layer() {
    let found = vec![(7u64, 1u16), (8, 2), (9, 1), (10, 3)];
    assert_eq!(query_layer(&found, LayerSpec::Include(1)), vec![7, 9]);
    assert_eq!(query_layer(&found, LayerSpec::Exclude(1)), vec![8, 10]);
    assert_eq!(query_layer(&found, LayerSpec::AnyLayer), vec![7, 8, 9, 10]);
    assert_eq!(query_layer(&found, LayerSpec::Include(4)), Vec::<u64>::new());
    let layers = vec![2u16, 2];
    assert!(contains_layer(&layers, LayerSpec::Include(2)));
    assert!(!contains_layer(&layers, LayerSpec::Exclude(2)));
    assert!(contains_layer(&layers, LayerSpec::AnyLayer));
    assert!(!contains_layer(&Vec::new(), LayerSpec::AnyLayer));
    assert!(LayerSpec::Exclude(3).matches(4));
    assert!(!LayerSpec::Include(3).matches(4));
}

#[test]
fn watchers_of_a_player() {
    let specs = vec![(1u64, Some(5u64)), (2, None), (3, Some(5)), (4, Some(6))];
    assert_eq!(watchers_of(&specs, 5), vec![1, 3]);
    assert_eq!(watchers_of(&specs, 6), vec![4]);
    assert_eq!(watchers_of(&specs, 7), Vec::<u64>::new());
}

#[test]
fn connection_events() {
    type K = ClientPacketKind;
    assert_eq!(connection_event(true, ConnEvent::Opened), ConnAction::Ignore);
    assert_eq!(connection_event(true, ConnEvent::Data(None)), ConnAction::Ignore);
    assert_eq!(connection_event(false, ConnEvent::Data(Some(K::Login))), ConnAction::Packet(PacketRoute::Login));
    assert_eq!(connection_event(false, ConnEvent::Data(Some(K::Chat))), ConnAction::Packet(PacketRoute::Drop));
    assert_eq!(connection_event(true, ConnEvent::Data(Some(K::Chat))), ConnAction::Packet(PacketRoute::Dispatch));
    assert_eq!(connection_event(true, ConnEvent::Data(Some(K::Backup))), ConnAction::Packet(PacketRoute::Ignore));
    assert_eq!(connection_event(true, ConnEvent::Closed(Some(9), true)), ConnAction::LeaveThenDespawn(9));
    assert_eq!(connection_event(true, ConnEvent::Closed(Some(9), false)), ConnAction::Ignore);
    assert_eq!(connection_event(false, ConnEvent::Closed(None, false)), ConnAction::Ignore);
}

#[test]
fn horizon_frames() {
    let mut frame = 4u64;
    let players = vec![(1u64, 2u64), (2, 5), (3, 4), (4, 5)];
    assert_eq!(horizon_frame(&mut frame, &players), vec![1, 3]);
    assert_eq!(frame, 5);
    assert_eq!(horizon_frame(&mut frame, &players), vec![1, 2, 3, 4]);
    assert_eq!(frame, 6);
    assert_eq!(spawn_frame(Some(6)), 6);
    assert_eq!(spawn_frame(None), 0);
    assert_eq!(record_new_entities(&vec![3, 7], &vec![7, 1, 5]), vec![1, 3, 5, 7]);
}

#[test]
fn missile_hits_skip_the_dead() {
    // (player, alive, health at or below zero after the hit)
    let entries = vec![(1u64, true, false), (2, false, true), (3, true, true), (3, true, true), (4, true, true)];
    let (hits, kills) = missile_hits(&entries);
    assert_eq!(hits, vec![1, 3, 3, 4]);
    assert_eq!(kills, vec![3, 4]);
    let (hits, kills) = missile_hits(&vec![(5u64, false, true)]);
    assert!(hits.is_empty() && kills.is_empty());
}

#[test]
fn decloak_on_hit_stops_at_first_other() {
    let s = SpecialKind::Stealth;
    let hit = vec![(1u64, Some((s, true))), (2, Some((s, true))), (3, Some((SpecialKind::Boost, true))), (4, Some((s, true)))];
    assert_eq!(prowler_decloak_on_hit(&hit), vec![1, 2]);
    assert_eq!(prowler_decloak_on_hit(&vec![(1u64, None), (2, Some((s, true)))]), Vec::<u64>::new());
    assert_eq!(prowler_decloak_on_hit(&vec![(1u64, Some((s, false)))]), Vec::<u64>::new());
}

#[test]
fn respawn_resets_flags() {
    let held = KeyState { up: true, down: false, left: true, right: false, fire: true, special: true, stealthed: true };
    let mut flags = PlayerFlags { keystate: held, alive: false, spectating: true, special_active: true, spectate_target: Some(3) };
    assert!(reset_player(&mut flags, &vec!["spawn-shield".to_string()]));
    assert_eq!(
        flags,
        PlayerFlags { keystate: KeyState::default(), alive: true, spectating: false, special_active: false, spectate_target: None }
    );
    assert!(!reset_player(&mut flags, &vec!["shield".to_string()]));
}

#[test]
fn game_config_defaults() {
    let c = GameConfig::default();
    assert!(c.default_respawn && c.allow_respawn && c.allow_damage && c.spawn_upgrades);
    assert!(!c.always_upgraded && !c.admin_enabled);
}

#[test]
fn upgrade_ignores_other_full_categories() {
    let mut u = Upgrades { unused: 1, speed: 255, defense: 0, energy: 255, missile: 255 };
    let mut prev = u;
    assert_eq!(on_upgrade_command(b"upgrade", b"2", &mut u, &mut prev), Some(UpgradeType::Defense));
    assert_eq!(u.defense, 1);
    assert_eq!(u.unused, 0);
    assert_eq!(prev, u);
}
