use cs2_demo_core::events::WinCondition;
use cs2_demo_core::protobuf_parser::{DemoMessage, GameEvent as WireGameEvent, KillEvent};
use cs2_demo_core::{CS2DemoCore, DemoError, EventExtractor};

fn varint(mut v: u32) -> Vec<u8> {
    let mut out = Vec::new();
    loop {
        let byte = (v & 0x7f) as u8;
        v >>= 7;
        if v == 0 {
            out.push(byte);
            break;
        }
        out.push(byte | 0x80);
    }
    out
}

fn string_field(s: &str) -> Vec<u8> {
    let mut out = varint(s.len() as u32);
    out.extend_from_slice(s.as_bytes());
    out
}

fn frame(tag: u32, payload: &[u8]) -> Vec<u8> {
    let mut out = varint((tag << 3) | 2);
    out.extend_from_slice(&varint(payload.len() as u32));
    out.extend_from_slice(payload);
    out
}

fn header_payload(
    version: u32,
    map: &str,
    server: &str,
    player_count: u32,
    tick_count: u32,
    duration_seconds: u32,
) -> Vec<u8> {
    let mut p = varint(version);
    p.extend_from_slice(&string_field(map));
    p.extend_from_slice(&string_field(server));
    p.extend_from_slice(&varint(player_count));
    p.extend_from_slice(&varint(tick_count));
    p.extend_from_slice(&varint(duration_seconds));
    p
}

fn player_payload(steam_id: u32, name: &str, team: u32) -> Vec<u8> {
    let mut p = varint(steam_id);
    p.extend_from_slice(&string_field(name));
    p.extend_from_slice(&varint(team));
    p.extend_from_slice(&varint(0));
    p.extend_from_slice(&varint(0));
    p.extend_from_slice(&varint(0));
    p
}

fn kill_payload(
    tick: u32,
    killer: &str,
    victim: &str,
    weapon: &str,
    headshot: bool,
    killer_team: u32,
    victim_team: u32,
) -> Vec<u8> {
    let mut p = varint(1);
    p.extend_from_slice(&varint(tick));
    p.extend_from_slice(&string_field(killer));
    p.extend_from_slice(&string_field(victim));
    p.extend_from_slice(&string_field(weapon));
    p.extend_from_slice(&varint(if headshot { 1 } else { 0 }));
    p.extend_from_slice(&varint(killer_team));
    p.extend_from_slice(&varint(victim_team));
    p
}

fn round_payload(
    number: u32,
    winner_team: u32,
    reason: u32,
    t_score: u32,
    ct_score: u32,
    start_tick: u32,
    end_tick: u32,
) -> Vec<u8> {
    let mut p = varint(number);
    p.extend_from_slice(&varint(winner_team));
    p.extend_from_slice(&varint(reason));
    p.extend_from_slice(&varint(t_score));
    p.extend_from_slice(&varint(ct_score));
    p.extend_from_slice(&varint(start_tick));
    p.extend_from_slice(&varint(end_tick));
    p
}

fn signature() -> Vec<u8> {
    b"PBDEMS2\0".to_vec()
}

#[test]
fn test_decode_rejects_short_buffer() {
    let core = CS2DemoCore::new();
    assert_eq!(core.parse_bytes(&[]).unwrap_err(), DemoError::InvalidFormat);
    assert_eq!(core.parse_bytes(b"PBDEMS2").unwrap_err(), DemoError::InvalidFormat);
    assert_eq!(core.parse_bytes(b"INVALID\0more data").unwrap_err(), DemoError::InvalidFormat);
}

#[test]
fn test_decode_signature_only_is_empty_model() {
    let core = CS2DemoCore::new();
    let events = core.parse_bytes(&signature()).unwrap();
    assert_eq!(events.kills.len(), 0);
    assert_eq!(events.headshots.len(), 0);
    assert_eq!(events.clutches.len(), 0);
    assert_eq!(events.rounds.len(), 0);
    assert_eq!(events.players.len(), 0);
    assert_eq!(events.metadata.map, "");
    assert_eq!(events.metadata.version, "");
    assert_eq!(events.metadata.duration_seconds, 0);
    assert_eq!(events.stats.total_kills, 0);
    assert_eq!(events.stats.total_rounds, 0);
    assert_eq!(events.stats.avg_kills_per_round_centi, 0);
    assert_eq!(events.skipped_frames, 0);
}

#[test]
fn test_decode_oversized_frame_is_corrupted() {
    let core = CS2DemoCore::new();
    let mut data = signature();
    // frame header: tag 1, length-delimited, declared length far past the end
    data.extend_from_slice(&varint((1 << 3) | 2));
    data.extend_from_slice(&varint(1000));
    data.push(0);
    assert_eq!(core.parse_bytes(&data).unwrap_err(), DemoError::Corrupted);
}

#[test]
fn test_decode_header_metadata() {
    let core = CS2DemoCore::new();
    let mut data = signature();
    data.extend_from_slice(&frame(1, &header_payload(2, "de_mirage", "SourceTV", 10, 6400, 120)));
    let events = core.parse_bytes(&data).unwrap();
    assert_eq!(events.metadata.map, "de_mirage");
    assert_eq!(events.metadata.server, "SourceTV");
    assert_eq!(events.metadata.version, "2");
    assert_eq!(events.metadata.ticks, 6400);
    assert_eq!(events.metadata.duration_seconds, 120);
    assert_eq!(events.stats.duration_minutes, 2);
}

#[test]
fn test_decode_kill_and_headshot_pairing() {
    let core = CS2DemoCore::new();
    let mut data = signature();
    data.extend_from_slice(&frame(3, &player_payload(11, "Alice", 2)));
    data.extend_from_slice(&frame(3, &player_payload(22, "Bob", 3)));
    data.extend_from_slice(&frame(2, &kill_payload(100, "Alice", "Bob", "ak47", true, 2, 3)));
    data.extend_from_slice(&frame(2, &kill_payload(200, "Bob", "Alice", "deagle", false, 3, 2)));
    let events = core.parse_bytes(&data).unwrap();
    assert_eq!(events.kills.len(), 2);
    assert_eq!(events.headshots.len(), 1);
    let hs = &events.headshots[0];
    let k = &events.kills[0];
    assert!(k.headshot);
    assert_eq!(hs.shooter, k.killer);
    assert_eq!(hs.target, k.victim);
    assert_eq!(hs.weapon, k.weapon);
    assert_eq!(hs.round, k.round);
    assert_eq!(hs.tick, k.tick);
    let alice = events.get_player_stats("Alice").unwrap();
    assert_eq!(alice.kills, 1);
    assert_eq!(alice.deaths, 1);
    assert_eq!(alice.headshot_kills, 1);
    assert_eq!(alice.headshot_percentage_centi, 10000);
    assert_eq!(alice.kdr_centi, 100);
    assert_eq!(events.stats.total_kills, 2);
    assert_eq!(events.stats.total_headshots, 1);
}

#[test]
fn test_decode_clutch_scenario() {
    // Alice and Bob on opposing sides; four kills reduce Bob's side to
    // Bob alone; Bob's side then wins the round by elimination.
    let core = CS2DemoCore::new();
    let mut data = signature();
    data.extend_from_slice(&frame(3, &player_payload(11, "Alice", 2)));
    data.extend_from_slice(&frame(3, &player_payload(22, "Bob", 3)));
    data.extend_from_slice(&frame(2, &kill_payload(100, "Alice", "Carol", "ak47", false, 2, 3)));
    data.extend_from_slice(&frame(2, &kill_payload(110, "Alice", "Dave", "ak47", false, 2, 3)));
    data.extend_from_slice(&frame(2, &kill_payload(120, "Alice", "Eve", "ak47", false, 2, 3)));
    data.extend_from_slice(&frame(2, &kill_payload(130, "Alice", "Frank", "ak47", false, 2, 3)));
    data.extend_from_slice(&frame(4, &round_payload(1, 3, 1, 0, 1, 0, 640)));
    let events = core.parse_bytes(&data).unwrap();
    assert_eq!(events.clutches.len(), 1);
    let c = &events.clutches[0];
    assert_eq!(c.player, "Bob");
    assert!(c.successful);
    assert_eq!(c.enemies, 5);
    assert_eq!(c.round, 1);
    assert_eq!(c.start_tick, 130);
    assert_eq!(c.end_tick, 640);
    assert_eq!(events.rounds.len(), 1);
    assert_eq!(events.rounds[0].winner, "CT");
    assert!(matches!(events.rounds[0].win_condition, WinCondition::Elimination));
}

#[test]
fn test_decode_failed_clutch() {
    // The same situation, but the survivor's side loses the round.
    let core = CS2DemoCore::new();
    let mut data = signature();
    data.extend_from_slice(&frame(3, &player_payload(22, "Bob", 3)));
    data.extend_from_slice(&frame(2, &kill_payload(100, "Alice", "Carol", "ak47", false, 2, 3)));
    data.extend_from_slice(&frame(2, &kill_payload(110, "Alice", "Dave", "ak47", false, 2, 3)));
    data.extend_from_slice(&frame(2, &kill_payload(120, "Alice", "Eve", "ak47", false, 2, 3)));
    data.extend_from_slice(&frame(2, &kill_payload(130, "Alice", "Frank", "ak47", false, 2, 3)));
    data.extend_from_slice(&frame(4, &round_payload(1, 2, 2, 1, 0, 0, 640)));
    let events = core.parse_bytes(&data).unwrap();
    assert_eq!(events.clutches.len(), 1);
    let c = &events.clutches[0];
    assert_eq!(c.player, "Bob");
    assert!(!c.successful);
    assert_eq!(events.rounds[0].winner, "T");
    assert!(matches!(events.rounds[0].win_condition, WinCondition::BombExploded));
}

#[test]
fn test_decode_zero_rounds_zero_average() {
    let core = CS2DemoCore::new();
    let mut data = signature();
    data.extend_from_slice(&frame(2, &kill_payload(100, "Alice", "Bob", "ak47", false, 2, 3)));
    let events = core.parse_bytes(&data).unwrap();
    assert_eq!(events.stats.total_kills, 1);
    assert_eq!(events.stats.total_rounds, 0);
    assert_eq!(events.stats.avg_kills_per_round_centi, 0);
}

#[test]
fn test_decode_unknown_tags_ignored() {
    let core = CS2DemoCore::new();
    let mut plain = signature();
    let mut noisy = signature();
    let kill = frame(2, &kill_payload(100, "Alice", "Bob", "ak47", true, 2, 3));
    let round = frame(4, &round_payload(1, 2, 1, 1, 0, 0, 640));
    noisy.extend_from_slice(&frame(99, b"mystery bytes"));
    plain.extend_from_slice(&kill);
    noisy.extend_from_slice(&kill);
    noisy.extend_from_slice(&frame(77, b""));
    plain.extend_from_slice(&round);
    noisy.extend_from_slice(&round);
    let a = core.parse_bytes(&plain).unwrap();
    let b = core.parse_bytes(&noisy).unwrap();
    assert_eq!(a.kills.len(), b.kills.len());
    assert_eq!(a.headshots.len(), b.headshots.len());
    assert_eq!(a.rounds.len(), b.rounds.len());
    assert_eq!(a.clutches.len(), b.clutches.len());
    assert_eq!(a.stats.total_kills, b.stats.total_kills);
    assert_eq!(b.skipped_frames, 0);
    assert_eq!(b.kills[0].killer, a.kills[0].killer);
}

#[test]
fn test_decode_bad_known_payload_skipped() {
    // A known tag whose payload does not parse is kept as a diagnostic
    // and the rest of the stream still decodes.
    let core = CS2DemoCore::new();
    let mut data = signature();
    data.extend_from_slice(&frame(3, b"\xff\xff"));
    data.extend_from_slice(&frame(2, &kill_payload(100, "Alice", "Bob", "ak47", false, 2, 3)));
    let events = core.parse_bytes(&data).unwrap();
    assert_eq!(events.kills.len(), 1);
    assert_eq!(events.skipped_frames, 1);
}

#[test]
fn test_decode_deterministic() {
    let core = CS2DemoCore::new();
    let mut data = signature();
    data.extend_from_slice(&frame(1, &header_payload(2, "de_nuke", "SourceTV", 10, 640, 60)));
    data.extend_from_slice(&frame(3, &player_payload(11, "Alice", 2)));
    data.extend_from_slice(&frame(2, &kill_payload(100, "Alice", "Bob", "awp", true, 2, 3)));
    data.extend_from_slice(&frame(4, &round_payload(1, 2, 1, 1, 0, 0, 640)));
    let a = core.parse_bytes(&data).unwrap();
    let b = core.parse_bytes(&data).unwrap();
    assert_eq!(a.kills.len(), b.kills.len());
    assert_eq!(a.kills[0].killer, b.kills[0].killer);
    assert_eq!(a.kills[0].tick, b.kills[0].tick);
    assert_eq!(a.headshots.len(), b.headshots.len());
    assert_eq!(a.rounds[0].winner, b.rounds[0].winner);
    assert_eq!(a.stats, b.stats);
    assert_eq!(a.metadata.map, b.metadata.map);
}

#[test]
fn test_all_events_sorted_by_tick() {
    let core = CS2DemoCore::new();
    let mut data = signature();
    data.extend_from_slice(&frame(2, &kill_payload(500, "Alice", "Bob", "ak47", false, 2, 3)));
    data.extend_from_slice(&frame(2, &kill_payload(100, "Bob", "Carol", "awp", true, 3, 2)));
    data.extend_from_slice(&frame(4, &round_payload(1, 2, 1, 1, 0, 0, 640)));
    let events = core.parse_bytes(&data).unwrap();
    let all = events.all_events();
    assert_eq!(all.len(), 4);
    let ticks: Vec<u32> = all
        .iter()
        .map(|e| match e {
            cs2_demo_core::GameEvent::Kill(k) => k.tick,
            cs2_demo_core::GameEvent::Headshot(h) => h.tick,
            cs2_demo_core::GameEvent::Clutch(c) => c.start_tick,
            cs2_demo_core::GameEvent::Round(r) => r.start_tick,
        })
        .collect();
    assert_eq!(ticks, vec![0, 100, 100, 500]);
    let per_round = events.events_for_round(1);
    assert_eq!(per_round.len(), 4);
    let none = events.events_for_round(2);
    assert_eq!(none.len(), 0);
}

#[test]
fn test_top_fraggers_order() {
    let core = CS2DemoCore::new();
    let mut data = signature();
    data.extend_from_slice(&frame(3, &player_payload(11, "Alice", 2)));
    data.extend_from_slice(&frame(3, &player_payload(22, "Bob", 3)));
    data.extend_from_slice(&frame(3, &player_payload(33, "Carol", 2)));
    data.extend_from_slice(&frame(2, &kill_payload(10, "Bob", "Alice", "ak47", false, 3, 2)));
    data.extend_from_slice(&frame(2, &kill_payload(20, "Bob", "Carol", "ak47", false, 3, 2)));
    data.extend_from_slice(&frame(2, &kill_payload(30, "Carol", "Bob", "awp", false, 2, 3)));
    let events = core.parse_bytes(&data).unwrap();
    let top = events.top_fraggers(2);
    assert_eq!(top.len(), 2);
    assert_eq!(top[0].0, "Bob");
    assert_eq!(top[0].1, 2);
    assert_eq!(top[1].0, "Carol");
    assert_eq!(top[1].1, 1);
    let all = events.top_fraggers(10);
    assert_eq!(all.len(), 3);
    assert_eq!(all[2].0, "Alice");
    assert_eq!(all[2].1, 0);
}

#[test]
fn test_self_and_team_kills_not_credited() {
    let core = CS2DemoCore::new();
    let mut data = signature();
    data.extend_from_slice(&frame(3, &player_payload(11, "Alice", 2)));
    data.extend_from_slice(&frame(3, &player_payload(33, "Carol", 2)));
    // Alice kills her own teammate, then herself
    data.extend_from_slice(&frame(2, &kill_payload(10, "Alice", "Carol", "ak47", false, 2, 2)));
    data.extend_from_slice(&frame(2, &kill_payload(20, "Alice", "Alice", "hegrenade", false, 2, 2)));
    let events = core.parse_bytes(&data).unwrap();
    let alice = events.get_player_stats("Alice").unwrap();
    assert_eq!(alice.kills, 0);
    assert_eq!(alice.deaths, 1);
    let carol = events.get_player_stats("Carol").unwrap();
    assert_eq!(carol.deaths, 1);
    assert!(events.get_player_stats("Bob").is_none());
}

#[test]
fn test_extract_events_direct() {
    let mut extractor = EventExtractor::new();
    let messages = vec![DemoMessage::GameEvent(WireGameEvent {
        event_type: 1,
        tick: 7,
        kill: Some(KillEvent {
            killer: "A".to_string(),
            victim: "B".to_string(),
            weapon: "knife".to_string(),
            headshot: false,
            killer_team: 2,
            victim_team: 3,
        }),
    })];
    let ev = extractor.extract_events(messages).unwrap();
    assert_eq!(ev.kills.len(), 1);
    assert_eq!(ev.kills[0].killer, "A");
    assert_eq!(ev.kills[0].round, 1);
    assert_eq!(ev.kills[0].tick, 7);
    assert_eq!(ev.headshots.len(), 0);
}

#[test]
fn test_parse_all_wire_kinds() {
    let mut data = signature();
    // a length-delimited frame with an unknown tag
    data.extend_from_slice(&frame(99, b"xyz"));
    // a varint frame: tag 7, wire kind 0, value 300
    data.extend_from_slice(&varint((7 << 3) | 0));
    data.extend_from_slice(&varint(300));
    // a four-byte frame: tag 8, wire kind 5
    data.extend_from_slice(&varint((8 << 3) | 5));
    data.extend_from_slice(&[1, 2, 3, 4]);
    // an eight-byte frame: tag 9, wire kind 1
    data.extend_from_slice(&varint((9 << 3) | 1));
    data.extend_from_slice(&[5, 6, 7, 8, 9, 10, 11, 12]);
    // a reserved wire kind: one skipped byte
    data.push(0xFF);
    let mut parser = cs2_demo_core::ProtobufParser::new(data);
    let messages = parser.parse_all().unwrap();
    assert_eq!(messages.len(), 4);
    match &messages[0] {
        DemoMessage::Unknown { field_id, data } => {
            assert_eq!(*field_id, 99);
            assert_eq!(data, b"xyz");
        }
        _ => panic!("expected an unknown frame"),
    }
    match &messages[1] {
        DemoMessage::Unknown { field_id, data } => {
            assert_eq!(*field_id, 7);
            assert_eq!(data, &varint(300));
        }
        _ => panic!("expected an unknown frame"),
    }
    match &messages[2] {
        DemoMessage::Unknown { field_id, data } => {
            assert_eq!(*field_id, 8);
            assert_eq!(data, &[1, 2, 3, 4]);
        }
        _ => panic!("expected an unknown frame"),
    }
    match &messages[3] {
        DemoMessage::Unknown { field_id, data } => {
            assert_eq!(*field_id, 9);
            assert_eq!(data, &[5, 6, 7, 8, 9, 10, 11, 12]);
        }
        _ => panic!("expected an unknown frame"),
    }
}

#[test]
fn test_event_extractor_creation() {
    let extractor = EventExtractor::new();
    assert_eq!(extractor.current_round, 0);
    assert_eq!(extractor.current_tick, 0);
}

#[test]
fn test_determine_win_condition() {
    let extractor = EventExtractor::new();

    assert!(matches!(extractor.determine_win_condition(1), WinCondition::Elimination));
    assert!(matches!(extractor.determine_win_condition(2), WinCondition::BombExploded));
    assert!(matches!(extractor.determine_win_condition(3), WinCondition::BombDefused));
    assert!(matches!(extractor.determine_win_condition(99), WinCondition::Unknown));
}
