use vstd::prelude::*;

use crate::error::DemoError;
use crate::events::{
    spec_empty_events, Clutch, ClutchV, DemoEvents, DemoEventsV, DemoMetadataV, Headshot,
    HeadshotV, Kill, KillV, MatchStats, Player, PlayerV, Round, RoundV, WinCondition,
};
use crate::protobuf_parser::{
    spec_msgs_view, DemoHeader, DemoMessage, DemoMessageV, GameEvent, KillEvent, KillEventV,
    PlayerInfo, PlayerInfoV, RoundInfo, RoundInfoV,
};
use crate::utils::{
    pct_centi, ratio_centi, spec_dec_str, spec_pct_centi, spec_ratio_centi, u64_to_dec_str,
};

verus! {

/// Team label for a wire team code: 2 is `T`, 3 is `CT`, anything else
/// is `Unknown`.
pub open spec fn spec_team_label(code: u32) -> Seq<char> {
    if code == 2 {
        "T"@
    } else if code == 3 {
        "CT"@
    } else {
        "Unknown"@
    }
}

/// The team label as an owned string.
fn team_label(code: u32) -> (r: String)
    ensures
        r@ == spec_team_label(code),
{
    if code == 2 {
        "T".to_owned()
    } else if code == 3 {
        "CT".to_owned()
    } else {
        "Unknown".to_owned()
    }
}

/// Win condition for a wire reason code.
pub open spec fn spec_win_condition(reason: u32) -> WinCondition {
    if reason == 1 {
        WinCondition::Elimination
    } else if reason == 2 {
        WinCondition::BombExploded
    } else if reason == 3 {
        WinCondition::BombDefused
    } else if reason == 4 {
        WinCondition::TimeExpired
    } else if reason == 5 {
        WinCondition::TargetSaved
    } else if reason == 6 {
        WinCondition::HostageRescued
    } else {
        WinCondition::Unknown
    }
}

/// Add one, staying at the largest value instead of wrapping.
pub open spec fn spec_sat_inc_u32(a: u32) -> u32 {
    if a < u32::MAX {
        (a + 1) as u32
    } else {
        a
    }
}

/// Add one, staying at the largest value instead of wrapping.
pub open spec fn spec_sat_inc_u64(a: u64) -> u64 {
    if a < u64::MAX {
        (a + 1) as u64
    } else {
        a
    }
}

/// Subtract one, staying at zero instead of wrapping.
pub open spec fn spec_sat_dec_u64(a: u64) -> u64 {
    if a > 0 {
        (a - 1) as u64
    } else {
        0
    }
}

/// Subtract, staying at zero instead of wrapping.
pub open spec fn spec_sat_sub_u32(a: u32, b: u32) -> u32 {
    if a >= b {
        (a - b) as u32
    } else {
        0
    }
}

fn sat_inc_u32(a: u32) -> (r: u32)
    ensures
        r == spec_sat_inc_u32(a),
{
    if a < u32::MAX {
        a + 1
    } else {
        a
    }
}

fn sat_inc_u64(a: u64) -> (r: u64)
    ensures
        r == spec_sat_inc_u64(a),
{
    if a < u64::MAX {
        a + 1
    } else {
        a
    }
}

fn sat_dec_u64(a: u64) -> (r: u64)
    ensures
        r == spec_sat_dec_u64(a),
{
    if a > 0 {
        a - 1
    } else {
        0
    }
}

fn sat_sub_u32(a: u32, b: u32) -> (r: u32)
    ensures
        r == spec_sat_sub_u32(a, b),
{
    if a >= b {
        a - b
    } else {
        0
    }
}

/// View of a player vector as a sequence of player values.
pub open spec fn spec_players_view(s: Seq<Player>) -> Seq<PlayerV> {
    s.map_values(|p: Player| p@)
}

/// View of a string vector as a sequence of character sequences.
pub open spec fn spec_strs_view(s: Seq<String>) -> Seq<Seq<char>> {
    s.map_values(|x: String| x@)
}

/// Index of the first player named `name` at or after `i`, or -1.
pub open spec fn spec_find_player(players: Seq<PlayerV>, name: Seq<char>, i: int) -> int
    decreases players.len() - i,
{
    if i < 0 || i >= players.len() {
        -1
    } else if players[i].name == name {
        i
    } else {
        spec_find_player(players, name, i + 1)
    }
}

/// Count of players on the side labelled `label`, from `i` on.
pub open spec fn spec_count_team(players: Seq<PlayerV>, label: Seq<char>, i: int) -> int
    decreases players.len() - i,
{
    if i < 0 || i >= players.len() {
        0
    } else {
        (if players[i].team == label {
            1int
        } else {
            0int
        }) + spec_count_team(players, label, i + 1)
    }
}

/// The alive counter a side starts a round with: the conventional five,
/// or the count of known players on that side where more are known.
pub open spec fn spec_reset_alive(players: Seq<PlayerV>, label: Seq<char>) -> u64 {
    let c = spec_count_team(players, label, 0);
    if c < 5 {
        5
    } else {
        c as u64
    }
}

/// Index of the first player at or after `i` on the side labelled
/// `label` who is not among this round's dead, or -1.
pub open spec fn spec_find_candidate(
    players: Seq<PlayerV>,
    label: Seq<char>,
    deaths: Seq<Seq<char>>,
    i: int,
) -> int
    decreases players.len() - i,
{
    if i < 0 || i >= players.len() {
        -1
    } else if players[i].team == label && !deaths.contains(players[i].name) {
        i
    } else {
        spec_find_candidate(players, label, deaths, i + 1)
    }
}

/// A clutch situation that has opened but whose round has not ended yet.
pub struct PendingClutch {
    /// Name of the lone survivor.
    pub player: String,
    /// Opposing players alive when the survivor became the last.
    pub enemies: u64,
    /// Tick at which the survivor became the last of their side.
    pub start_tick: u32,
    /// Side label of the survivor.
    pub side: String,
}

/// Mathematical value of a `PendingClutch`.
pub struct PendingClutchV {
    pub player: Seq<char>,
    pub enemies: u64,
    pub start_tick: u32,
    pub side: Seq<char>,
}

impl View for PendingClutch {
    type V = PendingClutchV;

    open spec fn view(&self) -> PendingClutchV {
        PendingClutchV {
            player: self.player@,
            enemies: self.enemies,
            start_tick: self.start_tick,
            side: self.side@,
        }
    }
}

/// Mathematical value of the extractor's own fold state.
pub struct ExtractorV {
    pub header_seen: bool,
    pub current_round: u32,
    pub current_tick: u32,
    pub alive_t: u64,
    pub alive_ct: u64,
    pub pending_clutch: Option<PendingClutchV>,
    pub clutch_done: bool,
    pub deaths_this_round: Seq<Seq<char>>,
}

/// The whole state of the extraction fold: the model built so far and
/// the extractor's per-round bookkeeping.
pub struct ExtractStateV {
    pub events: DemoEventsV,
    pub x: ExtractorV,
}

/// The extractor's state before any message: no header seen, round and
/// tick at zero, both sides at the conventional five alive.
pub open spec fn spec_fresh_extractor() -> ExtractorV {
    ExtractorV {
        header_seen: false,
        current_round: 0,
        current_tick: 0,
        alive_t: 5,
        alive_ct: 5,
        pending_clutch: None,
        clutch_done: false,
        deaths_this_round: Seq::empty(),
    }
}

/// A player record as first seen: descriptive fields from the record,
/// every counter at zero.
pub open spec fn spec_new_player(pi: PlayerInfoV) -> PlayerV {
    PlayerV {
        name: pi.name,
        steam_id: Some(pi.steam_id),
        team: spec_team_label(pi.team),
        kills: 0,
        deaths: 0,
        assists: 0,
        headshot_kills: 0,
        headshot_percentage_centi: 0,
        adr_centi: 0,
        kdr_centi: 0,
    }
}

/// Effect of a header record: the first one fills the metadata; later
/// ones change nothing.
pub open spec fn spec_apply_header(s: ExtractStateV, h: crate::protobuf_parser::DemoHeaderV) -> ExtractStateV {
    if s.x.header_seen {
        s
    } else {
        ExtractStateV {
            events: DemoEventsV {
                metadata: DemoMetadataV {
                    filename: s.events.metadata.filename,
                    version: spec_dec_str(h.version as u64),
                    map: h.map_name,
                    server: h.server_name,
                    duration_seconds: h.duration_seconds,
                    ticks: h.tick_count,
                    start_time: None,
                },
                ..s.events
            },
            x: ExtractorV { header_seen: true, ..s.x },
        }
    }
}

/// Effect of a player record: a new name is appended with zeroed
/// counters; a known name has only its descriptive fields refreshed.
pub open spec fn spec_apply_player_info(s: ExtractStateV, pi: PlayerInfoV) -> ExtractStateV {
    let players = s.events.players;
    let i = spec_find_player(players, pi.name, 0);
    let players2 = if i < 0 {
        players.push(spec_new_player(pi))
    } else {
        players.update(
            i,
            PlayerV { steam_id: Some(pi.steam_id), team: spec_team_label(pi.team), ..players[i] },
        )
    };
    ExtractStateV { events: DemoEventsV { players: players2, ..s.events }, ..s }
}

/// One more death for the named player, when the name is known.
pub open spec fn spec_bump_deaths(players: Seq<PlayerV>, name: Seq<char>) -> Seq<PlayerV> {
    let i = spec_find_player(players, name, 0);
    if i < 0 {
        players
    } else {
        players.update(i, PlayerV { deaths: spec_sat_inc_u64(players[i].deaths), ..players[i] })
    }
}

/// One more credited kill for the named player, when the name is known;
/// a headshot kill also counts toward the headshot counter.
pub open spec fn spec_bump_kills(players: Seq<PlayerV>, name: Seq<char>, headshot: bool) -> Seq<
    PlayerV,
> {
    let i = spec_find_player(players, name, 0);
    if i < 0 {
        players
    } else {
        players.update(
            i,
            PlayerV {
                kills: spec_sat_inc_u64(players[i].kills),
                headshot_kills: if headshot {
                    spec_sat_inc_u64(players[i].headshot_kills)
                } else {
                    players[i].headshot_kills
                },
                ..players[i]
            },
        )
    }
}

/// Whether a kill is credited to the killer: self-kills and kills
/// within one known side count a death but no kill.
pub open spec fn spec_kill_credited(k: KillEventV) -> bool {
    k.killer != k.victim && !(k.killer_team == k.victim_team && (k.killer_team == 2
        || k.killer_team == 3))
}

/// Effect of one kill at `tick`: the kill record is appended (with a
/// paired headshot record when flagged), the victim's death counter and
/// the killer's kill counter move, the victim's side loses one alive,
/// and, when that leaves exactly one survivor against at least two
/// opponents and no clutch is open yet this round, a clutch situation
/// opens for the first known survivor of the reduced side.
pub open spec fn spec_apply_kill(s: ExtractStateV, tick: u32, k: KillEventV) -> ExtractStateV {
    let round1 = spec_sat_inc_u32(s.x.current_round);
    let kill = KillV {
        killer: k.killer,
        victim: k.victim,
        weapon: k.weapon,
        headshot: k.headshot,
        round: round1,
        tick,
    };
    let kills2 = s.events.kills.push(kill);
    let headshots2 = if k.headshot {
        s.events.headshots.push(
            HeadshotV { shooter: k.killer, target: k.victim, weapon: k.weapon, round: round1, tick },
        )
    } else {
        s.events.headshots
    };
    let players1 = spec_bump_deaths(s.events.players, k.victim);
    let players2 = if spec_kill_credited(k) {
        spec_bump_kills(players1, k.killer, k.headshot)
    } else {
        players1
    };
    let deaths2 = s.x.deaths_this_round.push(k.victim);
    let alive_t2 = if k.victim_team == 2 {
        spec_sat_dec_u64(s.x.alive_t)
    } else {
        s.x.alive_t
    };
    let alive_ct2 = if k.victim_team == 3 {
        spec_sat_dec_u64(s.x.alive_ct)
    } else {
        s.x.alive_ct
    };
    let base = ExtractStateV {
        events: DemoEventsV { kills: kills2, headshots: headshots2, players: players2, ..s.events },
        x: ExtractorV {
            deaths_this_round: deaths2,
            alive_t: alive_t2,
            alive_ct: alive_ct2,
            ..s.x
        },
    };
    if k.victim_team == 2 || k.victim_team == 3 {
        let reduced = if k.victim_team == 2 {
            alive_t2
        } else {
            alive_ct2
        };
        let other = if k.victim_team == 2 {
            alive_ct2
        } else {
            alive_t2
        };
        if !s.x.clutch_done && reduced == 1 && other >= 2 {
            let label = spec_team_label(k.victim_team);
            let ci = spec_find_candidate(players2, label, deaths2, 0);
            if ci >= 0 {
                ExtractStateV {
                    x: ExtractorV {
                        pending_clutch: Some(
                            PendingClutchV {
                                player: players2[ci].name,
                                enemies: other,
                                start_tick: tick,
                                side: label,
                            },
                        ),
                        clutch_done: true,
                        ..base.x
                    },
                    ..base
                }
            } else {
                base
            }
        } else {
            base
        }
    } else {
        base
    }
}

/// Effect of a game-event record: the tick advances; a kill event also
/// has its kill applied.
pub open spec fn spec_apply_game_event(s: ExtractStateV, g: crate::protobuf_parser::GameEventV) -> ExtractStateV {
    let s1 = ExtractStateV { x: ExtractorV { current_tick: g.tick, ..s.x }, ..s };
    match g.kill {
        None => s1,
        Some(k) => spec_apply_kill(s1, g.tick, k),
    }
}

/// Effect of a round record: the finished round is appended, an open
/// clutch is resolved against the round's winner, and the per-round
/// state is reset for the next round.
pub open spec fn spec_apply_round(s: ExtractStateV, r: RoundInfoV) -> ExtractStateV {
    let winner = spec_team_label(r.winner_team);
    let duration = spec_sat_sub_u32(r.end_tick, r.start_tick) / 64;
    let round = RoundV {
        number: r.round_number,
        winner,
        t_score: r.t_score,
        ct_score: r.ct_score,
        duration_seconds: duration,
        start_tick: r.start_tick,
        end_tick: r.end_tick,
        win_condition: spec_win_condition(r.reason),
    };
    let rounds2 = s.events.rounds.push(round);
    let clutches2 = match s.x.pending_clutch {
        Some(c) => s.events.clutches.push(
            ClutchV {
                player: c.player,
                enemies: c.enemies,
                successful: c.side == winner,
                round: r.round_number,
                start_tick: c.start_tick,
                end_tick: r.end_tick,
                duration_seconds: spec_sat_sub_u32(r.end_tick, c.start_tick) / 64,
            },
        ),
        None => s.events.clutches,
    };
    ExtractStateV {
        events: DemoEventsV { rounds: rounds2, clutches: clutches2, ..s.events },
        x: ExtractorV {
            current_round: spec_sat_inc_u32(s.x.current_round),
            current_tick: r.end_tick,
            alive_t: spec_reset_alive(s.events.players, "T"@),
            alive_ct: spec_reset_alive(s.events.players, "CT"@),
            pending_clutch: None,
            clutch_done: false,
            deaths_this_round: Seq::empty(),
            ..s.x
        },
    }
}

/// Effect of an unparsed frame: one with a known tag counts as a
/// skipped-frame diagnostic; an unknown tag changes nothing.
pub open spec fn spec_apply_unknown(s: ExtractStateV, field_id: u32) -> ExtractStateV {
    if 1 <= field_id && field_id <= 4 {
        ExtractStateV {
            events: DemoEventsV {
                skipped_frames: spec_sat_inc_u64(s.events.skipped_frames),
                ..s.events
            },
            ..s
        }
    } else {
        s
    }
}

/// One step of the extraction fold.
pub open spec fn spec_step(s: ExtractStateV, m: DemoMessageV) -> ExtractStateV {
    match m {
        DemoMessageV::Header(h) => spec_apply_header(s, h),
        DemoMessageV::GameEvent(g) => spec_apply_game_event(s, g),
        DemoMessageV::PlayerInfo(pi) => spec_apply_player_info(s, pi),
        DemoMessageV::RoundInfo(r) => spec_apply_round(s, r),
        DemoMessageV::Unknown { field_id, data: _ } => spec_apply_unknown(s, field_id),
    }
}

/// The extraction fold over an ordered message sequence.
pub open spec fn spec_extract(msgs: Seq<DemoMessageV>, s: ExtractStateV) -> ExtractStateV
    decreases msgs.len(),
{
    if msgs.len() == 0 {
        s
    } else {
        spec_extract(msgs.drop_first(), spec_step(s, msgs[0]))
    }
}

/// The derived player rates, recomputed from the complete counters:
/// every division is guarded, a zero denominator yields zero.
pub open spec fn spec_finalize_players(players: Seq<PlayerV>) -> Seq<PlayerV> {
    players.map_values(
        |p: PlayerV| PlayerV {
            headshot_percentage_centi: spec_pct_centi(p.headshot_kills, p.kills),
            adr_centi: 0,
            kdr_centi: spec_ratio_centi(p.kills, p.deaths),
            ..p
        },
    )
}

/// The finalization pass at the end of the fold: player rates are
/// derived, and the final per-side score is taken from the last round.
pub open spec fn spec_finalize(ev: DemoEventsV) -> DemoEventsV {
    DemoEventsV {
        players: spec_finalize_players(ev.players),
        stats: MatchStats {
            final_t_score: if ev.rounds.len() > 0 {
                ev.rounds.last().t_score
            } else {
                0
            },
            final_ct_score: if ev.rounds.len() > 0 {
                ev.rounds.last().ct_score
            } else {
                0
            },
            ..ev.stats
        },
        ..ev
    }
}

/// The whole extraction: fold the messages over a fresh model from the
/// given extractor state, then finalize.
pub open spec fn spec_extract_events_from(msgs: Seq<DemoMessageV>, x: ExtractorV) -> DemoEventsV {
    spec_finalize(spec_extract(msgs, ExtractStateV { events: spec_empty_events(), x }).events)
}

/// The whole extraction from a fresh extractor.
pub open spec fn spec_extract_events(msgs: Seq<DemoMessageV>) -> DemoEventsV {
    spec_extract_events_from(msgs, spec_fresh_extractor())
}

/// The headshot record paired with a kill.
pub open spec fn spec_kill_to_headshot(k: KillV) -> HeadshotV {
    HeadshotV { shooter: k.killer, target: k.victim, weapon: k.weapon, round: k.round, tick: k.tick }
}

/// The headshot records a kill list owes: one per kill flagged as a
/// headshot, with the same names, weapon, round and tick, in order.
pub open spec fn spec_headshots_of(kills: Seq<KillV>) -> Seq<HeadshotV> {
    kills.filter(|k: KillV| k.headshot).map_values(|k: KillV| spec_kill_to_headshot(k))
}

/// One fold step keeps the headshot list paired with the kill list.
proof fn lemma_step_preserves_pairing(s: ExtractStateV, m: DemoMessageV)
    requires
        s.events.headshots == spec_headshots_of(s.events.kills),
    ensures
        spec_step(s, m).events.headshots == spec_headshots_of(spec_step(s, m).events.kills),
{
    reveal(Seq::filter);
    match m {
        DemoMessageV::GameEvent(g) => {
            match g.kill {
                Some(k) => {
                    let round1 = spec_sat_inc_u32(s.x.current_round);
                    let kill = KillV {
                        killer: k.killer,
                        victim: k.victim,
                        weapon: k.weapon,
                        headshot: k.headshot,
                        round: round1,
                        tick: g.tick,
                    };
                    let kills2 = s.events.kills.push(kill);
                    assert(kills2.drop_last() =~= s.events.kills);
                    assert(kills2.last() == kill);
                    if k.headshot {
                        assert(spec_headshots_of(kills2) =~= spec_headshots_of(
                            s.events.kills,
                        ).push(spec_kill_to_headshot(kill)));
                    } else {
                        assert(spec_headshots_of(kills2) =~= spec_headshots_of(s.events.kills));
                    }
                },
                None => (),
            }
        },
        _ => (),
    }
}

/// The whole fold keeps the headshot list paired with the kill list.
proof fn lemma_extract_preserves_pairing(msgs: Seq<DemoMessageV>, s: ExtractStateV)
    requires
        s.events.headshots == spec_headshots_of(s.events.kills),
    ensures
        spec_extract(msgs, s).events.headshots == spec_headshots_of(
            spec_extract(msgs, s).events.kills,
        ),
    decreases msgs.len(),
{
    if msgs.len() > 0 {
        lemma_step_preserves_pairing(s, msgs[0]);
        lemma_extract_preserves_pairing(msgs.drop_first(), spec_step(s, msgs[0]));
    }
}

/// Law: in every extracted model, each kill flagged as a headshot has
/// exactly one paired headshot record — same shooter, target, weapon,
/// round and tick — and the headshot list holds nothing else.
pub proof fn lemma_headshots_paired(msgs: Seq<DemoMessageV>, x: ExtractorV)
    ensures
        spec_extract_events_from(msgs, x).headshots == spec_headshots_of(
            spec_extract_events_from(msgs, x).kills,
        ),
{
    reveal(Seq::filter);
    assert(spec_headshots_of(spec_empty_events().kills) =~= spec_empty_events().headshots);
    lemma_extract_preserves_pairing(msgs, ExtractStateV { events: spec_empty_events(), x });
}

/// Whether every player name occurs only once in the list.
pub open spec fn spec_player_names_unique(players: Seq<PlayerV>) -> bool {
    forall|i: int, j: int|
        0 <= i < j < players.len() ==> (#[trigger] players[i].name) != (
        #[trigger] players[j].name)
}

/// A search lands on the name or on -1; a failed search means the name
/// is nowhere at or after `i`.
proof fn lemma_find_player_range(players: Seq<PlayerV>, name: Seq<char>, i: int)
    requires
        0 <= i,
    ensures
        spec_find_player(players, name, i) == -1 || (i <= spec_find_player(players, name, i)
            < players.len() && players[spec_find_player(players, name, i)].name == name),
        spec_find_player(players, name, i) == -1 ==> forall|j: int|
            i <= j < players.len() ==> (#[trigger] players[j].name) != name,
    decreases players.len() - i,
{
    if i < players.len() {
        lemma_find_player_range(players, name, i + 1);
    }
}

/// The update of one counter keeps every name in place.
proof fn lemma_bumps_keep_names(players: Seq<PlayerV>, name: Seq<char>, headshot: bool)
    ensures
        spec_bump_deaths(players, name).len() == players.len(),
        forall|j: int|
            0 <= j < players.len() ==> (#[trigger] spec_bump_deaths(players, name)[j].name)
                == players[j].name,
        spec_bump_kills(players, name, headshot).len() == players.len(),
        forall|j: int|
            0 <= j < players.len() ==> (#[trigger] spec_bump_kills(players, name, headshot)[
                j
            ].name) == players[j].name,
{
    lemma_find_player_range(players, name, 0);
    let i = spec_find_player(players, name, 0);
    if i >= 0 {
        assert forall|j: int|
            0 <= j < players.len() implies (#[trigger] spec_bump_deaths(players, name)[j].name)
            == players[j].name by {
            if j != i {
                assert(spec_bump_deaths(players, name)[j] == players[j]);
            }
        }
        assert forall|j: int|
            0 <= j < players.len() implies (#[trigger] spec_bump_kills(players, name, headshot)[
            j
        ].name) == players[j].name by {
            if j != i {
                assert(spec_bump_kills(players, name, headshot)[j] == players[j]);
            }
        }
    }
}

/// One fold step keeps the player names unique.
proof fn lemma_step_preserves_unique_names(s: ExtractStateV, m: DemoMessageV)
    requires
        spec_player_names_unique(s.events.players),
    ensures
        spec_player_names_unique(spec_step(s, m).events.players),
{
    match m {
        DemoMessageV::PlayerInfo(pi) => {
            let players = s.events.players;
            let i = spec_find_player(players, pi.name, 0);
            lemma_find_player_range(players, pi.name, 0);
            if i < 0 {
                let players2 = players.push(spec_new_player(pi));
                assert forall|a: int, b: int|
                    0 <= a < b < players2.len() implies (#[trigger] players2[a].name) != (
                #[trigger] players2[b].name) by {
                    if b == players.len() {
                        assert(players2[a].name == players[a].name);
                    } else {
                        assert(players2[a].name == players[a].name);
                        assert(players2[b].name == players[b].name);
                    }
                }
            } else {
                let players2 = players.update(
                    i,
                    PlayerV {
                        steam_id: Some(pi.steam_id),
                        team: spec_team_label(pi.team),
                        ..players[i]
                    },
                );
                assert forall|a: int, b: int|
                    0 <= a < b < players2.len() implies (#[trigger] players2[a].name) != (
                #[trigger] players2[b].name) by {
                    assert(players2[a].name == players[a].name);
                    assert(players2[b].name == players[b].name);
                }
            }
        },
        DemoMessageV::GameEvent(g) => {
            match g.kill {
                Some(k) => {
                    let players1 = spec_bump_deaths(s.events.players, k.victim);
                    lemma_bumps_keep_names(s.events.players, k.victim, k.headshot);
                    lemma_bumps_keep_names(players1, k.killer, k.headshot);
                },
                None => (),
            }
        },
        _ => (),
    }
}

/// The whole fold keeps the player names unique.
proof fn lemma_extract_preserves_unique_names(msgs: Seq<DemoMessageV>, s: ExtractStateV)
    requires
        spec_player_names_unique(s.events.players),
    ensures
        spec_player_names_unique(spec_extract(msgs, s).events.players),
    decreases msgs.len(),
{
    if msgs.len() > 0 {
        lemma_step_preserves_unique_names(s, msgs[0]);
        lemma_extract_preserves_unique_names(msgs.drop_first(), spec_step(s, msgs[0]));
    }
}

/// Law: the player list is a map keyed by name — in every extracted
/// model, no two entries carry the same name.
pub proof fn lemma_player_names_unique(msgs: Seq<DemoMessageV>, x: ExtractorV)
    ensures
        spec_player_names_unique(spec_extract_events_from(msgs, x).players),
{
    lemma_extract_preserves_unique_names(msgs, ExtractStateV { events: spec_empty_events(), x });
    let folded = spec_extract(msgs, ExtractStateV { events: spec_empty_events(), x }).events;
    assert forall|a: int, b: int|
        0 <= a < b < spec_finalize(folded).players.len() implies (#[trigger] spec_finalize(
        folded,
    ).players[a].name) != (#[trigger] spec_finalize(folded).players[b].name) by {
        assert(spec_finalize(folded).players[a].name == folded.players[a].name);
        assert(spec_finalize(folded).players[b].name == folded.players[b].name);
    }
}

/// Law: a message whose tag is none of the known four leaves the
/// extraction state untouched.
pub proof fn lemma_unknown_tag_step_identity(s: ExtractStateV, field_id: u32, data: Seq<u8>)
    requires
        !(1 <= field_id && field_id <= 4),
    ensures
        spec_step(s, DemoMessageV::Unknown { field_id, data }) == s,
{
}

/// Inserting one unknown-tag message anywhere leaves the fold alone.
proof fn lemma_extract_insert_unknown(
    prefix: Seq<DemoMessageV>,
    u: DemoMessageV,
    suffix: Seq<DemoMessageV>,
    s: ExtractStateV,
)
    requires
        u matches DemoMessageV::Unknown { field_id, data: _ } && !(1 <= field_id && field_id
            <= 4),
    ensures
        spec_extract(prefix + seq![u] + suffix, s) == spec_extract(prefix + suffix, s),
    decreases prefix.len(),
{
    if prefix.len() == 0 {
        let t = prefix + seq![u] + suffix;
        assert(t =~= seq![u] + suffix);
        assert(t[0] == u);
        assert(t.drop_first() =~= suffix);
        assert(spec_step(s, u) == s);
        assert(prefix + suffix =~= suffix);
    } else {
        let a = prefix + seq![u] + suffix;
        let b = prefix + suffix;
        assert(a.len() > 0 && b.len() > 0);
        assert(a[0] == prefix[0]);
        assert(b[0] == prefix[0]);
        assert(a.drop_first() =~= prefix.drop_first() + seq![u] + suffix);
        assert(b.drop_first() =~= prefix.drop_first() + suffix);
        lemma_extract_insert_unknown(prefix.drop_first(), u, suffix, spec_step(s, prefix[0]));
    }
}

/// Law: an unknown frame tag never changes the extracted model. A
/// stream with such a frame inserted anywhere yields, event for event
/// and counter for counter, the model of the stream without it.
pub proof fn lemma_unknown_tag_no_effect(
    prefix: Seq<DemoMessageV>,
    field_id: u32,
    data: Seq<u8>,
    suffix: Seq<DemoMessageV>,
    x: ExtractorV,
)
    requires
        !(1 <= field_id && field_id <= 4),
    ensures
        spec_extract_events_from(
            prefix + seq![DemoMessageV::Unknown { field_id, data }] + suffix,
            x,
        ) == spec_extract_events_from(prefix + suffix, x),
{
    lemma_extract_insert_unknown(
        prefix,
        DemoMessageV::Unknown { field_id, data },
        suffix,
        ExtractStateV { events: spec_empty_events(), x },
    );
}

/// Index of the first player with the given name, or `None`.
fn find_player(players: &Vec<Player>, name: &String) -> (r: Option<usize>)
    ensures
        match r {
            Some(i) => i < players@.len() && spec_find_player(
                spec_players_view(players@),
                name@,
                0,
            ) == i as int,
            None => spec_find_player(spec_players_view(players@), name@, 0) == -1,
        },
{
    let ghost pv = spec_players_view(players@);
    let mut i: usize = 0;
    while i < players.len()
        invariant
            i <= players@.len(),
            pv == spec_players_view(players@),
            pv.len() == players@.len(),
            spec_find_player(pv, name@, 0) == spec_find_player(pv, name@, i as int),
        decreases players@.len() - i,
    {
        if players[i].name == *name {
            proof {
                assert(pv[i as int].name == name@);
            }
            return Some(i);
        }
        proof {
            assert(pv[i as int].name != name@);
        }
        i = i + 1;
    }
    None
}

/// Count the players on the side labelled `label`.
fn count_team(players: &Vec<Player>, label: &String) -> (r: u64)
    ensures
        r as int == spec_count_team(spec_players_view(players@), label@, 0),
{
    let ghost pv = spec_players_view(players@);
    let mut count: u64 = 0;
    let mut i: usize = 0;
    while i < players.len()
        invariant
            i <= players@.len(),
            pv == spec_players_view(players@),
            pv.len() == players@.len(),
            count <= i,
            count as int + spec_count_team(pv, label@, i as int) == spec_count_team(pv, label@, 0),
        decreases players@.len() - i,
    {
        if players[i].team == *label {
            count = count + 1;
        }
        i = i + 1;
    }
    count
}

/// The alive counter a side starts a round with.
fn reset_alive(players: &Vec<Player>, label: &String) -> (r: u64)
    ensures
        r == spec_reset_alive(spec_players_view(players@), label@),
{
    let c = count_team(players, label);
    if c < 5 {
        5
    } else {
        c
    }
}

/// Whether the list of this round's dead holds the given name.
fn contains_name(deaths: &Vec<String>, name: &String) -> (r: bool)
    ensures
        r == spec_strs_view(deaths@).contains(name@),
{
    let ghost dv = spec_strs_view(deaths@);
    let mut i: usize = 0;
    while i < deaths.len()
        invariant
            i <= deaths@.len(),
            dv == spec_strs_view(deaths@),
            dv.len() == deaths@.len(),
            forall|j: int| 0 <= j < i ==> dv[j] != name@,
        decreases deaths@.len() - i,
    {
        if deaths[i] == *name {
            proof {
                assert(dv[i as int] == name@);
            }
            return true;
        }
        proof {
            assert(dv[i as int] != name@);
        }
        i = i + 1;
    }
    proof {
        assert(!dv.contains(name@));
    }
    false
}

/// Index of the first live known player on the side labelled `label`.
fn find_candidate(players: &Vec<Player>, label: &String, deaths: &Vec<String>) -> (r: Option<
    usize,
>)
    ensures
        match r {
            Some(i) => i < players@.len() && spec_find_candidate(
                spec_players_view(players@),
                label@,
                spec_strs_view(deaths@),
                0,
            ) == i as int,
            None => spec_find_candidate(
                spec_players_view(players@),
                label@,
                spec_strs_view(deaths@),
                0,
            ) == -1,
        },
{
    let ghost pv = spec_players_view(players@);
    let ghost dv = spec_strs_view(deaths@);
    let mut i: usize = 0;
    while i < players.len()
        invariant
            i <= players@.len(),
            pv == spec_players_view(players@),
            dv == spec_strs_view(deaths@),
            pv.len() == players@.len(),
            spec_find_candidate(pv, label@, dv, 0) == spec_find_candidate(
                pv,
                label@,
                dv,
                i as int,
            ),
        decreases players@.len() - i,
    {
        if players[i].team == *label && !contains_name(deaths, &players[i].name) {
            proof {
                assert(pv[i as int].team == label@ && !dv.contains(pv[i as int].name));
            }
            return Some(i);
        }
        proof {
            assert(!(pv[i as int].team == label@ && !dv.contains(pv[i as int].name)));
        }
        i = i + 1;
    }
    None
}

/// One more death for the named player, when the name is known.
fn bump_deaths(players: &mut Vec<Player>, name: &String)
    ensures
        spec_players_view(final(players)@) == spec_bump_deaths(
            spec_players_view(old(players)@),
            name@,
        ),
{
    match find_player(players, name) {
        None => (),
        Some(i) => {
            let deaths2 = sat_inc_u64(players[i].deaths);
            let p = &players[i];
            let updated = Player {
                name: p.name.clone(),
                steam_id: p.steam_id,
                team: p.team.clone(),
                kills: p.kills,
                deaths: deaths2,
                assists: p.assists,
                headshot_kills: p.headshot_kills,
                headshot_percentage_centi: p.headshot_percentage_centi,
                adr_centi: p.adr_centi,
                kdr_centi: p.kdr_centi,
            };
            players.set(i, updated);
            proof {
                assert(spec_players_view(players@) =~= spec_bump_deaths(
                    spec_players_view(old(players)@),
                    name@,
                ));
            }
        },
    }
}

/// One more credited kill for the named player, when the name is known.
fn bump_kills(players: &mut Vec<Player>, name: &String, headshot: bool)
    ensures
        spec_players_view(final(players)@) == spec_bump_kills(
            spec_players_view(old(players)@),
            name@,
            headshot,
        ),
{
    match find_player(players, name) {
        None => (),
        Some(i) => {
            let kills2 = sat_inc_u64(players[i].kills);
            let hs2 = if headshot {
                sat_inc_u64(players[i].headshot_kills)
            } else {
                players[i].headshot_kills
            };
            let p = &players[i];
            let updated = Player {
                name: p.name.clone(),
                steam_id: p.steam_id,
                team: p.team.clone(),
                kills: kills2,
                deaths: p.deaths,
                assists: p.assists,
                headshot_kills: hs2,
                headshot_percentage_centi: p.headshot_percentage_centi,
                adr_centi: p.adr_centi,
                kdr_centi: p.kdr_centi,
            };
            players.set(i, updated);
            proof {
                assert(spec_players_view(players@) =~= spec_bump_kills(
                    spec_players_view(old(players)@),
                    name@,
                    headshot,
                ));
            }
        },
    }
}

/// The stateful fold from ordered demo messages to the decoded model.
///
/// The extractor tracks the running round and tick, the per-side alive
/// counters, this round's dead, and an open clutch situation; round
/// records close a round and reset the per-round state.
pub struct EventExtractor {
    /// Whether a header record has filled the metadata already.
    pub header_seen: bool,
    /// Count of rounds closed so far.
    pub current_round: u32,
    /// Tick of the last event seen.
    pub current_tick: u32,
    /// Alive players on the terrorist side, this round.
    pub alive_t: u64,
    /// Alive players on the counter-terrorist side, this round.
    pub alive_ct: u64,
    /// An open clutch situation, resolved at the round boundary.
    pub pending_clutch: Option<PendingClutch>,
    /// Whether a clutch was already opened this round.
    pub clutch_done: bool,
    /// Names of the players who died this round, in order.
    pub deaths_this_round: Vec<String>,
}

impl View for EventExtractor {
    type V = ExtractorV;

    open spec fn view(&self) -> ExtractorV {
        ExtractorV {
            header_seen: self.header_seen,
            current_round: self.current_round,
            current_tick: self.current_tick,
            alive_t: self.alive_t,
            alive_ct: self.alive_ct,
            pending_clutch: match self.pending_clutch {
                Some(ref c) => Some(c@),
                None => None,
            },
            clutch_done: self.clutch_done,
            deaths_this_round: spec_strs_view(self.deaths_this_round@),
        }
    }
}

impl EventExtractor {
    /// Create a fresh extractor.
    pub fn new() -> (r: EventExtractor)
        ensures
            r@ == spec_fresh_extractor(),
    {
        let r = EventExtractor {
            header_seen: false,
            current_round: 0,
            current_tick: 0,
            alive_t: 5,
            alive_ct: 5,
            pending_clutch: None,
            clutch_done: false,
            deaths_this_round: Vec::new(),
        };
        proof {
            assert(r@.deaths_this_round =~= spec_fresh_extractor().deaths_this_round);
        }
        r
    }

    /// Win condition for a wire reason code.
    pub fn determine_win_condition(&self, reason: u32) -> (r: WinCondition)
        ensures
            r == spec_win_condition(reason),
    {
        if reason == 1 {
            WinCondition::Elimination
        } else if reason == 2 {
            WinCondition::BombExploded
        } else if reason == 3 {
            WinCondition::BombDefused
        } else if reason == 4 {
            WinCondition::TimeExpired
        } else if reason == 5 {
            WinCondition::TargetSaved
        } else if reason == 6 {
            WinCondition::HostageRescued
        } else {
            WinCondition::Unknown
        }
    }

    /// Apply a header record.
    fn apply_header(&mut self, events: &mut DemoEvents, h: &DemoHeader)
        ensures
            (ExtractStateV { events: final(events)@, x: final(self)@ }) == spec_apply_header(
                ExtractStateV { events: old(events)@, x: old(self)@ },
                h@,
            ),
    {
        if self.header_seen {
            return ;
        }
        events.metadata.version = u64_to_dec_str(h.version as u64);
        events.metadata.map = h.map_name.clone();
        events.metadata.server = h.server_name.clone();
        events.metadata.duration_seconds = h.duration_seconds;
        events.metadata.ticks = h.tick_count;
        events.metadata.start_time = None;
        self.header_seen = true;
    }

    /// Apply a player record: upsert by name.
    fn apply_player_info(&mut self, events: &mut DemoEvents, pi: &PlayerInfo)
        ensures
            (ExtractStateV { events: final(events)@, x: final(self)@ }) == spec_apply_player_info(
                ExtractStateV { events: old(events)@, x: old(self)@ },
                pi@,
            ),
    {
        match find_player(&events.players, &pi.name) {
            None => {
                events.players.push(
                    Player {
                        name: pi.name.clone(),
                        steam_id: Some(pi.steam_id),
                        team: team_label(pi.team),
                        kills: 0,
                        deaths: 0,
                        assists: 0,
                        headshot_kills: 0,
                        headshot_percentage_centi: 0,
                        adr_centi: 0,
                        kdr_centi: 0,
                    },
                );
                proof {
                    assert(spec_players_view(events.players@) =~= spec_players_view(
                        old(events).players@,
                    ).push(spec_new_player(pi@)));
                }
            },
            Some(i) => {
                let p = &events.players[i];
                let updated = Player {
                    name: p.name.clone(),
                    steam_id: Some(pi.steam_id),
                    team: team_label(pi.team),
                    kills: p.kills,
                    deaths: p.deaths,
                    assists: p.assists,
                    headshot_kills: p.headshot_kills,
                    headshot_percentage_centi: p.headshot_percentage_centi,
                    adr_centi: p.adr_centi,
                    kdr_centi: p.kdr_centi,
                };
                events.players.set(i, updated);
                proof {
                    let pv = spec_players_view(old(events).players@);
                    let iq = spec_find_player(pv, pi.name@, 0);
                    assert(spec_players_view(events.players@) =~= pv.update(
                        iq,
                        PlayerV {
                            steam_id: Some(pi@.steam_id),
                            team: spec_team_label(pi@.team),
                            ..pv[iq]
                        },
                    ));
                }
            },
        }
    }

    /// Apply one kill at `tick`.
    fn apply_kill(&mut self, events: &mut DemoEvents, tick: u32, k: &KillEvent)
        ensures
            (ExtractStateV { events: final(events)@, x: final(self)@ }) == spec_apply_kill(
                ExtractStateV { events: old(events)@, x: old(self)@ },
                tick,
                k@,
            ),
    {
        let round1 = sat_inc_u32(self.current_round);
        events.kills.push(
            Kill {
                killer: k.killer.clone(),
                victim: k.victim.clone(),
                weapon: k.weapon.clone(),
                headshot: k.headshot,
                round: round1,
                tick,
            },
        );
        proof {
            assert(events@.kills =~= spec_apply_kill(
                ExtractStateV { events: old(events)@, x: old(self)@ },
                tick,
                k@,
            ).events.kills);
        }
        if k.headshot {
            events.headshots.push(
                Headshot {
                    shooter: k.killer.clone(),
                    target: k.victim.clone(),
                    weapon: k.weapon.clone(),
                    round: round1,
                    tick,
                },
            );
        }
        proof {
            assert(events@.headshots =~= spec_apply_kill(
                ExtractStateV { events: old(events)@, x: old(self)@ },
                tick,
                k@,
            ).events.headshots);
        }
        bump_deaths(&mut events.players, &k.victim);
        let credited = k.killer != k.victim && !(k.killer_team == k.victim_team && (k.killer_team
            == 2 || k.killer_team == 3));
        if credited {
            bump_kills(&mut events.players, &k.killer, k.headshot);
        }
        self.deaths_this_round.push(k.victim.clone());
        proof {
            assert(spec_strs_view(self.deaths_this_round@) =~= spec_strs_view(
                old(self).deaths_this_round@,
            ).push(k.victim@));
        }
        if k.victim_team == 2 {
            self.alive_t = sat_dec_u64(self.alive_t);
        } else if k.victim_team == 3 {
            self.alive_ct = sat_dec_u64(self.alive_ct);
        }
        if k.victim_team == 2 || k.victim_team == 3 {
            let reduced = if k.victim_team == 2 {
                self.alive_t
            } else {
                self.alive_ct
            };
            let other = if k.victim_team == 2 {
                self.alive_ct
            } else {
                self.alive_t
            };
            if !self.clutch_done && reduced == 1 && other >= 2 {
                let label = team_label(k.victim_team);
                match find_candidate(&events.players, &label, &self.deaths_this_round) {
                    Some(ci) => {
                        self.pending_clutch = Some(
                            PendingClutch {
                                player: events.players[ci].name.clone(),
                                enemies: other,
                                start_tick: tick,
                                side: label,
                            },
                        );
                        self.clutch_done = true;
                    },
                    None => (),
                }
            }
        }
    }

    /// Apply a game-event record.
    fn apply_game_event(&mut self, events: &mut DemoEvents, g: &GameEvent)
        ensures
            (ExtractStateV { events: final(events)@, x: final(self)@ }) == spec_apply_game_event(
                ExtractStateV { events: old(events)@, x: old(self)@ },
                g@,
            ),
    {
        self.current_tick = g.tick;
        match &g.kill {
            None => (),
            Some(k) => self.apply_kill(events, g.tick, k),
        }
    }

    /// Apply a round record: close the round, resolve an open clutch,
    /// reset the per-round state.
    fn apply_round(&mut self, events: &mut DemoEvents, r: &RoundInfo)
        ensures
            (ExtractStateV { events: final(events)@, x: final(self)@ }) == spec_apply_round(
                ExtractStateV { events: old(events)@, x: old(self)@ },
                r@,
            ),
    {
        let winner = team_label(r.winner_team);
        let duration = sat_sub_u32(r.end_tick, r.start_tick) / 64;
        events.rounds.push(
            Round {
                number: r.round_number,
                winner: winner.clone(),
                t_score: r.t_score,
                ct_score: r.ct_score,
                duration_seconds: duration,
                start_tick: r.start_tick,
                end_tick: r.end_tick,
                win_condition: self.determine_win_condition(r.reason),
            },
        );
        proof {
            assert(events@.rounds =~= spec_apply_round(
                ExtractStateV { events: old(events)@, x: old(self)@ },
                r@,
            ).events.rounds);
        }
        match &self.pending_clutch {
            Some(c) => {
                events.clutches.push(
                    Clutch {
                        player: c.player.clone(),
                        enemies: c.enemies,
                        successful: c.side == winner,
                        round: r.round_number,
                        start_tick: c.start_tick,
                        end_tick: r.end_tick,
                        duration_seconds: sat_sub_u32(r.end_tick, c.start_tick) / 64,
                    },
                );
            },
            None => (),
        }
        proof {
            assert(events@.clutches =~= spec_apply_round(
                ExtractStateV { events: old(events)@, x: old(self)@ },
                r@,
            ).events.clutches);
        }
        let t_label = "T".to_owned();
        let ct_label = "CT".to_owned();
        self.alive_t = reset_alive(&events.players, &t_label);
        self.alive_ct = reset_alive(&events.players, &ct_label);
        self.current_round = sat_inc_u32(self.current_round);
        self.current_tick = r.end_tick;
        self.pending_clutch = None;
        self.clutch_done = false;
        self.deaths_this_round = Vec::new();
        proof {
            assert(spec_strs_view(self.deaths_this_round@) =~= Seq::<Seq<char>>::empty());
        }
    }

    /// Apply one message of the ordered stream.
    fn apply_message(&mut self, events: &mut DemoEvents, msg: &DemoMessage)
        ensures
            (ExtractStateV { events: final(events)@, x: final(self)@ }) == spec_step(
                ExtractStateV { events: old(events)@, x: old(self)@ },
                msg@,
            ),
    {
        match msg {
            DemoMessage::Header(h) => self.apply_header(events, h),
            DemoMessage::GameEvent(g) => self.apply_game_event(events, g),
            DemoMessage::PlayerInfo(pi) => self.apply_player_info(events, pi),
            DemoMessage::RoundInfo(r) => self.apply_round(events, r),
            DemoMessage::Unknown { field_id, data: _ } => {
                if 1 <= *field_id && *field_id <= 4 {
                    events.skipped_frames = sat_inc_u64(events.skipped_frames);
                }
            },
        }
    }

    /// The finalization pass: derive the player rates from the complete
    /// counters and take the final score from the last round.
    pub fn finalize_events(&self, events: &mut DemoEvents)
        ensures
            final(events)@ == spec_finalize(old(events)@),
    {
        let ghost orig = old(events).players@;
        let mut updated: Vec<Player> = Vec::new();
        let mut i: usize = 0;
        while i < events.players.len()
            invariant
                orig == events.players@,
                i <= orig.len(),
                updated@.len() == i,
                forall|j: int|
                    0 <= j < i ==> updated@[j]@ == spec_finalize_players(spec_players_view(orig))[
                        j
                    ],
            decreases orig.len() - i,
        {
            let p = &events.players[i];
            updated.push(
                Player {
                    name: p.name.clone(),
                    steam_id: p.steam_id,
                    team: p.team.clone(),
                    kills: p.kills,
                    deaths: p.deaths,
                    assists: p.assists,
                    headshot_kills: p.headshot_kills,
                    headshot_percentage_centi: pct_centi(p.headshot_kills, p.kills),
                    adr_centi: 0,
                    kdr_centi: ratio_centi(p.kills, p.deaths),
                },
            );
            i = i + 1;
        }
        events.players = updated;
        proof {
            assert(spec_players_view(events.players@) =~= spec_finalize_players(
                spec_players_view(orig),
            ));
        }
        if events.rounds.len() > 0 {
            let last_idx = events.rounds.len() - 1;
            events.stats.final_t_score = events.rounds[last_idx].t_score;
            events.stats.final_ct_score = events.rounds[last_idx].ct_score;
        } else {
            events.stats.final_t_score = 0;
            events.stats.final_ct_score = 0;
        }
    }

    /// Fold the ordered message sequence into the decoded model.
    ///
    /// Extraction never fails: unparsed frames were already kept as
    /// `Unknown` messages, and every derived division is guarded.
    pub fn extract_events(&mut self, messages: Vec<DemoMessage>) -> (r: Result<
        DemoEvents,
        DemoError,
    >)
        ensures
            r matches Ok(ev) && ev@ == spec_extract_events_from(
                spec_msgs_view(messages@),
                old(self)@,
            ),
            final(self)@ == spec_extract(
                spec_msgs_view(messages@),
                ExtractStateV { events: spec_empty_events(), x: old(self)@ },
            ).x,
    {
        let ghost msgs = spec_msgs_view(messages@);
        let ghost init = ExtractStateV { events: spec_empty_events(), x: old(self)@ };
        let mut events = DemoEvents::new();
        proof {
            assert(msgs.skip(0) =~= msgs);
        }
        let mut i: usize = 0;
        while i < messages.len()
            invariant
                i <= messages@.len(),
                msgs == spec_msgs_view(messages@),
                msgs.len() == messages@.len(),
                spec_extract(msgs, init) == spec_extract(
                    msgs.skip(i as int),
                    ExtractStateV { events: events@, x: self@ },
                ),
            decreases messages@.len() - i,
        {
            let ghost pre = ExtractStateV { events: events@, x: self@ };
            self.apply_message(&mut events, &messages[i]);
            proof {
                assert(msgs.skip(i as int)[0] == msgs[i as int]);
                assert(msgs.skip(i as int).drop_first() =~= msgs.skip(i as int + 1));
                assert(spec_extract(msgs.skip(i as int), pre) == spec_extract(
                    msgs.skip(i as int + 1),
                    spec_step(pre, msgs[i as int]),
                ));
            }
            i = i + 1;
        }
        proof {
            assert(msgs.skip(msgs.len() as int) =~= Seq::<DemoMessageV>::empty());
        }
        self.finalize_events(&mut events);
        Ok(events)
    }
}

impl Default for EventExtractor {
    /// A fresh extractor.
    fn default() -> (r: EventExtractor)
        ensures
            r@ == spec_fresh_extractor(),
    {
        EventExtractor::new()
    }
}

} // verus!
