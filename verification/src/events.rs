use vstd::prelude::*;

use vstd::string::StrSliceExecFns;

verus! {

/// How a round was decided.
#[derive(Clone, Copy, Debug, PartialEq, Eq, Structural)]
pub enum WinCondition {
    /// The losing side was eliminated.
    Elimination,
    /// The bomb exploded.
    BombExploded,
    /// The bomb was defused.
    BombDefused,
    /// The round timer ran out.
    TimeExpired,
    /// The target was saved.
    TargetSaved,
    /// The hostage was rescued.
    HostageRescued,
    /// The stream gave no recognized reason.
    Unknown,
}

/// One kill, in stream order.
#[derive(Debug)]
pub struct Kill {
    /// Name of the player who made the kill.
    pub killer: String,
    /// Name of the player who died.
    pub victim: String,
    /// Weapon identifier.
    pub weapon: String,
    /// Whether the kill was a headshot.
    pub headshot: bool,
    /// One-based number of the round the kill fell in.
    pub round: u32,
    /// Tick at which the kill happened.
    pub tick: u32,
}

/// Mathematical value of a `Kill`.
pub struct KillV {
    pub killer: Seq<char>,
    pub victim: Seq<char>,
    pub weapon: Seq<char>,
    pub headshot: bool,
    pub round: u32,
    pub tick: u32,
}

impl View for Kill {
    type V = KillV;

    open spec fn view(&self) -> KillV {
        KillV {
            killer: self.killer@,
            victim: self.victim@,
            weapon: self.weapon@,
            headshot: self.headshot,
            round: self.round,
            tick: self.tick,
        }
    }
}

/// One headshot, paired with the kill it came from.
#[derive(Debug)]
pub struct Headshot {
    /// Name of the shooter.
    pub shooter: String,
    /// Name of the target.
    pub target: String,
    /// Weapon identifier.
    pub weapon: String,
    /// One-based number of the round.
    pub round: u32,
    /// Tick at which the headshot happened.
    pub tick: u32,
}

/// Mathematical value of a `Headshot`.
pub struct HeadshotV {
    pub shooter: Seq<char>,
    pub target: Seq<char>,
    pub weapon: Seq<char>,
    pub round: u32,
    pub tick: u32,
}

impl View for Headshot {
    type V = HeadshotV;

    open spec fn view(&self) -> HeadshotV {
        HeadshotV {
            shooter: self.shooter@,
            target: self.target@,
            weapon: self.weapon@,
            round: self.round,
            tick: self.tick,
        }
    }
}

/// One clutch situation: a lone survivor against several opponents.
#[derive(Debug)]
pub struct Clutch {
    /// Name of the lone survivor.
    pub player: String,
    /// Opposing players alive when the clutch began.
    pub enemies: u64,
    /// Whether the survivor's side won the round.
    pub successful: bool,
    /// Number of the round the clutch fell in.
    pub round: u32,
    /// Tick at which the survivor became the last of their side.
    pub start_tick: u32,
    /// Tick at which the round ended.
    pub end_tick: u32,
    /// Whole seconds between start and end tick.
    pub duration_seconds: u32,
}

/// Mathematical value of a `Clutch`.
pub struct ClutchV {
    pub player: Seq<char>,
    pub enemies: u64,
    pub successful: bool,
    pub round: u32,
    pub start_tick: u32,
    pub end_tick: u32,
    pub duration_seconds: u32,
}

impl View for Clutch {
    type V = ClutchV;

    open spec fn view(&self) -> ClutchV {
        ClutchV {
            player: self.player@,
            enemies: self.enemies,
            successful: self.successful,
            round: self.round,
            start_tick: self.start_tick,
            end_tick: self.end_tick,
            duration_seconds: self.duration_seconds,
        }
    }
}

/// One finished round.
#[derive(Debug)]
pub struct Round {
    /// Round number as the stream gave it.
    pub number: u32,
    /// Winning side label: `T`, `CT` or `Unknown`.
    pub winner: String,
    /// Terrorist-side score at round end.
    pub t_score: u32,
    /// Counter-terrorist-side score at round end.
    pub ct_score: u32,
    /// Whole seconds between start and end tick.
    pub duration_seconds: u32,
    /// Tick at which the round started.
    pub start_tick: u32,
    /// Tick at which the round ended.
    pub end_tick: u32,
    /// How the round was decided.
    pub win_condition: WinCondition,
}

/// Mathematical value of a `Round`.
pub struct RoundV {
    pub number: u32,
    pub winner: Seq<char>,
    pub t_score: u32,
    pub ct_score: u32,
    pub duration_seconds: u32,
    pub start_tick: u32,
    pub end_tick: u32,
    pub win_condition: WinCondition,
}

impl View for Round {
    type V = RoundV;

    open spec fn view(&self) -> RoundV {
        RoundV {
            number: self.number,
            winner: self.winner@,
            t_score: self.t_score,
            ct_score: self.ct_score,
            duration_seconds: self.duration_seconds,
            start_tick: self.start_tick,
            end_tick: self.end_tick,
            win_condition: self.win_condition,
        }
    }
}

/// One player and their running statistics.
#[derive(Debug)]
pub struct Player {
    /// Display name; also the key in the player list.
    pub name: String,
    /// Numeric account identifier, when the stream gave one.
    pub steam_id: Option<u64>,
    /// Team label: `T`, `CT` or `Unknown`.
    pub team: String,
    /// Kills credited to this player.
    pub kills: u64,
    /// Deaths of this player.
    pub deaths: u64,
    /// Assists; the stream carries no assist events, so this stays zero.
    pub assists: u64,
    /// Headshot kills credited to this player.
    pub headshot_kills: u64,
    /// Headshot share of credited kills, in hundredths of a percent.
    pub headshot_percentage_centi: u64,
    /// Average damage per round, in hundredths; no damage is tracked, so zero.
    pub adr_centi: u64,
    /// Kill/death ratio, in hundredths.
    pub kdr_centi: u64,
}

/// Mathematical value of a `Player`.
pub struct PlayerV {
    pub name: Seq<char>,
    pub steam_id: Option<u64>,
    pub team: Seq<char>,
    pub kills: u64,
    pub deaths: u64,
    pub assists: u64,
    pub headshot_kills: u64,
    pub headshot_percentage_centi: u64,
    pub adr_centi: u64,
    pub kdr_centi: u64,
}

impl View for Player {
    type V = PlayerV;

    open spec fn view(&self) -> PlayerV {
        PlayerV {
            name: self.name@,
            steam_id: self.steam_id,
            team: self.team@,
            kills: self.kills,
            deaths: self.deaths,
            assists: self.assists,
            headshot_kills: self.headshot_kills,
            headshot_percentage_centi: self.headshot_percentage_centi,
            adr_centi: self.adr_centi,
            kdr_centi: self.kdr_centi,
        }
    }
}

/// Stream-wide metadata, filled from the first header record.
#[derive(Debug)]
pub struct DemoMetadata {
    /// Name of the demo file, when the caller supplied one.
    pub filename: String,
    /// Format version, as decimal digits.
    pub version: String,
    /// Map name.
    pub map: String,
    /// Server name.
    pub server: String,
    /// Declared duration in seconds.
    pub duration_seconds: u32,
    /// Declared tick count.
    pub ticks: u32,
    /// Start time, when the stream gave one.
    pub start_time: Option<String>,
}

/// Mathematical value of a `DemoMetadata`.
pub struct DemoMetadataV {
    pub filename: Seq<char>,
    pub version: Seq<char>,
    pub map: Seq<char>,
    pub server: Seq<char>,
    pub duration_seconds: u32,
    pub ticks: u32,
    pub start_time: Option<Seq<char>>,
}

impl View for DemoMetadata {
    type V = DemoMetadataV;

    open spec fn view(&self) -> DemoMetadataV {
        DemoMetadataV {
            filename: self.filename@,
            version: self.version@,
            map: self.map@,
            server: self.server@,
            duration_seconds: self.duration_seconds,
            ticks: self.ticks,
            start_time: match self.start_time {
                Some(ref s) => Some(s@),
                None => None,
            },
        }
    }
}

/// Match-wide statistics, wholly derived from the other lists.
#[derive(Clone, Copy, Debug, PartialEq, Eq, Structural)]
pub struct MatchStats {
    /// Count of finished rounds.
    pub total_rounds: u64,
    /// Terrorist-side score of the last round, or zero with no rounds.
    pub final_t_score: u32,
    /// Counter-terrorist-side score of the last round, or zero with no rounds.
    pub final_ct_score: u32,
    /// Count of kills.
    pub total_kills: u64,
    /// Count of headshots.
    pub total_headshots: u64,
    /// Kills per round, in hundredths; zero when no round finished.
    pub avg_kills_per_round_centi: u64,
    /// Declared duration in whole minutes.
    pub duration_minutes: u32,
}

impl View for MatchStats {
    type V = MatchStats;

    open spec fn view(&self) -> MatchStats {
        *self
    }
}

/// Any event of the decoded model, for chronological listings.
#[derive(Debug)]
pub enum GameEvent {
    Kill(Kill),
    Headshot(Headshot),
    Clutch(Clutch),
    Round(Round),
}

/// Mathematical value of a `GameEvent`.
pub enum GameEventV {
    Kill(KillV),
    Headshot(HeadshotV),
    Clutch(ClutchV),
    Round(RoundV),
}

impl View for GameEvent {
    type V = GameEventV;

    open spec fn view(&self) -> GameEventV {
        match self {
            GameEvent::Kill(k) => GameEventV::Kill(k@),
            GameEvent::Headshot(h) => GameEventV::Headshot(h@),
            GameEvent::Clutch(c) => GameEventV::Clutch(c@),
            GameEvent::Round(r) => GameEventV::Round(r@),
        }
    }
}

/// The decoded model of one demo: metadata, the ordered event lists,
/// the players, and the derived statistics.
#[derive(Debug)]
pub struct DemoEvents {
    /// Stream-wide metadata.
    pub metadata: DemoMetadata,
    /// Kills in stream order.
    pub kills: Vec<Kill>,
    /// Headshots in stream order.
    pub headshots: Vec<Headshot>,
    /// Clutches in stream order.
    pub clutches: Vec<Clutch>,
    /// Rounds in stream order.
    pub rounds: Vec<Round>,
    /// Players in order of first appearance, one entry per name.
    pub players: Vec<Player>,
    /// Match-wide statistics.
    pub stats: MatchStats,
    /// Count of known-tag frames that did not parse and were kept raw.
    pub skipped_frames: u64,
}

/// Mathematical value of a `DemoEvents`.
pub struct DemoEventsV {
    pub metadata: DemoMetadataV,
    pub kills: Seq<KillV>,
    pub headshots: Seq<HeadshotV>,
    pub clutches: Seq<ClutchV>,
    pub rounds: Seq<RoundV>,
    pub players: Seq<PlayerV>,
    pub stats: MatchStats,
    pub skipped_frames: u64,
}

impl View for DemoEvents {
    type V = DemoEventsV;

    open spec fn view(&self) -> DemoEventsV {
        DemoEventsV {
            metadata: self.metadata@,
            kills: self.kills@.map_values(|k: Kill| k@),
            headshots: self.headshots@.map_values(|h: Headshot| h@),
            clutches: self.clutches@.map_values(|c: Clutch| c@),
            rounds: self.rounds@.map_values(|r: Round| r@),
            players: self.players@.map_values(|p: Player| p@),
            stats: self.stats,
            skipped_frames: self.skipped_frames,
        }
    }
}

/// Zero-valued statistics.
pub open spec fn spec_empty_stats() -> MatchStats {
    MatchStats {
        total_rounds: 0,
        final_t_score: 0,
        final_ct_score: 0,
        total_kills: 0,
        total_headshots: 0,
        avg_kills_per_round_centi: 0,
        duration_minutes: 0,
    }
}

/// The empty model: empty strings, empty lists, zero counters.
pub open spec fn spec_empty_events() -> DemoEventsV {
    DemoEventsV {
        metadata: DemoMetadataV {
            filename: Seq::empty(),
            version: Seq::empty(),
            map: Seq::empty(),
            server: Seq::empty(),
            duration_seconds: 0,
            ticks: 0,
            start_time: None,
        },
        kills: Seq::empty(),
        headshots: Seq::empty(),
        clutches: Seq::empty(),
        rounds: Seq::empty(),
        players: Seq::empty(),
        stats: spec_empty_stats(),
        skipped_frames: 0,
    }
}

impl DemoEvents {
    /// Create an empty model.
    pub fn new() -> (r: DemoEvents)
        ensures
            r@ == spec_empty_events(),
    {
        let r = DemoEvents {
            metadata: DemoMetadata {
                filename: String::new(),
                version: String::new(),
                map: String::new(),
                server: String::new(),
                duration_seconds: 0,
                ticks: 0,
                start_time: None,
            },
            kills: Vec::new(),
            headshots: Vec::new(),
            clutches: Vec::new(),
            rounds: Vec::new(),
            players: Vec::new(),
            stats: MatchStats {
                total_rounds: 0,
                final_t_score: 0,
                final_ct_score: 0,
                total_kills: 0,
                total_headshots: 0,
                avg_kills_per_round_centi: 0,
                duration_minutes: 0,
            },
            skipped_frames: 0,
        };
        proof {
            assert(r@.kills =~= spec_empty_events().kills);
            assert(r@.headshots =~= spec_empty_events().headshots);
            assert(r@.clutches =~= spec_empty_events().clutches);
            assert(r@.rounds =~= spec_empty_events().rounds);
            assert(r@.players =~= spec_empty_events().players);
        }
        r
    }
}

impl Default for DemoEvents {
    /// The empty model.
    fn default() -> (r: DemoEvents)
        ensures
            r@ == spec_empty_events(),
    {
        DemoEvents::new()
    }
}

impl Clone for Kill {
    /// An equal copy.
    fn clone(&self) -> (r: Self)
        ensures
            r@ == self@,
    {
        Kill {
            killer: self.killer.clone(),
            victim: self.victim.clone(),
            weapon: self.weapon.clone(),
            headshot: self.headshot,
            round: self.round,
            tick: self.tick,
        }
    }
}

impl Clone for Headshot {
    /// An equal copy.
    fn clone(&self) -> (r: Self)
        ensures
            r@ == self@,
    {
        Headshot {
            shooter: self.shooter.clone(),
            target: self.target.clone(),
            weapon: self.weapon.clone(),
            round: self.round,
            tick: self.tick,
        }
    }
}

impl Clone for Clutch {
    /// An equal copy.
    fn clone(&self) -> (r: Self)
        ensures
            r@ == self@,
    {
        Clutch {
            player: self.player.clone(),
            enemies: self.enemies,
            successful: self.successful,
            round: self.round,
            start_tick: self.start_tick,
            end_tick: self.end_tick,
            duration_seconds: self.duration_seconds,
        }
    }
}

impl Clone for Round {
    /// An equal copy.
    fn clone(&self) -> (r: Self)
        ensures
            r@ == self@,
    {
        Round {
            number: self.number,
            winner: self.winner.clone(),
            t_score: self.t_score,
            ct_score: self.ct_score,
            duration_seconds: self.duration_seconds,
            start_tick: self.start_tick,
            end_tick: self.end_tick,
            win_condition: self.win_condition,
        }
    }
}

/// The tick an event is listed under: its own tick, or, for a clutch or
/// a round, its start tick.
pub open spec fn spec_event_tick(e: GameEventV) -> u32 {
    match e {
        GameEventV::Kill(k) => k.tick,
        GameEventV::Headshot(h) => h.tick,
        GameEventV::Clutch(c) => c.start_tick,
        GameEventV::Round(r) => r.start_tick,
    }
}

/// The round an event belongs to.
pub open spec fn spec_event_round(e: GameEventV) -> u32 {
    match e {
        GameEventV::Kill(k) => k.round,
        GameEventV::Headshot(h) => h.round,
        GameEventV::Clutch(c) => c.round,
        GameEventV::Round(r) => r.number,
    }
}

/// View of an event vector as a sequence of event values.
pub open spec fn spec_events_view(s: Seq<GameEvent>) -> Seq<GameEventV> {
    s.map_values(|e: GameEvent| e@)
}

/// Insert `x` into a tick-sorted sequence, after every event with the
/// same or an earlier tick, so that equal ticks keep their order.
pub open spec fn spec_insert_sorted(sorted: Seq<GameEventV>, x: GameEventV) -> Seq<GameEventV>
    decreases sorted.len(),
{
    if sorted.len() == 0 {
        seq![x]
    } else if spec_event_tick(sorted.last()) <= spec_event_tick(x) {
        sorted.push(x)
    } else {
        spec_insert_sorted(sorted.drop_last(), x).push(sorted.last())
    }
}

/// Stable sort of events by tick.
pub open spec fn spec_sort_events(s: Seq<GameEventV>) -> Seq<GameEventV>
    decreases s.len(),
{
    if s.len() == 0 {
        Seq::empty()
    } else {
        spec_insert_sorted(spec_sort_events(s.drop_last()), s.last())
    }
}

/// Every event of the model, as one sequence in list order before
/// sorting: kills, then headshots, then clutches, then rounds.
pub open spec fn spec_combined_events(ev: DemoEventsV) -> Seq<GameEventV> {
    ev.kills.map_values(|k: KillV| GameEventV::Kill(k)) + ev.headshots.map_values(
        |h: HeadshotV| GameEventV::Headshot(h),
    ) + ev.clutches.map_values(|c: ClutchV| GameEventV::Clutch(c)) + ev.rounds.map_values(
        |r: RoundV| GameEventV::Round(r),
    )
}

/// Every event of the model, sorted by tick.
pub open spec fn spec_all_events(ev: DemoEventsV) -> Seq<GameEventV> {
    spec_sort_events(spec_combined_events(ev))
}

/// The tick an event is listed under.
fn event_tick(e: &GameEvent) -> (r: u32)
    ensures
        r == spec_event_tick(e@),
{
    match e {
        GameEvent::Kill(k) => k.tick,
        GameEvent::Headshot(h) => h.tick,
        GameEvent::Clutch(c) => c.start_tick,
        GameEvent::Round(r) => r.start_tick,
    }
}

/// The round an event belongs to.
fn event_round(e: &GameEvent) -> (r: u32)
    ensures
        r == spec_event_round(e@),
{
    match e {
        GameEvent::Kill(k) => k.round,
        GameEvent::Headshot(h) => h.round,
        GameEvent::Clutch(c) => c.round,
        GameEvent::Round(r) => r.number,
    }
}

/// Insert one event into a tick-sorted vector, keeping equal ticks in
/// arrival order.
fn insert_sorted(sorted: &mut Vec<GameEvent>, x: GameEvent)
    ensures
        spec_events_view(final(sorted)@) == spec_insert_sorted(
            spec_events_view(old(sorted)@),
            x@,
        ),
    decreases old(sorted)@.len(),
{
    if sorted.len() == 0 {
        sorted.push(x);
        proof {
            assert(spec_events_view(sorted@) =~= seq![x@]);
        }
        return ;
    }
    let xt = event_tick(&x);
    let lt = event_tick(&sorted[sorted.len() - 1]);
    if lt <= xt {
        sorted.push(x);
        proof {
            assert(spec_events_view(sorted@) =~= spec_events_view(old(sorted)@).push(x@));
        }
    } else {
        let last = sorted.pop().unwrap();
        proof {
            assert(spec_events_view(sorted@) =~= spec_events_view(old(sorted)@).drop_last());
        }
        insert_sorted(sorted, x);
        sorted.push(last);
        proof {
            assert(spec_events_view(sorted@) =~= spec_insert_sorted(
                spec_events_view(old(sorted)@).drop_last(),
                x@,
            ).push(old(sorted)@.last()@));
            assert(spec_events_view(old(sorted)@).last() == old(sorted)@.last()@);
        }
    }
}

impl DemoEvents {
    /// Every event of the model in chronological order: sorted by tick,
    /// with equal ticks keeping list order.
    pub fn all_events(&self) -> (r: Vec<GameEvent>)
        ensures
            spec_events_view(r@) == spec_all_events(self@),
    {
        let nk = self.kills.len();
        let nh = self.headshots.len();
        let nc = self.clutches.len();
        let mut combined: Vec<GameEvent> = Vec::new();
        let mut i: usize = 0;
        while i < self.kills.len()
            invariant
                i <= self.kills@.len(),
                combined@.len() == i,
                forall|t: int|
                    0 <= t < i ==> spec_events_view(combined@)[t] == GameEventV::Kill(
                        self.kills@[t]@,
                    ),
            decreases self.kills@.len() - i,
        {
            let ghost cpre = combined@;
            combined.push(GameEvent::Kill(self.kills[i].clone()));
            proof {
                assert forall|t: int| 0 <= t < cpre.len() implies spec_events_view(combined@)[t]
                    == spec_events_view(cpre)[t] by {
                    assert(combined@[t] == cpre[t]);
                }
                assert(spec_events_view(combined@)[cpre.len() as int] == GameEventV::Kill(
                    self.kills@[i as int]@,
                ));
                assert forall|t: int| 0 <= t < i + 1 implies spec_events_view(combined@)[t]
                    == GameEventV::Kill(self.kills@[t]@) by {
                    if t < i {
                        assert(spec_events_view(cpre)[t] == GameEventV::Kill(self.kills@[t]@));
                        assert(spec_events_view(combined@)[t] == spec_events_view(cpre)[t]);
                    } else {
                        assert(spec_events_view(combined@)[t] == GameEventV::Kill(
                            self.kills@[i as int]@,
                        ));
                    }
                }
            }
            i = i + 1;
        }
        let mut j: usize = 0;
        while j < self.headshots.len()
            invariant
                nk == self.kills@.len(),
                j <= self.headshots@.len(),
                combined@.len() == nk + j,
                forall|t: int|
                    0 <= t < nk ==> spec_events_view(combined@)[t] == GameEventV::Kill(
                        self.kills@[t]@,
                    ),
                forall|t: int|
                    nk <= t < nk + j ==> spec_events_view(combined@)[t] == GameEventV::Headshot(
                        self.headshots@[t - nk]@,
                    ),
            decreases self.headshots@.len() - j,
        {
            let ghost cpre = combined@;
            combined.push(GameEvent::Headshot(self.headshots[j].clone()));
            proof {
                assert forall|t: int| 0 <= t < cpre.len() implies spec_events_view(combined@)[t]
                    == spec_events_view(cpre)[t] by {
                    assert(combined@[t] == cpre[t]);
                }
                assert(spec_events_view(combined@)[cpre.len() as int] == GameEventV::Headshot(
                    self.headshots@[j as int]@,
                ));
                assert forall|t: int| 0 <= t < nk implies spec_events_view(combined@)[t]
                    == GameEventV::Kill(self.kills@[t]@) by {
                    assert(spec_events_view(cpre)[t] == GameEventV::Kill(self.kills@[t]@));
                    assert(spec_events_view(combined@)[t] == spec_events_view(cpre)[t]);
                }
                assert forall|t: int| nk <= t < nk + j + 1 implies spec_events_view(combined@)[t]
                    == GameEventV::Headshot(self.headshots@[t - nk]@) by {
                    if t < nk + j {
                        assert(spec_events_view(cpre)[t] == GameEventV::Headshot(
                            self.headshots@[t - nk]@,
                        ));
                        assert(spec_events_view(combined@)[t] == spec_events_view(cpre)[t]);
                    } else {
                        assert(spec_events_view(combined@)[t] == GameEventV::Headshot(
                            self.headshots@[j as int]@,
                        ));
                    }
                }
            }
            j = j + 1;
        }
        let mut k: usize = 0;
        while k < self.clutches.len()
            invariant
                nk == self.kills@.len(),
                nh == self.headshots@.len(),
                k <= self.clutches@.len(),
                combined@.len() == nk + nh + k,
                forall|t: int|
                    0 <= t < nk ==> spec_events_view(combined@)[t] == GameEventV::Kill(
                        self.kills@[t]@,
                    ),
                forall|t: int|
                    nk <= t < nk + nh ==> spec_events_view(combined@)[t] == GameEventV::Headshot(
                        self.headshots@[t - nk]@,
                    ),
                forall|t: int|
                    nk + nh <= t < nk + nh + k ==> spec_events_view(combined@)[t]
                        == GameEventV::Clutch(self.clutches@[t - nk - nh]@),
            decreases self.clutches@.len() - k,
        {
            let ghost cpre = combined@;
            combined.push(GameEvent::Clutch(self.clutches[k].clone()));
            proof {
                assert forall|t: int| 0 <= t < cpre.len() implies spec_events_view(combined@)[t]
                    == spec_events_view(cpre)[t] by {
                    assert(combined@[t] == cpre[t]);
                }
                assert(spec_events_view(combined@)[cpre.len() as int] == GameEventV::Clutch(
                    self.clutches@[k as int]@,
                ));
                assert forall|t: int| 0 <= t < nk implies spec_events_view(combined@)[t]
                    == GameEventV::Kill(self.kills@[t]@) by {
                    assert(spec_events_view(cpre)[t] == GameEventV::Kill(self.kills@[t]@));
                    assert(spec_events_view(combined@)[t] == spec_events_view(cpre)[t]);
                }
                assert forall|t: int| nk <= t < nk + nh implies spec_events_view(combined@)[t]
                    == GameEventV::Headshot(self.headshots@[t - nk]@) by {
                    assert(spec_events_view(cpre)[t] == GameEventV::Headshot(
                        self.headshots@[t - nk]@,
                    ));
                    assert(spec_events_view(combined@)[t] == spec_events_view(cpre)[t]);
                }
                assert forall|t: int|
                    nk + nh <= t < nk + nh + k + 1 implies spec_events_view(combined@)[t]
                    == GameEventV::Clutch(self.clutches@[t - nk - nh]@) by {
                    if t < nk + nh + k {
                        assert(spec_events_view(cpre)[t] == GameEventV::Clutch(
                            self.clutches@[t - nk - nh]@,
                        ));
                        assert(spec_events_view(combined@)[t] == spec_events_view(cpre)[t]);
                    } else {
                        assert(spec_events_view(combined@)[t] == GameEventV::Clutch(
                            self.clutches@[k as int]@,
                        ));
                    }
                }
            }
            k = k + 1;
        }
        let mut m: usize = 0;
        while m < self.rounds.len()
            invariant
                nk == self.kills@.len(),
                nh == self.headshots@.len(),
                nc == self.clutches@.len(),
                m <= self.rounds@.len(),
                combined@.len() == nk + nh + nc + m,
                forall|t: int|
                    0 <= t < nk ==> spec_events_view(combined@)[t] == GameEventV::Kill(
                        self.kills@[t]@,
                    ),
                forall|t: int|
                    nk <= t < nk + nh ==> spec_events_view(combined@)[t] == GameEventV::Headshot(
                        self.headshots@[t - nk]@,
                    ),
                forall|t: int|
                    nk + nh <= t < nk + nh + nc ==> spec_events_view(combined@)[t]
                        == GameEventV::Clutch(self.clutches@[t - nk - nh]@),
                forall|t: int|
                    nk + nh + nc <= t < nk + nh + nc + m ==> spec_events_view(combined@)[t]
                        == GameEventV::Round(self.rounds@[t - nk - nh - nc]@),
            decreases self.rounds@.len() - m,
        {
            let ghost cpre = combined@;
            combined.push(GameEvent::Round(self.rounds[m].clone()));
            proof {
                assert forall|t: int| 0 <= t < cpre.len() implies spec_events_view(combined@)[t]
                    == spec_events_view(cpre)[t] by {
                    assert(combined@[t] == cpre[t]);
                }
                assert(spec_events_view(combined@)[cpre.len() as int] == GameEventV::Round(
                    self.rounds@[m as int]@,
                ));
                assert forall|t: int| 0 <= t < nk implies spec_events_view(combined@)[t]
                    == GameEventV::Kill(self.kills@[t]@) by {
                    assert(spec_events_view(cpre)[t] == GameEventV::Kill(self.kills@[t]@));
                    assert(spec_events_view(combined@)[t] == spec_events_view(cpre)[t]);
                }
                assert forall|t: int| nk <= t < nk + nh implies spec_events_view(combined@)[t]
                    == GameEventV::Headshot(self.headshots@[t - nk]@) by {
                    assert(spec_events_view(cpre)[t] == GameEventV::Headshot(
                        self.headshots@[t - nk]@,
                    ));
                    assert(spec_events_view(combined@)[t] == spec_events_view(cpre)[t]);
                }
                assert forall|t: int|
                    nk + nh <= t < nk + nh + nc implies spec_events_view(combined@)[t]
                    == GameEventV::Clutch(self.clutches@[t - nk - nh]@) by {
                    assert(spec_events_view(cpre)[t] == GameEventV::Clutch(
                        self.clutches@[t - nk - nh]@,
                    ));
                    assert(spec_events_view(combined@)[t] == spec_events_view(cpre)[t]);
                }
                assert forall|t: int|
                    nk + nh + nc <= t < nk + nh + nc + m + 1 implies spec_events_view(combined@)[t]
                    == GameEventV::Round(self.rounds@[t - nk - nh - nc]@) by {
                    if t < nk + nh + nc + m {
                        assert(spec_events_view(cpre)[t] == GameEventV::Round(
                            self.rounds@[t - nk - nh - nc]@,
                        ));
                        assert(spec_events_view(combined@)[t] == spec_events_view(cpre)[t]);
                    } else {
                        assert(spec_events_view(combined@)[t] == GameEventV::Round(
                            self.rounds@[m as int]@,
                        ));
                    }
                }
            }
            m = m + 1;
        }
        proof {
            assert(spec_events_view(combined@) =~= spec_combined_events(self@));
        }
        let ghost all = spec_events_view(combined@);
        let mut sorted: Vec<GameEvent> = Vec::new();
        let mut n: usize = 0;
        proof {
            assert(all.subrange(0, 0) =~= Seq::<GameEventV>::empty());
        }
        while n < combined.len()
            invariant
                n <= combined@.len(),
                all == spec_events_view(combined@),
                all.len() == combined@.len(),
                spec_events_view(sorted@) == spec_sort_events(all.subrange(0, n as int)),
            decreases combined@.len() - n,
        {
            let e = clone_event(&combined[n]);
            insert_sorted(&mut sorted, e);
            proof {
                assert(all.subrange(0, n + 1).drop_last() =~= all.subrange(0, n as int));
                assert(all.subrange(0, n + 1).last() == all[n as int]);
            }
            n = n + 1;
        }
        proof {
            assert(all.subrange(0, combined@.len() as int) =~= all);
        }
        sorted
    }

    /// Every event of one round, in chronological order.
    pub fn events_for_round(&self, round_number: u32) -> (r: Vec<GameEvent>)
        ensures
            spec_events_view(r@) == spec_all_events(self@).filter(
                |e: GameEventV| spec_event_round(e) == round_number,
            ),
    {
        let all = self.all_events();
        let ghost av = spec_events_view(all@);
        let ghost pred = |e: GameEventV| spec_event_round(e) == round_number;
        let mut out: Vec<GameEvent> = Vec::new();
        let mut i: usize = 0;
        proof {
            assert(av.subrange(0, 0) =~= Seq::<GameEventV>::empty());
            assert(av.subrange(0, 0).filter(pred) =~= Seq::<GameEventV>::empty());
            assert(spec_events_view(out@) =~= Seq::<GameEventV>::empty());
        }
        while i < all.len()
            invariant
                i <= all@.len(),
                av == spec_events_view(all@),
                av.len() == all@.len(),
                pred == (|e: GameEventV| spec_event_round(e) == round_number),
                spec_events_view(out@) == av.subrange(0, i as int).filter(pred),
            decreases all@.len() - i,
        {
            let ghost prefix = av.subrange(0, i as int);
            if event_round(&all[i]) == round_number {
                out.push(clone_event(&all[i]));
                proof {
                    assert(spec_events_view(out@) =~= prefix.filter(pred).push(av[i as int]));
                }
            }
            proof {
                reveal_with_fuel(Seq::filter, 2);
                assert(av.subrange(0, i + 1).drop_last() =~= prefix);
                assert(av.subrange(0, i + 1).last() == av[i as int]);
                assert(av.subrange(0, i + 1).filter(pred) == (if pred(av[i as int]) {
                    prefix.filter(pred).push(av[i as int])
                } else {
                    prefix.filter(pred)
                }));
            }
            i = i + 1;
        }
        proof {
            assert(av.subrange(0, all@.len() as int) =~= av);
        }
        out
    }

    /// The statistics entry of the named player, when one exists.
    pub fn get_player_stats(&self, player_name: &str) -> (r: Option<&Player>)
        ensures
            match r {
                Some(p) => {
                    let i = crate::event_extractor::spec_find_player(
                        self@.players,
                        player_name@,
                        0,
                    );
                    i >= 0 && p@ == self@.players[i]
                },
                None => crate::event_extractor::spec_find_player(self@.players, player_name@, 0)
                    == -1,
            },
    {
        let ghost pv = self@.players;
        let mut i: usize = 0;
        while i < self.players.len()
            invariant
                i <= self.players@.len(),
                pv == self@.players,
                pv.len() == self.players@.len(),
                crate::event_extractor::spec_find_player(pv, player_name@, 0)
                    == crate::event_extractor::spec_find_player(pv, player_name@, i as int),
            decreases self.players@.len() - i,
        {
            if str_eq(self.players[i].name.as_str(), player_name) {
                proof {
                    assert(pv[i as int].name == player_name@);
                }
                return Some(&self.players[i]);
            }
            proof {
                assert(pv[i as int].name != player_name@);
            }
            i = i + 1;
        }
        None
    }
}

/// Name and kill count of each player, in list order.
pub open spec fn spec_frag_pairs(players: Seq<PlayerV>) -> Seq<(Seq<char>, u64)> {
    players.map_values(|p: PlayerV| (p.name, p.kills))
}

/// View of a name-and-kills vector as a sequence of pair values.
pub open spec fn spec_pairs_view(s: Seq<(String, u64)>) -> Seq<(Seq<char>, u64)> {
    s.map_values(|x: (String, u64)| (x.0@, x.1))
}

/// Insert a pair into a sequence sorted by falling kill count, after
/// every entry with the same or a larger count, so that equal counts
/// keep their order.
pub open spec fn spec_insert_desc(sorted: Seq<(Seq<char>, u64)>, x: (Seq<char>, u64)) -> Seq<
    (Seq<char>, u64),
>
    decreases sorted.len(),
{
    if sorted.len() == 0 {
        seq![x]
    } else if sorted.last().1 >= x.1 {
        sorted.push(x)
    } else {
        spec_insert_desc(sorted.drop_last(), x).push(sorted.last())
    }
}

/// Stable sort of pairs by falling kill count.
pub open spec fn spec_sort_desc(s: Seq<(Seq<char>, u64)>) -> Seq<(Seq<char>, u64)>
    decreases s.len(),
{
    if s.len() == 0 {
        Seq::empty()
    } else {
        spec_insert_desc(spec_sort_desc(s.drop_last()), s.last())
    }
}

/// The players with the most kills: every player's name and kill count,
/// sorted by falling kill count with ties in list order, cut to `limit`.
pub open spec fn spec_top_fraggers(players: Seq<PlayerV>, limit: int) -> Seq<(Seq<char>, u64)> {
    let sorted = spec_sort_desc(spec_frag_pairs(players));
    if limit < sorted.len() {
        sorted.take(limit)
    } else {
        sorted
    }
}

/// Insert one pair into a kill-sorted vector, keeping ties in arrival
/// order.
fn insert_desc(sorted: &mut Vec<(String, u64)>, x: (String, u64))
    ensures
        spec_pairs_view(final(sorted)@) == spec_insert_desc(
            spec_pairs_view(old(sorted)@),
            (x.0@, x.1),
        ),
    decreases old(sorted)@.len(),
{
    let ghost xv = (x.0@, x.1);
    if sorted.len() == 0 {
        sorted.push(x);
        proof {
            assert(spec_pairs_view(sorted@) =~= seq![xv]);
        }
        return ;
    }
    if sorted[sorted.len() - 1].1 >= x.1 {
        sorted.push(x);
        proof {
            assert(spec_pairs_view(sorted@) =~= spec_pairs_view(old(sorted)@).push(xv));
        }
    } else {
        let last = sorted.pop().unwrap();
        let ghost lastv = (last.0@, last.1);
        proof {
            assert(spec_pairs_view(sorted@) =~= spec_pairs_view(old(sorted)@).drop_last());
            assert(spec_pairs_view(old(sorted)@).last() == lastv);
        }
        insert_desc(sorted, x);
        sorted.push(last);
        proof {
            assert(spec_pairs_view(sorted@) =~= spec_insert_desc(
                spec_pairs_view(old(sorted)@).drop_last(),
                xv,
            ).push(lastv));
        }
    }
}

impl DemoEvents {
    /// The players with the most kills, best first, at most `limit` of
    /// them; players with equal kill counts keep their list order.
    pub fn top_fraggers(&self, limit: usize) -> (r: Vec<(String, u64)>)
        ensures
            spec_pairs_view(r@) == spec_top_fraggers(self@.players, limit as int),
    {
        let mut pairs: Vec<(String, u64)> = Vec::new();
        let mut i: usize = 0;
        while i < self.players.len()
            invariant
                i <= self.players@.len(),
                pairs@.len() == i,
                forall|t: int|
                    0 <= t < i ==> spec_pairs_view(pairs@)[t] == (
                        self.players@[t]@.name,
                        self.players@[t]@.kills,
                    ),
            decreases self.players@.len() - i,
        {
            let ghost ppre = pairs@;
            let p = &self.players[i];
            pairs.push((p.name.clone(), p.kills));
            proof {
                assert forall|t: int| 0 <= t < ppre.len() implies spec_pairs_view(pairs@)[t]
                    == spec_pairs_view(ppre)[t] by {
                    assert(pairs@[t] == ppre[t]);
                }
                assert(spec_pairs_view(pairs@)[ppre.len() as int] == (
                    self.players@[i as int]@.name,
                    self.players@[i as int]@.kills,
                ));
                assert forall|t: int| 0 <= t < i + 1 implies spec_pairs_view(pairs@)[t] == (
                    self.players@[t]@.name,
                    self.players@[t]@.kills,
                ) by {
                    if t < i {
                        assert(spec_pairs_view(ppre)[t] == (
                            self.players@[t]@.name,
                            self.players@[t]@.kills,
                        ));
                        assert(spec_pairs_view(pairs@)[t] == spec_pairs_view(ppre)[t]);
                    } else {
                        assert(spec_pairs_view(pairs@)[t] == (
                            self.players@[i as int]@.name,
                            self.players@[i as int]@.kills,
                        ));
                    }
                }
            }
            i = i + 1;
        }
        proof {
            assert(spec_pairs_view(pairs@) =~= spec_frag_pairs(self@.players));
        }
        let ghost all = spec_pairs_view(pairs@);
        let mut sorted: Vec<(String, u64)> = Vec::new();
        let mut n: usize = 0;
        proof {
            assert(all.subrange(0, 0) =~= Seq::<(Seq<char>, u64)>::empty());
        }
        while n < pairs.len()
            invariant
                n <= pairs@.len(),
                all == spec_pairs_view(pairs@),
                all.len() == pairs@.len(),
                spec_pairs_view(sorted@) == spec_sort_desc(all.subrange(0, n as int)),
            decreases pairs@.len() - n,
        {
            let p = &pairs[n];
            insert_desc(&mut sorted, (p.0.clone(), p.1));
            proof {
                assert(all.subrange(0, n + 1).drop_last() =~= all.subrange(0, n as int));
                assert(all.subrange(0, n + 1).last() == all[n as int]);
            }
            n = n + 1;
        }
        proof {
            assert(all.subrange(0, pairs@.len() as int) =~= all);
        }
        if limit < sorted.len() {
            let ghost prevec = sorted@;
            let ghost pre = spec_pairs_view(sorted@);
            sorted.truncate(limit);
            proof {
                assert forall|t: int| 0 <= t < limit implies spec_pairs_view(sorted@)[t]
                    == pre.take(limit as int)[t] by {
                    assert(sorted@[t] == prevec[t]);
                }
                assert(spec_pairs_view(sorted@) =~= pre.take(limit as int));
            }
        }
        sorted
    }
}

/// An equal copy of one event.
fn clone_event(e: &GameEvent) -> (r: GameEvent)
    ensures
        r@ == e@,
{
    match e {
        GameEvent::Kill(k) => GameEvent::Kill(k.clone()),
        GameEvent::Headshot(h) => GameEvent::Headshot(h.clone()),
        GameEvent::Clutch(c) => GameEvent::Clutch(c.clone()),
        GameEvent::Round(r) => GameEvent::Round(r.clone()),
    }
}

/// Whether two string slices hold the same characters.
fn str_eq(a: &str, b: &str) -> (r: bool)
    ensures
        r == (a@ == b@),
{
    let la = a.unicode_len();
    let lb = b.unicode_len();
    if la != lb {
        return false;
    }
    let mut i: usize = 0;
    while i < la
        invariant
            la == a@.len(),
            la == b@.len(),
            i <= la,
            forall|j: int| 0 <= j < i ==> a@[j] == b@[j],
        decreases la - i,
    {
        if a.get_char(i) != b.get_char(i) {
            return false;
        }
        i = i + 1;
    }
    proof {
        assert(a@ =~= b@);
    }
    true
}

} // verus!
