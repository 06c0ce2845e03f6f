use vstd::prelude::*;

use crate::error::DemoError;
use crate::event_extractor::{
    lemma_headshots_paired, spec_extract, spec_extract_events, spec_finalize,
    spec_finalize_players, spec_fresh_extractor, spec_headshots_of, EventExtractor, ExtractStateV,
};
use crate::events::{
    spec_empty_events, spec_empty_stats, DemoEvents, DemoEventsV, MatchStats, PlayerV,
};
use crate::protobuf_parser::{
    spec_has_signature, spec_messages, spec_parse_demo, spec_skip_header, spec_step_frame,
    spec_varint, DemoMessageV, ProtobufParser,
};
use crate::utils::{ratio_centi, spec_ratio_centi};

verus! {

/// Options threaded into one decode call.
///
/// The decoder itself always walks every frame; the flags record what a
/// caller asked for, and `calculate_stats` decides whether the
/// match-wide statistics are computed at the end of a decode.
#[derive(Clone, Copy, Debug)]
pub struct ParseOptions {
    /// Whether to extract player positions.
    pub extract_positions: bool,
    /// Whether to extract weapon information.
    pub extract_weapons: bool,
    /// Whether to extract round information.
    pub extract_rounds: bool,
    /// Whether to compute the match-wide statistics.
    pub calculate_stats: bool,
    /// Largest number of events a caller wants, zero for no limit.
    pub max_events: usize,
    /// Whether a file is validated before its bytes are decoded.
    pub validate_format: bool,
}

/// The default options: everything on, no event limit.
pub open spec fn spec_default_options() -> ParseOptions {
    ParseOptions {
        extract_positions: true,
        extract_weapons: true,
        extract_rounds: true,
        calculate_stats: true,
        max_events: 0,
        validate_format: true,
    }
}

impl ParseOptions {
    /// The smallest useful configuration: kills only, no validation.
    pub fn minimal() -> (r: ParseOptions)
        ensures
            r == (ParseOptions {
                extract_positions: false,
                extract_weapons: false,
                extract_rounds: false,
                calculate_stats: false,
                max_events: 0,
                validate_format: false,
            }),
    {
        ParseOptions {
            extract_positions: false,
            extract_weapons: false,
            extract_rounds: false,
            calculate_stats: false,
            max_events: 0,
            validate_format: false,
        }
    }

    /// Everything on.
    pub fn comprehensive() -> (r: ParseOptions)
        ensures
            r == spec_default_options(),
    {
        ParseOptions {
            extract_positions: true,
            extract_weapons: true,
            extract_rounds: true,
            calculate_stats: true,
            max_events: 0,
            validate_format: true,
        }
    }
}

impl Default for ParseOptions {
    /// The default options: everything on, no event limit.
    fn default() -> (r: ParseOptions)
        ensures
            r == spec_default_options(),
    {
        ParseOptions {
            extract_positions: true,
            extract_weapons: true,
            extract_rounds: true,
            calculate_stats: true,
            max_events: 0,
            validate_format: true,
        }
    }
}

/// The match-wide statistics of a decoded model: counts of the event
/// lists, the final score from the last round, the average kills per
/// round (zero when no round finished), and the duration in minutes.
pub open spec fn spec_match_stats(ev: DemoEventsV) -> MatchStats {
    MatchStats {
        total_rounds: ev.rounds.len() as u64,
        final_t_score: if ev.rounds.len() > 0 {
            ev.rounds.last().t_score
        } else {
            0
        },
        final_ct_score: if ev.rounds.len() > 0 {
            ev.rounds.last().ct_score
        } else {
            0
        },
        total_kills: ev.kills.len() as u64,
        total_headshots: ev.headshots.len() as u64,
        avg_kills_per_round_centi: spec_ratio_centi(
            ev.kills.len() as u64,
            ev.rounds.len() as u64,
        ),
        duration_minutes: ev.metadata.duration_seconds / 60,
    }
}

/// A model with its statistics recomputed from its own lists.
pub open spec fn spec_apply_stats(ev: DemoEventsV) -> DemoEventsV {
    DemoEventsV { stats: spec_match_stats(ev), ..ev }
}

/// The whole decode of one buffer: frames, extraction, and, when asked
/// for, the match-wide statistics.
pub open spec fn spec_decode(data: Seq<u8>, calculate_stats: bool) -> Result<
    DemoEventsV,
    DemoError,
> {
    match spec_parse_demo(data) {
        Err(e) => Err(e),
        Ok(msgs) => {
            let ev = spec_extract_events(msgs);
            Ok(
                if calculate_stats {
                    spec_apply_stats(ev)
                } else {
                    ev
                },
            )
        },
    }
}

/// The demo decoder: stateless but for its options.
pub struct CS2Parser {
    /// Options threaded into each decode.
    pub options: ParseOptions,
}

impl CS2Parser {
    /// A decoder with the default options.
    pub fn new() -> (r: CS2Parser)
        ensures
            r.options == spec_default_options(),
    {
        CS2Parser { options: ParseOptions::comprehensive() }
    }

    /// A decoder with the given options.
    pub fn with_options(options: ParseOptions) -> (r: CS2Parser)
        ensures
            r.options == options,
    {
        CS2Parser { options }
    }

    /// Decode a complete demo buffer into the structured model.
    ///
    /// Either the whole model comes back, or the typed error that made
    /// the stream undecodable; no partial model is ever returned.
    pub fn parse_bytes_sync(&self, data: Vec<u8>) -> (r: Result<DemoEvents, DemoError>)
        ensures
            match r {
                Ok(ev) => spec_decode(data@, self.options.calculate_stats) == Ok::<
                    DemoEventsV,
                    DemoError,
                >(ev@),
                Err(e) => spec_decode(data@, self.options.calculate_stats) == Err::<
                    DemoEventsV,
                    DemoError,
                >(e),
            },
    {
        let mut protobuf_parser = ProtobufParser::new(data);
        let messages = match protobuf_parser.parse_all() {
            Ok(m) => m,
            Err(e) => return Err(e),
        };
        let mut event_extractor = EventExtractor::new();
        let mut events = match event_extractor.extract_events(messages) {
            Ok(ev) => ev,
            Err(e) => return Err(e),
        };
        if self.options.calculate_stats {
            events.stats = self.calculate_match_stats(&events);
        }
        Ok(events)
    }

    /// Compute the match-wide statistics of a decoded model.
    ///
    /// This reads only the event lists and the metadata, never the
    /// statistics themselves, so recomputing is idempotent; and with no
    /// finished round the average is exactly zero, never a division
    /// fault.
    pub fn calculate_match_stats(&self, events: &DemoEvents) -> (r: MatchStats)
        ensures
            r == spec_match_stats(events@),
            events@.rounds.len() == 0 ==> r.avg_kills_per_round_centi == 0,
    {
        let total_rounds = events.rounds.len() as u64;
        let total_kills = events.kills.len() as u64;
        let total_headshots = events.headshots.len() as u64;
        let final_t_score: u32;
        let final_ct_score: u32;
        if events.rounds.len() > 0 {
            let last_idx = events.rounds.len() - 1;
            final_t_score = events.rounds[last_idx].t_score;
            final_ct_score = events.rounds[last_idx].ct_score;
        } else {
            final_t_score = 0;
            final_ct_score = 0;
        }
        MatchStats {
            total_rounds,
            final_t_score,
            final_ct_score,
            total_kills,
            total_headshots,
            avg_kills_per_round_centi: ratio_centi(total_kills, total_rounds),
            duration_minutes: events.metadata.duration_seconds / 60,
        }
    }
}

/// Recomputing the statistics of a model whose statistics were already
/// recomputed changes nothing: the statistics are a pure function of
/// the event lists and the metadata, which it does not touch.
pub proof fn lemma_stats_idempotent(ev: DemoEventsV)
    ensures
        spec_apply_stats(spec_apply_stats(ev)) == spec_apply_stats(ev),
{
}

/// With no finished round the average kills per round is exactly zero:
/// the division is guarded, never faulting.
pub proof fn lemma_zero_rounds_zero_average(ev: DemoEventsV)
    requires
        ev.rounds.len() == 0,
    ensures
        spec_match_stats(ev).avg_kills_per_round_centi == 0,
{
}

/// Law: decoding is a function of the buffer and the options alone, so
/// decoding the same buffer twice yields identical models.
pub proof fn lemma_decode_deterministic(
    data: Seq<u8>,
    calculate_stats: bool,
    r1: Result<DemoEventsV, DemoError>,
    r2: Result<DemoEventsV, DemoError>,
)
    requires
        r1 == spec_decode(data, calculate_stats),
        r2 == spec_decode(data, calculate_stats),
    ensures
        r1 == r2,
{
}

/// Law: every buffer shorter than the signature, and every buffer that
/// does not start with it, decodes to `InvalidFormat` — never to a
/// model and never to another error.
pub proof fn lemma_unsigned_input_rejected(data: Seq<u8>, calculate_stats: bool)
    requires
        !spec_has_signature(data),
    ensures
        spec_decode(data, calculate_stats) == Err::<DemoEventsV, DemoError>(
            DemoError::InvalidFormat,
        ),
{
}

/// Law: a buffer holding exactly the signature and no frames decodes to
/// the empty model: empty event lists, zero-valued metadata and
/// statistics.
pub proof fn lemma_signature_only_empty_model(data: Seq<u8>, calculate_stats: bool)
    requires
        data.len() == 8,
        spec_has_signature(data),
    ensures
        spec_decode(data, calculate_stats) == Ok::<DemoEventsV, DemoError>(spec_empty_events()),
{
    assert(spec_skip_header(data, 8) == 8);
    assert(spec_messages(data, 8) == Ok::<Seq<DemoMessageV>, DemoError>(Seq::empty()));
    let init = ExtractStateV { events: spec_empty_events(), x: spec_fresh_extractor() };
    assert(spec_extract(Seq::<DemoMessageV>::empty(), init) == init);
    assert(spec_finalize_players(Seq::<PlayerV>::empty()) =~= Seq::<PlayerV>::empty());
    assert(spec_finalize(spec_empty_events()) == spec_empty_events());
    if calculate_stats {
        assert(spec_match_stats(spec_empty_events()) == spec_empty_stats());
    }
}

/// Law: a length-delimited frame whose declared length runs past the
/// end of the buffer makes the whole decode fail with `Corrupted`; no
/// partial model is returned. Stated here for the first frame of the
/// stream; `spec_messages` propagates the same error for every later
/// frame the reader reaches.
pub proof fn lemma_oversized_frame_rejected(data: Seq<u8>, calculate_stats: bool)
    requires
        spec_has_signature(data),
        ({
            let p = spec_skip_header(data, 8);
            &&& spec_varint(data, p, 0, 0) matches Ok(h)
            &&& data[p] & 7 == 2
            &&& (spec_varint(data, h.1, 0, 0) matches Ok(l) && l.0 + l.1 > data.len())
        }),
    ensures
        spec_decode(data, calculate_stats) == Err::<DemoEventsV, DemoError>(DemoError::Corrupted),
{
    let p = spec_skip_header(data, 8);
    assert(spec_step_frame(data, p) == Err::<(Option<DemoMessageV>, int), DemoError>(
        DemoError::Corrupted,
    ));
}

/// Law: in every successfully decoded model, each kill flagged as a
/// headshot has its paired headshot record — same shooter, target,
/// weapon, round and tick — and the headshot list holds nothing else.
pub proof fn lemma_decode_headshots_paired(data: Seq<u8>, calculate_stats: bool)
    ensures
        spec_decode(data, calculate_stats) matches Ok(m) ==> m.headshots == spec_headshots_of(
            m.kills,
        ),
{
    match spec_parse_demo(data) {
        Ok(msgs) => {
            lemma_headshots_paired(msgs, spec_fresh_extractor());
        },
        Err(_) => (),
    }
}

} // verus!
