use vstd::prelude::*;

use crate::error::DemoError;
use vstd::slice::{slice_subrange, slice_to_vec};
use vstd::string::StringSliceAdditionalSpecFns;
use vstd::utf8::{decode_utf8, valid_utf8};

verus! {

/// Relies on `core::str::from_utf8`: returns the string slice whose UTF-8
/// encoding is exactly the input, and rejects byte sequences that are not
/// valid UTF-8.
#[verifier::external_body]
pub(crate) fn utf8_to_str(v: &[u8]) -> (r: Option<&str>)
    ensures
        match r {
            Some(s) => valid_utf8(v@) && s.spec_bytes() == v@ && s@ == decode_utf8(v@),
            None => !valid_utf8(v@),
        },
{
    core::str::from_utf8(v).ok()
}

/// Little-endian value of four bytes.
pub open spec fn spec_le_u32(b0: u8, b1: u8, b2: u8, b3: u8) -> u32 {
    (b0 as u32) | ((b1 as u32) << 8) | ((b2 as u32) << 16) | ((b3 as u32) << 24)
}

/// Little-endian value of eight bytes.
pub open spec fn spec_le_u64(
    b0: u8,
    b1: u8,
    b2: u8,
    b3: u8,
    b4: u8,
    b5: u8,
    b6: u8,
    b7: u8,
) -> u64 {
    (b0 as u64) | ((b1 as u64) << 8) | ((b2 as u64) << 16) | ((b3 as u64) << 24)
        | ((b4 as u64) << 32) | ((b5 as u64) << 40) | ((b6 as u64) << 48) | ((b7 as u64) << 56)
}

/// Outcome of reading a base-128 variable-length integer at `pos`:
/// the decoded value and the position just past its last byte, or the
/// error the read fails with.
///
/// Seven payload bits per byte, least-significant group first; a set
/// high bit continues the integer. A varint whose shift would reach
/// 32 bits fails with `VarintOverflow`; a buffer that ends mid-varint
/// fails with `UnexpectedEnd`.
pub open spec fn spec_varint(data: Seq<u8>, pos: int, shift: u32, acc: u32) -> Result<
    (u32, int),
    DemoError,
>
    decreases 32 - shift,
{
    if pos < 0 || pos >= data.len() {
        Err(DemoError::UnexpectedEnd)
    } else {
        let b = data[pos];
        let acc2 = acc | (((b & 0x7f) as u32) << shift);
        if b & 0x80 == 0 {
            Ok((acc2, pos + 1))
        } else if shift >= 25 {
            Err(DemoError::VarintOverflow)
        } else {
            spec_varint(data, pos + 1, (shift + 7) as u32, acc2)
        }
    }
}

/// Reading a varint never moves backwards and never reads past the buffer.
pub proof fn lemma_varint_advances(data: Seq<u8>, pos: int, shift: u32, acc: u32)
    requires
        0 <= pos,
    ensures
        spec_varint(data, pos, shift, acc) matches Ok(r) ==> pos < r.1 <= data.len(),
    decreases 32 - shift,
{
    if pos < data.len() {
        let b = data[pos];
        if b & 0x80 == 0 {
        } else if shift < 25 {
            lemma_varint_advances(data, pos + 1, (shift + 7) as u32, acc | (((b & 0x7f) as u32) << shift));
        }
    }
}

/// Positional reader over an immutable byte buffer.
///
/// Every read either returns the decoded value and advances the
/// position, or signals a typed `DemoError`; no read panics.
pub struct ProtobufParser {
    /// The whole demo buffer; never changed after construction.
    pub data: Vec<u8>,
    /// Read position; never exceeds `data.len()`.
    pub position: usize,
}

impl ProtobufParser {
    /// The position stays inside the buffer.
    pub open spec fn wf(&self) -> bool {
        self.position <= self.data@.len()
    }

    /// Create a reader at the start of `data`.
    pub fn new(data: Vec<u8>) -> (r: ProtobufParser)
        ensures
            r.wf(),
            r.data@ == data@,
            r.position == 0,
    {
        ProtobufParser { data, position: 0 }
    }

    /// Current read position in the buffer.
    pub fn position(&self) -> (r: usize)
        ensures
            r == self.position,
    {
        self.position
    }

    /// Total length of the buffer.
    pub fn data_len(&self) -> (r: usize)
        ensures
            r == self.data@.len(),
    {
        self.data.len()
    }

    /// Read one byte and advance past it.
    pub fn read_u8(&mut self) -> (r: Result<u8, DemoError>)
        requires
            old(self).wf(),
        ensures
            final(self).wf(),
            final(self).data@ == old(self).data@,
            match r {
                Ok(b) => old(self).position < old(self).data@.len()
                    && b == old(self).data@[old(self).position as int]
                    && final(self).position == old(self).position + 1,
                Err(e) => e == DemoError::UnexpectedEnd
                    && old(self).position == old(self).data@.len()
                    && final(self).position == old(self).position,
            },
    {
        if self.position < self.data.len() {
            let b = self.data[self.position];
            self.position = self.position + 1;
            Ok(b)
        } else {
            Err(DemoError::UnexpectedEnd)
        }
    }

    /// Read a base-128 variable-length unsigned integer.
    pub fn read_varint(&mut self) -> (r: Result<u32, DemoError>)
        requires
            old(self).wf(),
        ensures
            final(self).wf(),
            final(self).data@ == old(self).data@,
            old(self).position <= final(self).position,
            match r {
                Ok(v) => spec_varint(old(self).data@, old(self).position as int, 0, 0)
                    == Ok::<(u32, int), DemoError>((v, final(self).position as int)),
                Err(e) => spec_varint(old(self).data@, old(self).position as int, 0, 0)
                    == Err::<(u32, int), DemoError>(e),
            },
    {
        let ghost data = old(self).data@;
        let ghost pos0 = old(self).position as int;
        let mut shift: u32 = 0;
        let mut result: u32 = 0;
        loop
            invariant
                self.wf(),
                self.data@ == old(self).data@,
                self.data@ == data,
                old(self).position as int == pos0,
                pos0 <= self.position as int <= data.len(),
                shift <= 28,
                shift % 7 == 0,
                spec_varint(data, pos0, 0, 0) == spec_varint(
                    data,
                    self.position as int,
                    shift,
                    result,
                ),
            decreases data.len() - self.position,
        {
            let ghost pre_pos = self.position as int;
            let ghost pre_shift = shift;
            let ghost pre_result = result;
            if self.position >= self.data.len() {
                assert(spec_varint(data, pre_pos, pre_shift, pre_result)
                    == Err::<(u32, int), DemoError>(DemoError::UnexpectedEnd));
                return Err(DemoError::UnexpectedEnd);
            }
            let b = self.data[self.position];
            self.position = self.position + 1;
            result = result | (((b & 0x7f) as u32) << shift);
            if b & 0x80 == 0 {
                assert(spec_varint(data, pre_pos, pre_shift, pre_result)
                    == Ok::<(u32, int), DemoError>((result, self.position as int)));
                return Ok(result);
            }
            if shift >= 25 {
                assert(spec_varint(data, pre_pos, pre_shift, pre_result)
                    == Err::<(u32, int), DemoError>(DemoError::VarintOverflow));
                return Err(DemoError::VarintOverflow);
            }
            shift = shift + 7;
            assert(spec_varint(data, pre_pos, pre_shift, pre_result)
                == spec_varint(data, self.position as int, shift, result));
        }
    }

    /// Read four bytes as a little-endian unsigned integer.
    pub fn read_u32(&mut self) -> (r: Result<u32, DemoError>)
        requires
            old(self).wf(),
        ensures
            final(self).wf(),
            final(self).data@ == old(self).data@,
            match r {
                Ok(v) => old(self).position + 4 <= old(self).data@.len()
                    && final(self).position == old(self).position + 4
                    && v == spec_le_u32(
                        old(self).data@[old(self).position as int],
                        old(self).data@[old(self).position + 1],
                        old(self).data@[old(self).position + 2],
                        old(self).data@[old(self).position + 3],
                    ),
                Err(e) => e == DemoError::UnexpectedEnd
                    && old(self).position + 4 > old(self).data@.len()
                    && final(self).position == old(self).position,
            },
    {
        if self.data.len() - self.position < 4 {
            return Err(DemoError::UnexpectedEnd);
        }
        let p = self.position;
        let v = (self.data[p] as u32) | ((self.data[p + 1] as u32) << 8)
            | ((self.data[p + 2] as u32) << 16) | ((self.data[p + 3] as u32) << 24);
        self.position = p + 4;
        Ok(v)
    }

    /// Read eight bytes as a little-endian unsigned integer.
    pub fn read_u64(&mut self) -> (r: Result<u64, DemoError>)
        requires
            old(self).wf(),
        ensures
            final(self).wf(),
            final(self).data@ == old(self).data@,
            match r {
                Ok(v) => old(self).position + 8 <= old(self).data@.len()
                    && final(self).position == old(self).position + 8
                    && v == spec_le_u64(
                        old(self).data@[old(self).position as int],
                        old(self).data@[old(self).position + 1],
                        old(self).data@[old(self).position + 2],
                        old(self).data@[old(self).position + 3],
                        old(self).data@[old(self).position + 4],
                        old(self).data@[old(self).position + 5],
                        old(self).data@[old(self).position + 6],
                        old(self).data@[old(self).position + 7],
                    ),
                Err(e) => e == DemoError::UnexpectedEnd
                    && old(self).position + 8 > old(self).data@.len()
                    && final(self).position == old(self).position,
            },
    {
        if self.data.len() - self.position < 8 {
            return Err(DemoError::UnexpectedEnd);
        }
        let p = self.position;
        let v = (self.data[p] as u64) | ((self.data[p + 1] as u64) << 8)
            | ((self.data[p + 2] as u64) << 16) | ((self.data[p + 3] as u64) << 24)
            | ((self.data[p + 4] as u64) << 32) | ((self.data[p + 5] as u64) << 40)
            | ((self.data[p + 6] as u64) << 48) | ((self.data[p + 7] as u64) << 56);
        self.position = p + 8;
        Ok(v)
    }

    /// Read exactly `length` bytes as an owned copy.
    pub fn read_bytes(&mut self, length: usize) -> (r: Result<Vec<u8>, DemoError>)
        requires
            old(self).wf(),
        ensures
            final(self).wf(),
            final(self).data@ == old(self).data@,
            match r {
                Ok(v) => old(self).position + length <= old(self).data@.len()
                    && final(self).position == old(self).position + length
                    && v@ == old(self).data@.subrange(
                        old(self).position as int,
                        old(self).position + length,
                    ),
                Err(e) => e == DemoError::UnexpectedEnd
                    && old(self).position + length > old(self).data@.len()
                    && final(self).position == old(self).position,
            },
    {
        if length > self.data.len() - self.position {
            return Err(DemoError::UnexpectedEnd);
        }
        let p = self.position;
        let dlen = self.data.len();
        let mut out: Vec<u8> = Vec::new();
        let mut i: usize = 0;
        while i < length
            invariant
                self.wf(),
                dlen == self.data@.len(),
                p + length <= dlen,
                i <= length,
                out@ == self.data@.subrange(p as int, p + i),
            decreases length - i,
        {
            out.push(self.data[p + i]);
            i = i + 1;
            assert(out@ == self.data@.subrange(p as int, p + i));
        }
        self.position = p + length;
        Ok(out)
    }

    /// Whether the buffer starts with the eight-byte demo signature.
    pub fn check_signature(&self) -> (r: bool)
        ensures
            r == spec_has_signature(self.data@),
    {
        if self.data.len() < 8 {
            return false;
        }
        self.data[0] == 0x50 && self.data[1] == 0x42 && self.data[2] == 0x44
            && self.data[3] == 0x45 && self.data[4] == 0x4d && self.data[5] == 0x53
            && self.data[6] == 0x32 && self.data[7] == 0x00
    }

    /// Move past the signature and any header padding, to the first byte
    /// that looks like the start of a length-delimited frame.
    pub fn skip_header(&mut self)
        requires
            old(self).wf(),
            old(self).data@.len() >= 8,
        ensures
            final(self).wf(),
            final(self).data@ == old(self).data@,
            final(self).position as int == spec_skip_header(old(self).data@, 8),
    {
        self.position = 8;
        while self.position < self.data.len() && self.data[self.position] & 7 != 2
            invariant
                self.wf(),
                self.data@ == old(self).data@,
                8 <= self.position,
                spec_skip_header(self.data@, 8) == spec_skip_header(
                    self.data@,
                    self.position as int,
                ),
            decreases self.data@.len() - self.position,
        {
            self.position = self.position + 1;
        }
    }
}

/// The fixed eight-byte signature at the start of every demo buffer:
/// the ASCII tag `PBDEMS2` followed by one padding byte.
pub open spec fn spec_has_signature(data: Seq<u8>) -> bool {
    data.len() >= 8 && data[0] == 0x50 && data[1] == 0x42 && data[2] == 0x44 && data[3] == 0x45
        && data[4] == 0x4d && data[5] == 0x53 && data[6] == 0x32 && data[7] == 0x00
}

/// Position of the first byte at or after `i` whose low three bits mark a
/// length-delimited frame, or the end of the buffer if there is none.
pub open spec fn spec_skip_header(data: Seq<u8>, i: int) -> int
    decreases data.len() - i,
{
    if 0 <= i < data.len() {
        if data[i] & 7 == 2 {
            i
        } else {
            spec_skip_header(data, i + 1)
        }
    } else {
        i
    }
}

/// Demo header record: stream-wide metadata.
pub struct DemoHeader {
    pub version: u32,
    pub map_name: String,
    pub server_name: String,
    pub player_count: u32,
    pub tick_count: u32,
    pub duration_seconds: u32,
}

/// Mathematical value of a `DemoHeader`.
pub struct DemoHeaderV {
    pub version: u32,
    pub map_name: Seq<char>,
    pub server_name: Seq<char>,
    pub player_count: u32,
    pub tick_count: u32,
    pub duration_seconds: u32,
}

impl View for DemoHeader {
    type V = DemoHeaderV;

    open spec fn view(&self) -> DemoHeaderV {
        DemoHeaderV {
            version: self.version,
            map_name: self.map_name@,
            server_name: self.server_name@,
            player_count: self.player_count,
            tick_count: self.tick_count,
            duration_seconds: self.duration_seconds,
        }
    }
}

/// One kill carried inside a game-event record.
pub struct KillEvent {
    pub killer: String,
    pub victim: String,
    pub weapon: String,
    pub headshot: bool,
    pub killer_team: u32,
    pub victim_team: u32,
}

/// Mathematical value of a `KillEvent`.
pub struct KillEventV {
    pub killer: Seq<char>,
    pub victim: Seq<char>,
    pub weapon: Seq<char>,
    pub headshot: bool,
    pub killer_team: u32,
    pub victim_team: u32,
}

impl View for KillEvent {
    type V = KillEventV;

    open spec fn view(&self) -> KillEventV {
        KillEventV {
            killer: self.killer@,
            victim: self.victim@,
            weapon: self.weapon@,
            headshot: self.headshot,
            killer_team: self.killer_team,
            victim_team: self.victim_team,
        }
    }
}

/// Game-event record: the event kind, the tick it happened at, and the
/// kill it carries when the kind marks a kill.
pub struct GameEvent {
    pub event_type: u32,
    pub tick: u32,
    pub kill: Option<KillEvent>,
}

/// Mathematical value of a `GameEvent`.
pub struct GameEventV {
    pub event_type: u32,
    pub tick: u32,
    pub kill: Option<KillEventV>,
}

impl View for GameEvent {
    type V = GameEventV;

    open spec fn view(&self) -> GameEventV {
        GameEventV {
            event_type: self.event_type,
            tick: self.tick,
            kill: match self.kill {
                Some(k) => Some(k@),
                None => None,
            },
        }
    }
}

/// Player-information record.
pub struct PlayerInfo {
    pub steam_id: u64,
    pub name: String,
    pub team: u32,
    pub kills: u32,
    pub deaths: u32,
    pub assists: u32,
}

/// Mathematical value of a `PlayerInfo`.
pub struct PlayerInfoV {
    pub steam_id: u64,
    pub name: Seq<char>,
    pub team: u32,
    pub kills: u32,
    pub deaths: u32,
    pub assists: u32,
}

impl View for PlayerInfo {
    type V = PlayerInfoV;

    open spec fn view(&self) -> PlayerInfoV {
        PlayerInfoV {
            steam_id: self.steam_id,
            name: self.name@,
            team: self.team,
            kills: self.kills,
            deaths: self.deaths,
            assists: self.assists,
        }
    }
}

/// Round-boundary record.
pub struct RoundInfo {
    pub round_number: u32,
    pub winner_team: u32,
    pub reason: u32,
    pub t_score: u32,
    pub ct_score: u32,
    pub start_tick: u32,
    pub end_tick: u32,
}

/// Mathematical value of a `RoundInfo`.
pub struct RoundInfoV {
    pub round_number: u32,
    pub winner_team: u32,
    pub reason: u32,
    pub t_score: u32,
    pub ct_score: u32,
    pub start_tick: u32,
    pub end_tick: u32,
}

impl View for RoundInfo {
    type V = RoundInfoV;

    open spec fn view(&self) -> RoundInfoV {
        RoundInfoV {
            round_number: self.round_number,
            winner_team: self.winner_team,
            reason: self.reason,
            t_score: self.t_score,
            ct_score: self.ct_score,
            start_tick: self.start_tick,
            end_tick: self.end_tick,
        }
    }
}

/// A frame after interpretation: one of the four known record kinds, or
/// `Unknown` carrying the tag and the raw payload for forward tolerance.
pub enum DemoMessage {
    Header(DemoHeader),
    GameEvent(GameEvent),
    PlayerInfo(PlayerInfo),
    RoundInfo(RoundInfo),
    Unknown { field_id: u32, data: Vec<u8> },
}

/// Mathematical value of a `DemoMessage`.
pub enum DemoMessageV {
    Header(DemoHeaderV),
    GameEvent(GameEventV),
    PlayerInfo(PlayerInfoV),
    RoundInfo(RoundInfoV),
    Unknown { field_id: u32, data: Seq<u8> },
}

impl View for DemoMessage {
    type V = DemoMessageV;

    open spec fn view(&self) -> DemoMessageV {
        match self {
            DemoMessage::Header(h) => DemoMessageV::Header(h@),
            DemoMessage::GameEvent(g) => DemoMessageV::GameEvent(g@),
            DemoMessage::PlayerInfo(p) => DemoMessageV::PlayerInfo(p@),
            DemoMessage::RoundInfo(r) => DemoMessageV::RoundInfo(r@),
            DemoMessage::Unknown { field_id, data } => DemoMessageV::Unknown {
                field_id: *field_id,
                data: data@,
            },
        }
    }
}

/// A varint field inside a record payload: the value and the position
/// just past it, or `None` if the payload rejects the read.
pub open spec fn spec_varint_field(data: Seq<u8>, pos: int) -> Option<(u32, int)> {
    match spec_varint(data, pos, 0, 0) {
        Ok(r) => Some(r),
        Err(_) => None,
    }
}

/// A string field inside a record payload: a varint byte length followed
/// by that many bytes of UTF-8.
pub open spec fn spec_string_field(data: Seq<u8>, pos: int) -> Option<(Seq<char>, int)> {
    match spec_varint_field(data, pos) {
        None => None,
        Some((len, p1)) => {
            if p1 + len > data.len() {
                None
            } else {
                let bytes = data.subrange(p1, p1 + len);
                if valid_utf8(bytes) {
                    Some((decode_utf8(bytes), p1 + len))
                } else {
                    None
                }
            }
        },
    }
}

/// Layout of a header payload: version, map name, server name, player
/// count, tick count, duration in seconds. Trailing bytes are ignored.
pub open spec fn spec_parse_header(p: Seq<u8>) -> Option<DemoHeaderV> {
    match spec_varint_field(p, 0) {
        None => None,
        Some((version, p1)) => match spec_string_field(p, p1) {
            None => None,
            Some((map_name, p2)) => match spec_string_field(p, p2) {
                None => None,
                Some((server_name, p3)) => match spec_varint_field(p, p3) {
                    None => None,
                    Some((player_count, p4)) => match spec_varint_field(p, p4) {
                        None => None,
                        Some((tick_count, p5)) => match spec_varint_field(p, p5) {
                            None => None,
                            Some((duration_seconds, _)) => Some(
                                DemoHeaderV {
                                    version,
                                    map_name,
                                    server_name,
                                    player_count,
                                    tick_count,
                                    duration_seconds,
                                },
                            ),
                        },
                    },
                },
            },
        },
    }
}

/// The event kind that marks a kill inside a game-event payload.
pub open spec fn spec_kill_event_type() -> u32 {
    1
}

/// Layout of a game-event payload: event kind and tick, then, for a kill
/// event, killer, victim and weapon names, a headshot flag, and the two
/// team codes. Trailing bytes are ignored.
pub open spec fn spec_parse_game_event(p: Seq<u8>) -> Option<GameEventV> {
    match spec_varint_field(p, 0) {
        None => None,
        Some((event_type, p1)) => match spec_varint_field(p, p1) {
            None => None,
            Some((tick, p2)) => {
                if event_type != spec_kill_event_type() {
                    Some(GameEventV { event_type, tick, kill: None })
                } else {
                    match spec_string_field(p, p2) {
                        None => None,
                        Some((killer, p3)) => match spec_string_field(p, p3) {
                            None => None,
                            Some((victim, p4)) => match spec_string_field(p, p4) {
                                None => None,
                                Some((weapon, p5)) => match spec_varint_field(p, p5) {
                                    None => None,
                                    Some((headshot, p6)) => match spec_varint_field(p, p6) {
                                        None => None,
                                        Some((killer_team, p7)) => match spec_varint_field(p, p7) {
                                            None => None,
                                            Some((victim_team, _)) => Some(
                                                GameEventV {
                                                    event_type,
                                                    tick,
                                                    kill: Some(
                                                        KillEventV {
                                                            killer,
                                                            victim,
                                                            weapon,
                                                            headshot: headshot != 0,
                                                            killer_team,
                                                            victim_team,
                                                        },
                                                    ),
                                                },
                                            ),
                                        },
                                    },
                                },
                            },
                        },
                    }
                }
            },
        },
    }
}

/// Layout of a player-information payload: account identifier, name,
/// team code, and the kill, death and assist snapshot counters.
/// Trailing bytes are ignored.
pub open spec fn spec_parse_player_info(p: Seq<u8>) -> Option<PlayerInfoV> {
    match spec_varint_field(p, 0) {
        None => None,
        Some((steam_id, p1)) => match spec_string_field(p, p1) {
            None => None,
            Some((name, p2)) => match spec_varint_field(p, p2) {
                None => None,
                Some((team, p3)) => match spec_varint_field(p, p3) {
                    None => None,
                    Some((kills, p4)) => match spec_varint_field(p, p4) {
                        None => None,
                        Some((deaths, p5)) => match spec_varint_field(p, p5) {
                            None => None,
                            Some((assists, _)) => Some(
                                PlayerInfoV {
                                    steam_id: steam_id as u64,
                                    name,
                                    team,
                                    kills,
                                    deaths,
                                    assists,
                                },
                            ),
                        },
                    },
                },
            },
        },
    }
}

/// Layout of a round-boundary payload: round number, winning team code,
/// win-condition code, the two score counters, and the start and end
/// ticks. Trailing bytes are ignored.
pub open spec fn spec_parse_round_info(p: Seq<u8>) -> Option<RoundInfoV> {
    match spec_varint_field(p, 0) {
        None => None,
        Some((round_number, p1)) => match spec_varint_field(p, p1) {
            None => None,
            Some((winner_team, p2)) => match spec_varint_field(p, p2) {
                None => None,
                Some((reason, p3)) => match spec_varint_field(p, p3) {
                    None => None,
                    Some((t_score, p4)) => match spec_varint_field(p, p4) {
                        None => None,
                        Some((ct_score, p5)) => match spec_varint_field(p, p5) {
                            None => None,
                            Some((start_tick, p6)) => match spec_varint_field(p, p6) {
                                None => None,
                                Some((end_tick, _)) => Some(
                                    RoundInfoV {
                                        round_number,
                                        winner_team,
                                        reason,
                                        t_score,
                                        ct_score,
                                        start_tick,
                                        end_tick,
                                    },
                                ),
                            },
                        },
                    },
                },
            },
        },
    }
}

/// Interpretation of one length-delimited frame: tags 1 to 4 map to the
/// four known record kinds; any other tag, and any known tag whose
/// payload does not parse, yields `Unknown` carrying the raw payload.
pub open spec fn spec_interpret(tag: u32, payload: Seq<u8>) -> DemoMessageV {
    if tag == 1 {
        match spec_parse_header(payload) {
            Some(h) => DemoMessageV::Header(h),
            None => DemoMessageV::Unknown { field_id: tag, data: payload },
        }
    } else if tag == 2 {
        match spec_parse_game_event(payload) {
            Some(g) => DemoMessageV::GameEvent(g),
            None => DemoMessageV::Unknown { field_id: tag, data: payload },
        }
    } else if tag == 3 {
        match spec_parse_player_info(payload) {
            Some(p) => DemoMessageV::PlayerInfo(p),
            None => DemoMessageV::Unknown { field_id: tag, data: payload },
        }
    } else if tag == 4 {
        match spec_parse_round_info(payload) {
            Some(r) => DemoMessageV::RoundInfo(r),
            None => DemoMessageV::Unknown { field_id: tag, data: payload },
        }
    } else {
        DemoMessageV::Unknown { field_id: tag, data: payload }
    }
}

/// Outcome of reading one frame at `pos`: the interpreted message (or
/// `None` for a skipped byte whose wire kind is reserved) and the
/// position just past the frame, or the error that makes the stream
/// undecodable from here on.
///
/// The low three bits of the frame header select the wire kind: 0 is one
/// varint, 1 is eight raw bytes, 5 is four raw bytes, 2 is a varint
/// length followed by that many payload bytes. A reserved wire kind is
/// a single skipped byte. A length-delimited frame whose declared
/// length exceeds the remaining buffer fails with `Corrupted`.
pub open spec fn spec_step_frame(data: Seq<u8>, pos: int) -> Result<
    (Option<DemoMessageV>, int),
    DemoError,
>
    recommends
        0 <= pos < data.len(),
{
    let kind = data[pos] & 7;
    if !(kind == 0 || kind == 1 || kind == 2 || kind == 5) {
        Ok((None, pos + 1))
    } else {
        match spec_varint(data, pos, 0, 0) {
            Err(e) => Err(e),
            Ok((header, p1)) => {
                let tag = header >> 3;
                if kind == 0 {
                    match spec_varint(data, p1, 0, 0) {
                        Err(e) => Err(e),
                        Ok((_, p2)) => Ok(
                            (
                                Some(
                                    DemoMessageV::Unknown {
                                        field_id: tag,
                                        data: data.subrange(p1, p2),
                                    },
                                ),
                                p2,
                            ),
                        ),
                    }
                } else if kind == 1 {
                    if p1 + 8 > data.len() {
                        Err(DemoError::UnexpectedEnd)
                    } else {
                        Ok(
                            (
                                Some(
                                    DemoMessageV::Unknown {
                                        field_id: tag,
                                        data: data.subrange(p1, p1 + 8),
                                    },
                                ),
                                p1 + 8,
                            ),
                        )
                    }
                } else if kind == 5 {
                    if p1 + 4 > data.len() {
                        Err(DemoError::UnexpectedEnd)
                    } else {
                        Ok(
                            (
                                Some(
                                    DemoMessageV::Unknown {
                                        field_id: tag,
                                        data: data.subrange(p1, p1 + 4),
                                    },
                                ),
                                p1 + 4,
                            ),
                        )
                    }
                } else {
                    match spec_varint(data, p1, 0, 0) {
                        Err(e) => Err(e),
                        Ok((len, p2)) => {
                            if p2 + len > data.len() {
                                Err(DemoError::Corrupted)
                            } else {
                                Ok(
                                    (
                                        Some(spec_interpret(tag, data.subrange(p2, p2 + len))),
                                        p2 + len,
                                    ),
                                )
                            }
                        },
                    }
                }
            },
        }
    }
}

/// Reading one frame always advances the position, and never past the
/// end of the buffer.
pub proof fn lemma_step_frame_advances(data: Seq<u8>, pos: int)
    requires
        0 <= pos < data.len(),
    ensures
        spec_step_frame(data, pos) matches Ok(r) ==> pos < r.1 <= data.len(),
{
    lemma_varint_advances(data, pos, 0, 0);
    match spec_varint(data, pos, 0, 0) {
        Ok(r) => lemma_varint_advances(data, r.1, 0, 0),
        Err(_) => (),
    }
}

/// The sequence of messages read from `pos` to the end of the buffer,
/// or the first error that stops the stream.
pub open spec fn spec_messages(data: Seq<u8>, pos: int) -> Result<Seq<DemoMessageV>, DemoError>
    decreases data.len() - pos,
{
    if pos < 0 || pos >= data.len() {
        Ok(Seq::empty())
    } else {
        match spec_step_frame(data, pos) {
            Err(e) => Err(e),
            Ok((m, p2)) => {
                proof {
                    lemma_step_frame_advances(data, pos);
                }
                match spec_messages(data, p2) {
                    Err(e) => Err(e),
                    Ok(rest) => match m {
                        Some(mv) => Ok(seq![mv] + rest),
                        None => Ok(rest),
                    },
                }
            },
        }
    }
}

/// The full frame-reading pass: the signature check followed by the
/// message sequence. Buffers shorter than the signature, or not
/// starting with it, fail with `InvalidFormat`.
pub open spec fn spec_parse_demo(data: Seq<u8>) -> Result<Seq<DemoMessageV>, DemoError> {
    if !spec_has_signature(data) {
        Err(DemoError::InvalidFormat)
    } else {
        spec_messages(data, spec_skip_header(data, 8))
    }
}

/// View of a message vector as a sequence of message values.
pub open spec fn spec_msgs_view(s: Seq<DemoMessage>) -> Seq<DemoMessageV> {
    s.map_values(|m: DemoMessage| m@)
}

impl ProtobufParser {
    /// Owned copy of the bytes between two positions.
    fn copy_range(&self, from: usize, to: usize) -> (r: Vec<u8>)
        requires
            from <= to <= self.data@.len(),
        ensures
            r@ == self.data@.subrange(from as int, to as int),
    {
        slice_to_vec(slice_subrange(self.data.as_slice(), from, to))
    }

    /// Read a varint payload field; `None` when the read fails.
    fn read_varint_field(&mut self) -> (r: Option<u32>)
        requires
            old(self).wf(),
        ensures
            final(self).wf(),
            final(self).data@ == old(self).data@,
            match r {
                Some(v) => spec_varint_field(old(self).data@, old(self).position as int)
                    == Some((v, final(self).position as int)),
                None => spec_varint_field(old(self).data@, old(self).position as int) is None,
            },
    {
        match self.read_varint() {
            Ok(v) => Some(v),
            Err(_) => None,
        }
    }

    /// Read a string payload field; `None` when the declared length runs
    /// past the payload or the bytes are not UTF-8.
    fn read_string_field(&mut self) -> (r: Option<String>)
        requires
            old(self).wf(),
        ensures
            final(self).wf(),
            final(self).data@ == old(self).data@,
            match r {
                Some(s) => spec_string_field(old(self).data@, old(self).position as int)
                    matches Some(f) && f.0 == s@ && f.1 == final(self).position as int,
                None => spec_string_field(old(self).data@, old(self).position as int) is None,
            },
    {
        let len = match self.read_varint() {
            Ok(v) => v,
            Err(_) => return None,
        };
        if len as usize > self.data.len() - self.position {
            return None;
        }
        let bytes = match self.read_bytes(len as usize) {
            Ok(b) => b,
            Err(_) => return None,
        };
        match utf8_to_str(bytes.as_slice()) {
            Some(s) => Some(s.to_owned()),
            None => None,
        }
    }
}

/// Parse a header payload, field by field.
fn parse_header_field(payload: &Vec<u8>) -> (r: Option<DemoHeader>)
    ensures
        match r {
            Some(h) => spec_parse_header(payload@) == Some(h@),
            None => spec_parse_header(payload@) is None,
        },
{
    let mut p = ProtobufParser::new(slice_to_vec(payload.as_slice()));
    let version = match p.read_varint_field() {
        Some(v) => v,
        None => return None,
    };
    let map_name = match p.read_string_field() {
        Some(v) => v,
        None => return None,
    };
    let server_name = match p.read_string_field() {
        Some(v) => v,
        None => return None,
    };
    let player_count = match p.read_varint_field() {
        Some(v) => v,
        None => return None,
    };
    let tick_count = match p.read_varint_field() {
        Some(v) => v,
        None => return None,
    };
    let duration_seconds = match p.read_varint_field() {
        Some(v) => v,
        None => return None,
    };
    Some(DemoHeader { version, map_name, server_name, player_count, tick_count, duration_seconds })
}

/// Parse a game-event payload, field by field.
fn parse_game_event_field(payload: &Vec<u8>) -> (r: Option<GameEvent>)
    ensures
        match r {
            Some(g) => spec_parse_game_event(payload@) == Some(g@),
            None => spec_parse_game_event(payload@) is None,
        },
{
    let mut p = ProtobufParser::new(slice_to_vec(payload.as_slice()));
    let event_type = match p.read_varint_field() {
        Some(v) => v,
        None => return None,
    };
    let tick = match p.read_varint_field() {
        Some(v) => v,
        None => return None,
    };
    if event_type != 1 {
        return Some(GameEvent { event_type, tick, kill: None });
    }
    let killer = match p.read_string_field() {
        Some(v) => v,
        None => return None,
    };
    let victim = match p.read_string_field() {
        Some(v) => v,
        None => return None,
    };
    let weapon = match p.read_string_field() {
        Some(v) => v,
        None => return None,
    };
    let headshot = match p.read_varint_field() {
        Some(v) => v,
        None => return None,
    };
    let killer_team = match p.read_varint_field() {
        Some(v) => v,
        None => return None,
    };
    let victim_team = match p.read_varint_field() {
        Some(v) => v,
        None => return None,
    };
    Some(
        GameEvent {
            event_type,
            tick,
            kill: Some(
                KillEvent {
                    killer,
                    victim,
                    weapon,
                    headshot: headshot != 0,
                    killer_team,
                    victim_team,
                },
            ),
        },
    )
}

/// Parse a player-information payload, field by field.
fn parse_player_info_field(payload: &Vec<u8>) -> (r: Option<PlayerInfo>)
    ensures
        match r {
            Some(pi) => spec_parse_player_info(payload@) == Some(pi@),
            None => spec_parse_player_info(payload@) is None,
        },
{
    let mut p = ProtobufParser::new(slice_to_vec(payload.as_slice()));
    let steam_id = match p.read_varint_field() {
        Some(v) => v,
        None => return None,
    };
    let name = match p.read_string_field() {
        Some(v) => v,
        None => return None,
    };
    let team = match p.read_varint_field() {
        Some(v) => v,
        None => return None,
    };
    let kills = match p.read_varint_field() {
        Some(v) => v,
        None => return None,
    };
    let deaths = match p.read_varint_field() {
        Some(v) => v,
        None => return None,
    };
    let assists = match p.read_varint_field() {
        Some(v) => v,
        None => return None,
    };
    Some(PlayerInfo { steam_id: steam_id as u64, name, team, kills, deaths, assists })
}

/// Parse a round-boundary payload, field by field.
fn parse_round_info_field(payload: &Vec<u8>) -> (r: Option<RoundInfo>)
    ensures
        match r {
            Some(ri) => spec_parse_round_info(payload@) == Some(ri@),
            None => spec_parse_round_info(payload@) is None,
        },
{
    let mut p = ProtobufParser::new(slice_to_vec(payload.as_slice()));
    let round_number = match p.read_varint_field() {
        Some(v) => v,
        None => return None,
    };
    let winner_team = match p.read_varint_field() {
        Some(v) => v,
        None => return None,
    };
    let reason = match p.read_varint_field() {
        Some(v) => v,
        None => return None,
    };
    let t_score = match p.read_varint_field() {
        Some(v) => v,
        None => return None,
    };
    let ct_score = match p.read_varint_field() {
        Some(v) => v,
        None => return None,
    };
    let start_tick = match p.read_varint_field() {
        Some(v) => v,
        None => return None,
    };
    let end_tick = match p.read_varint_field() {
        Some(v) => v,
        None => return None,
    };
    Some(
        RoundInfo { round_number, winner_team, reason, t_score, ct_score, start_tick, end_tick },
    )
}

/// Interpret one length-delimited frame into a typed message, or keep it
/// as `Unknown` when the tag is unknown or the payload does not parse.
fn create_message_from_field(tag: u32, payload: Vec<u8>) -> (r: DemoMessage)
    ensures
        r@ == spec_interpret(tag, payload@),
{
    if tag == 1 {
        match parse_header_field(&payload) {
            Some(h) => DemoMessage::Header(h),
            None => DemoMessage::Unknown { field_id: tag, data: payload },
        }
    } else if tag == 2 {
        match parse_game_event_field(&payload) {
            Some(g) => DemoMessage::GameEvent(g),
            None => DemoMessage::Unknown { field_id: tag, data: payload },
        }
    } else if tag == 3 {
        match parse_player_info_field(&payload) {
            Some(p) => DemoMessage::PlayerInfo(p),
            None => DemoMessage::Unknown { field_id: tag, data: payload },
        }
    } else if tag == 4 {
        match parse_round_info_field(&payload) {
            Some(r) => DemoMessage::RoundInfo(r),
            None => DemoMessage::Unknown { field_id: tag, data: payload },
        }
    } else {
        DemoMessage::Unknown { field_id: tag, data: payload }
    }
}

impl ProtobufParser {
    /// Read and interpret the next frame.
    ///
    /// `Ok(None)` means a byte was skipped (reserved wire kind) or the
    /// buffer is exhausted; an error is fatal for the rest of the stream.
    pub fn parse_next_message(&mut self) -> (r: Result<Option<DemoMessage>, DemoError>)
        requires
            old(self).wf(),
        ensures
            final(self).wf(),
            final(self).data@ == old(self).data@,
            old(self).position >= old(self).data@.len() ==> (r
                == Ok::<Option<DemoMessage>, DemoError>(None) && final(self).position == old(
                self,
            ).position),
            old(self).position < old(self).data@.len() ==> (match r {
                Ok(m) => {
                    &&& spec_step_frame(old(self).data@, old(self).position as int) matches Ok(f)
                    &&& f.1 == final(self).position as int
                    &&& (match m {
                        Some(msg) => f.0 == Some(msg@),
                        None => f.0 is None,
                    })
                    &&& old(self).position < final(self).position
                },
                Err(e) => spec_step_frame(old(self).data@, old(self).position as int) == Err::<
                    (Option<DemoMessageV>, int),
                    DemoError,
                >(e),
            }),
    {
        if self.position >= self.data.len() {
            return Ok(None);
        }
        let b = self.data[self.position];
        let kind = b & 7;
        if !(kind == 0 || kind == 1 || kind == 2 || kind == 5) {
            self.position = self.position + 1;
            return Ok(None);
        }
        let header = match self.read_varint() {
            Ok(v) => v,
            Err(e) => return Err(e),
        };
        proof {
            lemma_varint_advances(old(self).data@, old(self).position as int, 0, 0);
        }
        let tag = header >> 3;
        if kind == 0 {
            let start = self.position;
            match self.read_varint() {
                Ok(_) => (),
                Err(e) => return Err(e),
            };
            let raw = self.copy_range(start, self.position);
            Ok(Some(DemoMessage::Unknown { field_id: tag, data: raw }))
        } else if kind == 1 {
            let start = self.position;
            match self.read_u64() {
                Ok(_) => (),
                Err(e) => return Err(e),
            };
            let raw = self.copy_range(start, self.position);
            Ok(Some(DemoMessage::Unknown { field_id: tag, data: raw }))
        } else if kind == 5 {
            let start = self.position;
            match self.read_u32() {
                Ok(_) => (),
                Err(e) => return Err(e),
            };
            let raw = self.copy_range(start, self.position);
            Ok(Some(DemoMessage::Unknown { field_id: tag, data: raw }))
        } else {
            let len = match self.read_varint() {
                Ok(v) => v,
                Err(e) => return Err(e),
            };
            if len as usize > self.data.len() - self.position {
                return Err(DemoError::Corrupted);
            }
            let payload = match self.read_bytes(len as usize) {
                Ok(v) => v,
                Err(_) => return Err(DemoError::Corrupted),
            };
            Ok(Some(create_message_from_field(tag, payload)))
        }
    }

    /// Read the whole buffer: verify the signature, skip the header
    /// padding, and collect every interpreted frame in stream order.
    pub fn parse_all(&mut self) -> (r: Result<Vec<DemoMessage>, DemoError>)
        requires
            old(self).wf(),
        ensures
            final(self).wf(),
            final(self).data@ == old(self).data@,
            match r {
                Ok(msgs) => spec_parse_demo(old(self).data@) == Ok::<Seq<DemoMessageV>, DemoError>(
                    spec_msgs_view(msgs@),
                ),
                Err(e) => spec_parse_demo(old(self).data@) == Err::<Seq<DemoMessageV>, DemoError>(
                    e,
                ),
            },
    {
        if !self.check_signature() {
            return Err(DemoError::InvalidFormat);
        }
        self.skip_header();
        let ghost data = old(self).data@;
        let ghost start = self.position as int;
        let mut messages: Vec<DemoMessage> = Vec::new();
        while self.position < self.data.len()
            invariant
                self.wf(),
                self.data@ == old(self).data@,
                self.data@ == data,
                spec_has_signature(data),
                start == spec_skip_header(data, 8),
                (match spec_messages(data, self.position as int) {
                    Ok(rest) => spec_messages(data, start) == Ok::<Seq<DemoMessageV>, DemoError>(
                        spec_msgs_view(messages@) + rest,
                    ),
                    Err(e) => spec_messages(data, start) == Err::<Seq<DemoMessageV>, DemoError>(e),
                }),
            decreases data.len() - self.position,
        {
            let ghost p = self.position as int;
            match self.parse_next_message() {
                Err(e) => {
                    proof {
                        assert(spec_messages(data, p) == Err::<Seq<DemoMessageV>, DemoError>(e));
                    }
                    return Err(e);
                },
                Ok(Some(msg)) => {
                    let ghost old_msgs = messages@;
                    messages.push(msg);
                    proof {
                        assert(spec_msgs_view(messages@) =~= spec_msgs_view(old_msgs).push(msg@));
                        match spec_messages(data, self.position as int) {
                            Ok(rest2) => {
                                assert(spec_messages(data, p) == Ok::<
                                    Seq<DemoMessageV>,
                                    DemoError,
                                >(seq![msg@] + rest2));
                                assert(spec_msgs_view(old_msgs) + (seq![msg@] + rest2)
                                    =~= spec_msgs_view(messages@) + rest2);
                            },
                            Err(e2) => {
                                assert(spec_messages(data, p) == Err::<
                                    Seq<DemoMessageV>,
                                    DemoError,
                                >(e2));
                            },
                        }
                    }
                },
                Ok(None) => {
                    proof {
                        match spec_messages(data, self.position as int) {
                            Ok(rest2) => {
                                assert(spec_messages(data, p) == Ok::<
                                    Seq<DemoMessageV>,
                                    DemoError,
                                >(rest2));
                            },
                            Err(e2) => {
                                assert(spec_messages(data, p) == Err::<
                                    Seq<DemoMessageV>,
                                    DemoError,
                                >(e2));
                            },
                        }
                    }
                },
            }
        }
        proof {
            assert(spec_msgs_view(messages@) + Seq::<DemoMessageV>::empty() =~= spec_msgs_view(
                messages@,
            ));
        }
        Ok(messages)
    }
}

} // verus!
