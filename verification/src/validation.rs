use vstd::prelude::*;

use crate::error::DemoError;
use crate::protobuf_parser::{spec_has_signature, spec_le_u32};
use vstd::slice::slice_subrange;
use vstd::string::{StringSliceAdditionalSpecFns, StrSliceExecFns};
use vstd::utf8::{decode_utf8, valid_utf8};

verus! {

/// What header validation decides: too short or wrongly signed buffers
/// are rejected as `InvalidFormat`, everything else passes.
pub open spec fn spec_validate_demo_header(data: Seq<u8>) -> Result<(), DemoError> {
    if spec_has_signature(data) {
        Ok(())
    } else {
        Err(DemoError::InvalidFormat)
    }
}

/// Check that a buffer starts with the demo signature.
pub fn validate_demo_header(data: &[u8]) -> (r: Result<(), DemoError>)
    ensures
        r == spec_validate_demo_header(data@),
{
    if data.len() < 8 {
        return Err(DemoError::InvalidFormat);
    }
    if data[0] == 0x50 && data[1] == 0x42 && data[2] == 0x44 && data[3] == 0x45 && data[4] == 0x4d
        && data[5] == 0x53 && data[6] == 0x32 && data[7] == 0x00 {
        Ok(())
    } else {
        Err(DemoError::InvalidFormat)
    }
}

/// What data validation decides: an empty buffer is `EmptyInput`, one
/// below the minimum plausible demo size is `InvalidFormat`, and the
/// rest goes through header validation.
pub open spec fn spec_validate_demo_data(data: Seq<u8>) -> Result<(), DemoError> {
    if data.len() == 0 {
        Err(DemoError::EmptyInput)
    } else if data.len() < 1024 {
        Err(DemoError::InvalidFormat)
    } else {
        spec_validate_demo_header(data)
    }
}

/// Check that a buffer is plausibly a whole demo.
pub fn validate_demo_data(data: &[u8]) -> (r: Result<(), DemoError>)
    ensures
        r == spec_validate_demo_data(data@),
{
    if data.len() == 0 {
        return Err(DemoError::EmptyInput);
    }
    if data.len() < 1024 {
        return Err(DemoError::InvalidFormat);
    }
    validate_demo_header(data)
}

/// Whether the byte at `i` looks like the start of a frame: a known
/// wire kind in the low bits, a plausible tag in the high bits, and a
/// few bytes of room after it.
pub open spec fn spec_frame_like(data: Seq<u8>, i: int) -> bool {
    let b = data[i];
    let w = b & 7;
    (w == 0 || w == 1 || w == 2 || w == 5) && i + 4 < data.len() && (b >> 3) > 0 && (b >> 3) <= 100
}

/// Whether any byte after the signature looks like a frame start.
pub open spec fn spec_has_protobuf_messages(data: Seq<u8>) -> bool {
    exists|i: int| 8 <= i < data.len() - 1 && spec_frame_like(data, i)
}

/// Scan a buffer for anything that looks like a frame.
pub fn has_protobuf_messages(data: &[u8]) -> (r: bool)
    ensures
        r == spec_has_protobuf_messages(data@),
{
    if data.len() < 8 {
        return false;
    }
    let dlen = data.len();
    let mut i: usize = 8;
    while i < dlen - 1
        invariant
            8 <= i,
            dlen == data@.len(),
            8 <= dlen,
            forall|j: int| 8 <= j < i ==> !spec_frame_like(data@, j),
        decreases data@.len() - i,
    {
        let b = data[i];
        let w = b & 7;
        if (w == 0 || w == 1 || w == 2 || w == 5) && dlen - i > 4 {
            let field_id = b >> 3;
            if field_id > 0 && field_id <= 100 {
                proof {
                    assert(spec_frame_like(data@, i as int));
                }
                return true;
            }
        }
        proof {
            assert(!spec_frame_like(data@, i as int));
        }
        i = i + 1;
    }
    false
}

/// Index of the first match of `needle` at or after `i`, or -1.
pub open spec fn spec_find_bytes(hay: Seq<u8>, needle: Seq<u8>, i: int) -> int
    decreases hay.len() - i + 1,
{
    if i < 0 || i + needle.len() > hay.len() {
        -1
    } else if hay.subrange(i, i + needle.len()) == needle {
        i
    } else {
        spec_find_bytes(hay, needle, i + 1)
    }
}

/// Whether `hay` holds `needle` anywhere.
pub open spec fn spec_contains_bytes(hay: Seq<u8>, needle: Seq<u8>) -> bool {
    spec_find_bytes(hay, needle, 0) >= 0
}

/// Whether `needle` matches `hay` at position `i`.
fn match_at(hay: &[u8], i: usize, needle: &[u8]) -> (r: bool)
    requires
        i + needle@.len() <= hay@.len(),
    ensures
        r == (hay@.subrange(i as int, i + needle@.len()) == needle@),
{
    let hlen = hay.len();
    let nlen = needle.len();
    let mut j: usize = 0;
    while j < nlen
        invariant
            hlen == hay@.len(),
            nlen == needle@.len(),
            i + nlen <= hlen,
            j <= nlen,
            forall|t: int| 0 <= t < j ==> hay@[i + t] == needle@[t],
        decreases needle@.len() - j,
    {
        if hay[i + j] != needle[j] {
            proof {
                assert(hay@.subrange(i as int, i + needle@.len())[j as int] != needle@[j as int]);
            }
            return false;
        }
        j = j + 1;
    }
    proof {
        assert(hay@.subrange(i as int, i + needle@.len()) =~= needle@);
    }
    true
}

/// Find the first occurrence of `needle` in `hay`.
fn find_bytes(hay: &[u8], needle: &[u8]) -> (r: Option<usize>)
    ensures
        match r {
            Some(i) => spec_find_bytes(hay@, needle@, 0) == i as int,
            None => spec_find_bytes(hay@, needle@, 0) == -1,
        },
{
    if needle.len() > hay.len() {
        return None;
    }
    if needle.len() == 0 {
        proof {
            assert(hay@.subrange(0, 0) =~= needle@);
        }
        return Some(0);
    }
    let hlen = hay.len();
    let limit = hay.len() - needle.len();
    let mut i: usize = 0;
    while i <= limit
        invariant
            hlen == hay@.len(),
            limit == hay@.len() - needle@.len(),
            needle@.len() >= 1,
            i <= limit + 1,
            spec_find_bytes(hay@, needle@, 0) == spec_find_bytes(hay@, needle@, i as int),
        decreases limit + 1 - i,
    {
        if match_at(hay, i, needle) {
            return Some(i);
        }
        i = i + 1;
    }
    None
}

/// Index of the first zero byte at or after `i`, or -1.
pub open spec fn spec_find_zero(hay: Seq<u8>, i: int) -> int
    decreases hay.len() - i,
{
    if i < 0 || i >= hay.len() {
        -1
    } else if hay[i] == 0 {
        i
    } else {
        spec_find_zero(hay, i + 1)
    }
}

/// Find the first zero byte at or after `from`.
fn find_zero(hay: &[u8], from: usize) -> (r: Option<usize>)
    ensures
        match r {
            Some(i) => spec_find_zero(hay@, from as int) == i as int && from <= i < hay@.len(),
            None => spec_find_zero(hay@, from as int) == -1,
        },
{
    let mut i: usize = from;
    while i < hay.len()
        invariant
            from <= i,
            spec_find_zero(hay@, from as int) == spec_find_zero(hay@, i as int),
        decreases hay@.len() - i,
    {
        if hay[i] == 0 {
            return Some(i);
        }
        i = i + 1;
    }
    None
}

/// The map name found in the header bytes: the first known map whose
/// name occurs in the buffer, or `unknown`.
pub open spec fn spec_extract_map_name(hay: Seq<u8>) -> Seq<char> {
    if spec_contains_bytes(hay, "de_ancient".spec_bytes()) {
        "de_ancient"@
    } else if spec_contains_bytes(hay, "de_anubis".spec_bytes()) {
        "de_anubis"@
    } else if spec_contains_bytes(hay, "de_inferno".spec_bytes()) {
        "de_inferno"@
    } else if spec_contains_bytes(hay, "de_mirage".spec_bytes()) {
        "de_mirage"@
    } else if spec_contains_bytes(hay, "de_nuke".spec_bytes()) {
        "de_nuke"@
    } else if spec_contains_bytes(hay, "de_overpass".spec_bytes()) {
        "de_overpass"@
    } else if spec_contains_bytes(hay, "de_vertigo".spec_bytes()) {
        "de_vertigo"@
    } else if spec_contains_bytes(hay, "de_dust2".spec_bytes()) {
        "de_dust2"@
    } else if spec_contains_bytes(hay, "de_cache".spec_bytes()) {
        "de_cache"@
    } else if spec_contains_bytes(hay, "de_cobblestone".spec_bytes()) {
        "de_cobblestone"@
    } else if spec_contains_bytes(hay, "de_train".spec_bytes()) {
        "de_train"@
    } else {
        "unknown"@
    }
}

/// Whether `hay` holds the pattern given as a string.
fn contains_pattern(hay: &[u8], pattern: &str) -> (r: bool)
    ensures
        r == spec_contains_bytes(hay@, pattern.spec_bytes()),
{
    match find_bytes(hay, pattern.as_bytes()) {
        Some(_) => true,
        None => false,
    }
}

/// Search the header bytes for a known map name.
fn extract_map_name(hay: &[u8]) -> (r: String)
    ensures
        r@ == spec_extract_map_name(hay@),
{
    if contains_pattern(hay, "de_ancient") {
        "de_ancient".to_owned()
    } else if contains_pattern(hay, "de_anubis") {
        "de_anubis".to_owned()
    } else if contains_pattern(hay, "de_inferno") {
        "de_inferno".to_owned()
    } else if contains_pattern(hay, "de_mirage") {
        "de_mirage".to_owned()
    } else if contains_pattern(hay, "de_nuke") {
        "de_nuke".to_owned()
    } else if contains_pattern(hay, "de_overpass") {
        "de_overpass".to_owned()
    } else if contains_pattern(hay, "de_vertigo") {
        "de_vertigo".to_owned()
    } else if contains_pattern(hay, "de_dust2") {
        "de_dust2".to_owned()
    } else if contains_pattern(hay, "de_cache") {
        "de_cache".to_owned()
    } else if contains_pattern(hay, "de_cobblestone") {
        "de_cobblestone".to_owned()
    } else if contains_pattern(hay, "de_train") {
        "de_train".to_owned()
    } else {
        "unknown".to_owned()
    }
}

/// The server information found in the header bytes: `SourceTV` when
/// that tag occurs; otherwise the zero-terminated text from the first
/// occurrence of `Server`, when it is whole UTF-8; otherwise `unknown`.
pub open spec fn spec_extract_server_info(hay: Seq<u8>) -> Seq<char> {
    if spec_contains_bytes(hay, "SourceTV".spec_bytes()) {
        "SourceTV"@
    } else {
        let i = spec_find_bytes(hay, "Server".spec_bytes(), 0);
        if i >= 0 {
            let j = spec_find_zero(hay, i);
            if j >= 0 && valid_utf8(hay.subrange(i, j)) {
                decode_utf8(hay.subrange(i, j))
            } else {
                "unknown"@
            }
        } else {
            "unknown"@
        }
    }
}

/// Search the header bytes for the server information.
fn extract_server_info(hay: &[u8]) -> (r: String)
    ensures
        r@ == spec_extract_server_info(hay@),
{
    if contains_pattern(hay, "SourceTV") {
        return "SourceTV".to_owned();
    }
    let i = match find_bytes(hay, "Server".as_bytes()) {
        Some(i) => i,
        None => return "unknown".to_owned(),
    };
    let j = match find_zero(hay, i) {
        Some(j) => j,
        None => return "unknown".to_owned(),
    };
    let segment = slice_subrange(hay, i, j);
    match crate::protobuf_parser::utf8_to_str(segment) {
        Some(s) => s.to_owned(),
        None => "unknown".to_owned(),
    }
}

/// Basic information read from a demo header without a full decode.
#[derive(Debug)]
pub struct DemoInfo {
    /// The fixed signature tag.
    pub signature: String,
    /// The version number next to the signature.
    pub version: u32,
    /// The map name found in the header, or `unknown`.
    pub map_name: String,
    /// The server information found in the header, or `unknown`.
    pub server_info: String,
    /// Whether anything after the signature looks like a frame.
    pub has_protobuf: bool,
}

/// Mathematical value of a `DemoInfo`.
pub struct DemoInfoV {
    pub signature: Seq<char>,
    pub version: u32,
    pub map_name: Seq<char>,
    pub server_info: Seq<char>,
    pub has_protobuf: bool,
}

impl View for DemoInfo {
    type V = DemoInfoV;

    open spec fn view(&self) -> DemoInfoV {
        DemoInfoV {
            signature: self.signature@,
            version: self.version,
            map_name: self.map_name@,
            server_info: self.server_info@,
            has_protobuf: self.has_protobuf,
        }
    }
}

/// What information extraction yields: buffers below the minimum size
/// are rejected; otherwise the map and server are searched for in the
/// first kibibyte, and the version is read next to the signature.
pub open spec fn spec_extract_demo_info(data: Seq<u8>) -> Result<DemoInfoV, DemoError> {
    if data.len() < 1024 {
        Err(DemoError::InvalidFormat)
    } else {
        Ok(
            DemoInfoV {
                signature: "PBDEMS2"@,
                version: spec_le_u32(data[7], data[8], data[9], data[10]),
                map_name: spec_extract_map_name(data.subrange(0, 1024)),
                server_info: spec_extract_server_info(data.subrange(0, 1024)),
                has_protobuf: spec_has_protobuf_messages(data),
            },
        )
    }
}

/// Read the basic demo information from a buffer's header.
pub fn extract_demo_info(data: &[u8]) -> (r: Result<DemoInfo, DemoError>)
    ensures
        match r {
            Ok(info) => spec_extract_demo_info(data@) == Ok::<DemoInfoV, DemoError>(info@),
            Err(e) => spec_extract_demo_info(data@) == Err::<DemoInfoV, DemoError>(e),
        },
{
    if data.len() < 1024 {
        return Err(DemoError::InvalidFormat);
    }
    let head = slice_subrange(data, 0, 1024);
    let version = (data[7] as u32) | ((data[8] as u32) << 8) | ((data[9] as u32) << 16) | ((
    data[10] as u32) << 24);
    Ok(
        DemoInfo {
            signature: "PBDEMS2".to_owned(),
            version,
            map_name: extract_map_name(head),
            server_info: extract_server_info(head),
            has_protobuf: has_protobuf_messages(data),
        },
    )
}

/// Whether a character is a control character.
pub open spec fn spec_is_control(c: char) -> bool {
    (c as u32) < 0x20 || (0x7f <= c as u32 && c as u32 <= 0x9f)
}

/// What player-name validation decides: empty names, names longer than
/// 32 bytes, and names with control characters are rejected.
pub open spec fn spec_validate_player_name(name: &str) -> Result<(), DemoError> {
    if name@.len() == 0 {
        Err(DemoError::InvalidEvent)
    } else if name.spec_bytes().len() > 32 {
        Err(DemoError::InvalidEvent)
    } else if exists|i: int| 0 <= i < name@.len() && spec_is_control(name@[i]) {
        Err(DemoError::InvalidEvent)
    } else {
        Ok(())
    }
}

/// Check a player name.
pub fn validate_player_name(name: &str) -> (r: Result<(), DemoError>)
    ensures
        r == spec_validate_player_name(name),
{
    if name.is_empty() {
        return Err(DemoError::InvalidEvent);
    }
    if name.as_bytes().len() > 32 {
        return Err(DemoError::InvalidEvent);
    }
    let n = name.unicode_len();
    let mut i: usize = 0;
    while i < n
        invariant
            n == name@.len(),
            i <= n,
            forall|j: int| 0 <= j < i ==> !spec_is_control(name@[j]),
        decreases n - i,
    {
        let c = name.get_char(i);
        if (c as u32) < 0x20 || (0x7f <= c as u32 && c as u32 <= 0x9f) {
            proof {
                assert(spec_is_control(name@[i as int]));
            }
            return Err(DemoError::InvalidEvent);
        }
        i = i + 1;
    }
    proof {
        assert(!(exists|j: int| 0 <= j < name@.len() && spec_is_control(name@[j])));
    }
    Ok(())
}

/// What weapon-name validation decides: empty names and names longer
/// than 64 bytes are rejected.
pub open spec fn spec_validate_weapon_name(weapon: &str) -> Result<(), DemoError> {
    if weapon@.len() == 0 {
        Err(DemoError::InvalidEvent)
    } else if weapon.spec_bytes().len() > 64 {
        Err(DemoError::InvalidEvent)
    } else {
        Ok(())
    }
}

/// Check a weapon name.
pub fn validate_weapon_name(weapon: &str) -> (r: Result<(), DemoError>)
    ensures
        r == spec_validate_weapon_name(weapon),
{
    if weapon.is_empty() {
        return Err(DemoError::InvalidEvent);
    }
    if weapon.as_bytes().len() > 64 {
        return Err(DemoError::InvalidEvent);
    }
    Ok(())
}

/// Check a round number: a regular match never goes past round 30.
pub fn validate_round_number(round: u8) -> (r: Result<(), DemoError>)
    ensures
        r == (if round > 30 {
            Err::<(), DemoError>(DemoError::InvalidEvent)
        } else {
            Ok::<(), DemoError>(())
        }),
{
    if round > 30 {
        Err(DemoError::InvalidEvent)
    } else {
        Ok(())
    }
}

/// Check a tick number against a plausible upper bound.
pub fn validate_tick_number(tick: u32) -> (r: Result<(), DemoError>)
    ensures
        r == (if tick > 1000000 {
            Err::<(), DemoError>(DemoError::InvalidEvent)
        } else {
            Ok::<(), DemoError>(())
        }),
{
    if tick > 1000000 {
        Err(DemoError::InvalidEvent)
    } else {
        Ok(())
    }
}

} // verus!
