//! Stream-proxy frame inspection.
//!
//! The proxy relays a length-prefixed binary streaming protocol between a
//! local client and a remote server, forwarding bytes unmodified while
//! inspecting server-to-client frames.  This module holds everything the
//! inspection decides: header decoding with the bounded-memory guard,
//! frame classification, the playback-activity debounce, and the
//! extraction of a volume target from a settings frame.

use vstd::prelude::*;

verus! {

/// Size of the fixed frame header: 2-byte little-endian type, 20
/// reserved bytes, 4-byte little-endian payload length.
pub const HEADER_LEN: usize = 26;

/// A heartbeat-only gap longer than this (milliseconds) means playback
/// stopped.
pub const QUIET_MS: u64 = 5000;

/// The frame types the inspection reads; everything else is forwarded
/// without a second look.
#[derive(Clone, Copy, Debug, PartialEq, Eq, Structural)]
pub enum FrameKind {
    /// Type 1: codec header, ignored.
    CodecHeader,
    /// Type 2: audio data; its arrival alone is evidence of playback.
    WireChunk,
    /// Type 3: server settings, JSON-like text with volume and mute.
    ServerSettings,
    /// Type 4: heartbeat, arrives at a steady cadence whether or not
    /// audio flows.
    Time,
    Other,
}

pub open spec fn spec_frame_kind(typ: u16) -> FrameKind {
    if typ == 1 {
        FrameKind::CodecHeader
    } else if typ == 2 {
        FrameKind::WireChunk
    } else if typ == 3 {
        FrameKind::ServerSettings
    } else if typ == 4 {
        FrameKind::Time
    } else {
        FrameKind::Other
    }
}

/// Classify a frame by the type field of its header.
pub fn frame_kind(typ: u16) -> (r: FrameKind)
    ensures
        r == spec_frame_kind(typ),
{
    if typ == 1 {
        FrameKind::CodecHeader
    } else if typ == 2 {
        FrameKind::WireChunk
    } else if typ == 3 {
        FrameKind::ServerSettings
    } else if typ == 4 {
        FrameKind::Time
    } else {
        FrameKind::Other
    }
}

/// A decoded frame header.
#[derive(Clone, Copy, Debug, PartialEq, Eq, Structural)]
pub struct FrameHeader {
    /// Frame type, from the first two bytes.
    pub typ: u16,
    /// Declared payload length, from the last four header bytes.
    pub len: u32,
}

/// The 16-bit value carried little-endian in two bytes.
pub open spec fn spec_le16(b0: u8, b1: u8) -> int {
    b0 + 256 * b1
}

/// The 32-bit value carried little-endian in four bytes.
pub open spec fn spec_le32(b0: u8, b1: u8, b2: u8, b3: u8) -> int {
    b0 + 256 * b1 + 65536 * b2 + 16777216 * b3
}

/// Decode the fixed 26-byte header at the front of `h`: the type from
/// bytes 0..2, the payload length from bytes 22..26, both little-endian.
pub fn parse_frame_header(h: &[u8]) -> (r: FrameHeader)
    requires
        h@.len() >= HEADER_LEN,
    ensures
        r.typ == spec_le16(h@[0], h@[1]),
        r.len == spec_le32(h@[22], h@[23], h@[24], h@[25]),
{
    let t0 = *vstd::slice::slice_index_get(h, 0);
    let t1 = *vstd::slice::slice_index_get(h, 1);
    let l0 = *vstd::slice::slice_index_get(h, 22);
    let l1 = *vstd::slice::slice_index_get(h, 23);
    let l2 = *vstd::slice::slice_index_get(h, 24);
    let l3 = *vstd::slice::slice_index_get(h, 25);
    let typ = (t0 as u16) + 256 * (t1 as u16);
    let len = (l0 as u32) + 256 * (l1 as u32) + 65536 * (l2 as u32) + 16777216 * (l3 as u32);
    FrameHeader { typ, len }
}

/// The bounded-memory guard: a frame whose header plus declared payload
/// does not fit in a receive buffer of `cap` bytes is rejected, and
/// rejecting it closes only that connection.
pub fn frame_fits(len: u32, cap: usize) -> (r: bool)
    ensures
        r <==> len + HEADER_LEN <= cap,
{
    (len as u64) + (HEADER_LEN as u64) <= (cap as u64)
}

/// Per-connection playback-activity tracker.
///
/// A chunk frame flips activity on immediately and stamps its arrival
/// time.  A heartbeat flips it off only when the last chunk lies more
/// than [`QUIET_MS`] back — the steady heartbeat cadence alone can never
/// signal "stopped".
#[derive(Clone, Copy, Debug, PartialEq, Eq, Structural)]
pub struct ActivityTracker {
    /// Playback is currently considered active.
    pub playing: bool,
    /// Arrival time of the last chunk frame, in milliseconds of the
    /// connection's monotonic clock; 0 before the first chunk.
    pub last_chunk_ms: u64,
}

/// The tracker after one inspected frame at time `now_ms`.
pub open spec fn spec_on_frame(t: ActivityTracker, kind: FrameKind, now_ms: u64) -> ActivityTracker {
    if kind is WireChunk {
        ActivityTracker { playing: true, last_chunk_ms: now_ms }
    } else if kind is Time && t.playing && now_ms - t.last_chunk_ms > QUIET_MS {
        ActivityTracker { playing: false, ..t }
    } else {
        t
    }
}

impl ActivityTracker {
    /// A fresh connection starts quiet.
    pub fn new() -> (r: ActivityTracker)
        ensures
            !r.playing,
            r.last_chunk_ms == 0,
    {
        ActivityTracker { playing: false, last_chunk_ms: 0 }
    }

    /// Account for one server-to-client frame of the given kind arriving
    /// at `now_ms`.  Times come from one monotonic clock, so they never
    /// run backwards past the last chunk.
    pub fn on_frame(&mut self, kind: FrameKind, now_ms: u64)
        requires
            old(self).last_chunk_ms <= now_ms,
        ensures
            *final(self) == spec_on_frame(*old(self), kind, now_ms),
    {
        match kind {
            FrameKind::WireChunk => {
                self.playing = true;
                self.last_chunk_ms = now_ms;
            },
            FrameKind::Time => {
                if self.playing && now_ms - self.last_chunk_ms > QUIET_MS {
                    self.playing = false;
                }
            },
            _ => {},
        }
    }
}

/// The tracker after a run of heartbeat frames at the given times.
pub open spec fn spec_run_heartbeats(t: ActivityTracker, times: Seq<u64>) -> ActivityTracker
    decreases times.len(),
{
    if times.len() == 0 {
        t
    } else {
        spec_run_heartbeats(spec_on_frame(t, FrameKind::Time, times[0]), times.drop_first())
    }
}

/// Heartbeats alone cannot stop playback within the quiet window: as
/// long as every heartbeat arrives within [`QUIET_MS`] of the last
/// chunk, activity stays on and the chunk stamp is untouched.
pub proof fn lemma_heartbeats_within_quiet_keep_activity(t: ActivityTracker, times: Seq<u64>)
    requires
        t.playing,
        forall|k: int| 0 <= k < times.len() ==> times[k] <= t.last_chunk_ms + QUIET_MS,
    ensures
        spec_run_heartbeats(t, times) == t,
    decreases times.len(),
{
    if times.len() > 0 {
        assert(spec_on_frame(t, FrameKind::Time, times[0]) == t);
        lemma_heartbeats_within_quiet_keep_activity(t, times.drop_first());
    }
}

/// One heartbeat past the quiet window flips activity off.
pub proof fn lemma_quiet_gap_stops_activity(t: ActivityTracker, now_ms: u64)
    requires
        t.playing,
        t.last_chunk_ms + QUIET_MS < now_ms,
    ensures
        !spec_on_frame(t, FrameKind::Time, now_ms).playing,
{
}

// ---- JSON-lite value extraction ----
//
// A settings payload is JSON-like text such as
// `{"bufferMs":1000,"muted":false,"volume":57}`.  The value of a key is
// found by scanning for the literal `"key":` token and taking the bytes
// up to the next comma or closing brace — no general JSON parser.

/// ASCII double quote.
pub const QUOTE: u8 = 34;

/// ASCII colon.
pub const COLON: u8 = 58;

/// ASCII comma.
pub const COMMA: u8 = 44;

/// ASCII closing brace.
pub const CLOSE_BRACE: u8 = 125;

/// The token `"key":` stands at position `i` of `h`.
pub open spec fn key_at(h: Seq<u8>, p: Seq<u8>, i: int) -> bool {
    &&& 0 <= i
    &&& i + p.len() + 3 <= h.len()
    &&& h[i] == QUOTE
    &&& (forall|k: int| 0 <= k < p.len() ==> h[i + 1 + k] == #[trigger] p[k])
    &&& h[i + p.len() + 1] == QUOTE
    &&& h[i + p.len() + 2] == COLON
}

/// ... and at no earlier position.
pub open spec fn first_key_at(h: Seq<u8>, p: Seq<u8>, i: int) -> bool {
    key_at(h, p, i) && (forall|j: int| 0 <= j < i ==> !key_at(h, p, j))
}

/// A byte that ends a value.
pub open spec fn is_value_delim(b: u8) -> bool {
    b == COMMA || b == CLOSE_BRACE
}

/// The first delimiter at or after `start` stands at `e`.
pub open spec fn value_end_at(h: Seq<u8>, start: int, e: int) -> bool {
    &&& start <= e < h.len()
    &&& is_value_delim(h[e])
    &&& (forall|k: int| start <= k < e ==> !is_value_delim(#[trigger] h[k]))
}

/// The value of the key at `i` ends at `e`.
pub open spec fn key_value_end(h: Seq<u8>, p: Seq<u8>, i: int, e: int) -> bool {
    value_end_at(h, i + p.len() + 3, e)
}

/// The value bytes following the first occurrence of `"key":` in `h`, up
/// to (excluding) the next comma or closing brace; nothing when the key
/// does not occur, or no delimiter follows its value.
pub open spec fn spec_json_val(h: Seq<u8>, p: Seq<u8>) -> Option<Seq<u8>> {
    if exists|i: int, e: int| first_key_at(h, p, i) && #[trigger] key_value_end(h, p, i, e) {
        let (i, e) = choose|i: int, e: int|
            first_key_at(h, p, i) && #[trigger] key_value_end(h, p, i, e);
        Some(h.subrange(i + p.len() + 3, e))
    } else {
        None
    }
}

/// At most one position holds the first occurrence of the key.
pub proof fn lemma_first_key_unique(h: Seq<u8>, p: Seq<u8>, i1: int, i2: int)
    requires
        first_key_at(h, p, i1),
        first_key_at(h, p, i2),
    ensures
        i1 == i2,
{
    if i1 < i2 {
        assert(!key_at(h, p, i1));
    }
    if i2 < i1 {
        assert(!key_at(h, p, i2));
    }
}

/// At most one position holds the first delimiter after `start`.
pub proof fn lemma_value_end_unique(h: Seq<u8>, start: int, e1: int, e2: int)
    requires
        value_end_at(h, start, e1),
        value_end_at(h, start, e2),
    ensures
        e1 == e2,
{
    if e1 < e2 {
        assert(!is_value_delim(h[e1]));
    }
    if e2 < e1 {
        assert(!is_value_delim(h[e2]));
    }
}

/// A concrete first key position and value end pin `spec_json_val` down.
pub proof fn lemma_json_val_some(h: Seq<u8>, p: Seq<u8>, i: int, e: int)
    requires
        first_key_at(h, p, i),
        key_value_end(h, p, i, e),
    ensures
        spec_json_val(h, p) == Some(h.subrange(i + p.len() + 3, e)),
{
    let (ci, ce) = choose|i: int, e: int|
        first_key_at(h, p, i) && #[trigger] key_value_end(h, p, i, e);
    lemma_first_key_unique(h, p, i, ci);
    lemma_value_end_unique(h, i + p.len() + 3, e, ce);
}

/// Whether `"param":` stands at position `i` of `haystack`.
fn matches_at(haystack: &[u8], param: &[u8], i: usize) -> (b: bool)
    requires
        i + param@.len() + 3 <= haystack@.len(),
        haystack@.len() <= usize::MAX,
    ensures
        b == key_at(haystack@, param@, i as int),
{
    if *vstd::slice::slice_index_get(haystack, i) != QUOTE {
        return false;
    }
    let mut k: usize = 0;
    while k < param.len()
        invariant
            i + param@.len() + 3 <= haystack@.len(),
            haystack@.len() <= usize::MAX,
            0 <= k <= param@.len(),
            forall|m: int| 0 <= m < k ==> haystack@[i + 1 + m] == #[trigger] param@[m],
        decreases param@.len() - k,
    {
        if *vstd::slice::slice_index_get(haystack, i + 1 + k) != *vstd::slice::slice_index_get(
            param,
            k,
        ) {
            return false;
        }
        k = k + 1;
    }
    if *vstd::slice::slice_index_get(haystack, i + param.len() + 1) != QUOTE {
        return false;
    }
    if *vstd::slice::slice_index_get(haystack, i + param.len() + 2) != COLON {
        return false;
    }
    true
}

/// Search a JSON-like byte stream for the value of a key.
///
/// Returns the bytes between the first `"param":` token and the next
/// comma or closing brace, without any nesting awareness — exactly the
/// scan that [`spec_json_val`] states.
pub fn get_json_val<'a>(haystack: &'a [u8], param: &[u8]) -> (r: Option<&'a [u8]>)
    ensures
        (r is Some) == (spec_json_val(haystack@, param@) is Some),
        r matches Some(v) ==> spec_json_val(haystack@, param@) == Some(v@),
{
    let h_len = haystack.len();
    let p_len = param.len();
    if h_len < 3 || h_len - 3 < p_len {
        proof {
            assert(forall|i: int, e: int|
                !(first_key_at(haystack@, param@, i) && #[trigger] key_value_end(
                    haystack@,
                    param@,
                    i,
                    e,
                )));
        }
        return None;
    }
    let last = h_len - 3 - p_len;
    let mut i: usize = 0;
    while i <= last
        invariant
            h_len == haystack@.len(),
            p_len == param@.len(),
            p_len + 3 <= h_len,
            last == h_len - 3 - p_len,
            0 <= i <= last + 1,
            forall|j: int| 0 <= j < i ==> !key_at(haystack@, param@, j),
        decreases last + 1 - i,
    {
        if matches_at(haystack, param, i) {
            let start = i + p_len + 3;
            let mut e = start;
            while e < h_len
                invariant
                    h_len == haystack@.len(),
                    p_len == param@.len(),
                    start == i + p_len + 3,
                    start <= e <= h_len,
                    first_key_at(haystack@, param@, i as int),
                    forall|k: int| start <= k < e ==> !is_value_delim(#[trigger] haystack@[k]),
                decreases h_len - e,
            {
                let b = *vstd::slice::slice_index_get(haystack, e);
                if b == COMMA || b == CLOSE_BRACE {
                    proof {
                        assert(key_value_end(haystack@, param@, i as int, e as int));
                        lemma_json_val_some(haystack@, param@, i as int, e as int);
                    }
                    return Some(vstd::slice::slice_subrange(haystack, start, e));
                }
                e = e + 1;
            }
            proof {
                assert forall|ix: int, ex: int|
                    !(first_key_at(haystack@, param@, ix) && #[trigger] key_value_end(
                        haystack@,
                        param@,
                        ix,
                        ex,
                    )) by {
                    if first_key_at(haystack@, param@, ix) && key_value_end(
                        haystack@,
                        param@,
                        ix,
                        ex,
                    ) {
                        lemma_first_key_unique(haystack@, param@, ix, i as int);
                        assert(!is_value_delim(haystack@[ex]));
                    }
                }
            }
            return None;
        }
        i = i + 1;
    }
    proof {
        assert forall|j: int| !key_at(haystack@, param@, j) by {
            if j < i {
            } else {
                assert(j + param@.len() + 3 > haystack@.len());
            }
        }
    }
    None
}

// ---- decimal values and the volume target ----

/// ASCII digit zero.
pub const DIGIT_0: u8 = 48;

/// ASCII digit nine.
pub const DIGIT_9: u8 = 57;

/// Every byte is an ASCII digit.
pub open spec fn all_digits(s: Seq<u8>) -> bool {
    forall|k: int| 0 <= k < s.len() ==> DIGIT_0 <= #[trigger] s[k] <= DIGIT_9
}

/// The number the digit bytes spell, most significant first.
pub open spec fn dec_value(s: Seq<u8>) -> int
    decreases s.len(),
{
    if s.len() == 0 {
        0
    } else {
        10 * dec_value(s.drop_last()) + (s.last() - DIGIT_0)
    }
}

/// Ten to the `n`th.
pub open spec fn pow10(n: nat) -> int
    decreases n,
{
    if n == 0 {
        1
    } else {
        10 * pow10((n - 1) as nat)
    }
}

pub proof fn lemma_pow10_pos(n: nat)
    ensures
        pow10(n) >= 1,
    decreases n,
{
    if n > 0 {
        lemma_pow10_pos((n - 1) as nat);
    }
}

pub proof fn lemma_pow10_mono(a: nat, b: nat)
    requires
        a <= b,
    ensures
        pow10(a) <= pow10(b),
    decreases b,
{
    if a < b {
        lemma_pow10_mono(a, (b - 1) as nat);
        lemma_pow10_pos((b - 1) as nat);
    }
}

/// A string of `n` digits spells a number below ten to the `n`th.
pub proof fn lemma_dec_value_bound(s: Seq<u8>)
    requires
        all_digits(s),
    ensures
        0 <= dec_value(s) < pow10(s.len()),
    decreases s.len(),
{
    if s.len() > 0 {
        assert forall|k: int| 0 <= k < s.drop_last().len() implies DIGIT_0 <= #[trigger] s.drop_last()[k] <= DIGIT_9 by {
            assert(s.drop_last()[k] == s[k]);
        }
        lemma_dec_value_bound(s.drop_last());
    }
}

/// The number a run of one to nine ASCII digits spells; nothing for an
/// empty, longer, or non-numeric run.  Nine digits keep every accepted
/// value well inside 32 bits.
pub open spec fn spec_parse_decimal(s: Seq<u8>) -> Option<u32> {
    if 1 <= s.len() <= 9 && all_digits(s) {
        Some(dec_value(s) as u32)
    } else {
        None
    }
}

/// Parse a bounded run of ASCII digits.
pub fn parse_decimal(s: &[u8]) -> (r: Option<u32>)
    ensures
        r == spec_parse_decimal(s@),
{
    let n = s.len();
    if n == 0 || n > 9 {
        return None;
    }
    let mut acc: u32 = 0;
    let mut k: usize = 0;
    while k < n
        invariant
            n == s@.len(),
            1 <= n <= 9,
            0 <= k <= n,
            all_digits(s@.subrange(0, k as int)),
            acc == dec_value(s@.subrange(0, k as int)),
        decreases n - k,
    {
        let b = *vstd::slice::slice_index_get(s, k);
        if b < DIGIT_0 || b > DIGIT_9 {
            proof {
                assert(!all_digits(s@));
            }
            return None;
        }
        proof {
            lemma_dec_value_bound(s@.subrange(0, k as int));
            lemma_pow10_mono(k as nat, 8);
            assert(pow10(8) == 100000000) by {
                reveal_with_fuel(pow10, 9);
            }
            assert(s@.subrange(0, k + 1).drop_last() =~= s@.subrange(0, k as int));
            assert(all_digits(s@.subrange(0, k + 1))) by {
                assert forall|m: int| 0 <= m < k + 1 implies DIGIT_0 <= #[trigger] s@.subrange(
                    0,
                    k + 1,
                )[m] <= DIGIT_9 by {
                    assert(s@.subrange(0, k + 1)[m] == s@[m]);
                }
            }
        }
        acc = 10 * acc + ((b - DIGIT_0) as u32);
        k = k + 1;
    }
    proof {
        assert(s@.subrange(0, n as int) =~= s@);
        lemma_dec_value_bound(s@);
        lemma_pow10_mono(n as nat, 9);
        assert(pow10(9) == 1000000000) by {
            reveal_with_fuel(pow10, 10);
        }
    }
    Some(acc)
}

/// The bytes of the settings key `volume`.
pub open spec fn volume_key() -> Seq<u8> {
    seq![118u8, 111u8, 108u8, 117u8, 109u8, 101u8]
}

/// The bytes of the settings key `muted`.
pub open spec fn muted_key() -> Seq<u8> {
    seq![109u8, 117u8, 116u8, 101u8, 100u8]
}

/// The bytes of the literal `true`.
pub open spec fn true_lit() -> Seq<u8> {
    seq![116u8, 114u8, 117u8, 101u8]
}

fn volume_key_bytes() -> (r: Vec<u8>)
    ensures
        r@ == volume_key(),
{
    let mut v: Vec<u8> = Vec::new();
    v.push(118);
    v.push(111);
    v.push(108);
    v.push(117);
    v.push(109);
    v.push(101);
    proof {
        assert(v@ =~= volume_key());
    }
    v
}

fn muted_key_bytes() -> (r: Vec<u8>)
    ensures
        r@ == muted_key(),
{
    let mut v: Vec<u8> = Vec::new();
    v.push(109);
    v.push(117);
    v.push(116);
    v.push(101);
    v.push(100);
    proof {
        assert(v@ =~= muted_key());
    }
    v
}

/// The volume target a settings payload yields: the `volume` value
/// parsed as a decimal and put through the hearing-safety compression;
/// nothing when the key is absent or its value is not a plain number.
pub open spec fn spec_settings_volume(h: Seq<u8>) -> Option<u8> {
    match spec_json_val(h, volume_key()) {
        Some(s) => match spec_parse_decimal(s) {
            Some(v) => Some(spec_compress_volume(v as int)),
            None => None,
        },
        None => None,
    }
}

/// Extract the compressed volume target from a settings payload.
pub fn settings_volume(data: &[u8]) -> (r: Option<u8>)
    ensures
        r == spec_settings_volume(data@),
{
    let key = volume_key_bytes();
    match get_json_val(data, key.as_slice()) {
        Some(v) => match parse_decimal(v) {
            Some(n) => Some(compress_volume(n)),
            None => None,
        },
        None => None,
    }
}

/// Whether a settings payload declares the stream muted: the `muted`
/// value is the literal `true`.
pub open spec fn spec_settings_muted(h: Seq<u8>) -> bool {
    spec_json_val(h, muted_key()) == Some(true_lit())
}

/// Extract the mute flag from a settings payload.
pub fn settings_muted(data: &[u8]) -> (r: bool)
    ensures
        r == spec_settings_muted(data@),
{
    let key = muted_key_bytes();
    match get_json_val(data, key.as_slice()) {
        Some(v) => {
            if v.len() != 4 {
                return false;
            }
            let b0 = *vstd::slice::slice_index_get(v, 0);
            let b1 = *vstd::slice::slice_index_get(v, 1);
            let b2 = *vstd::slice::slice_index_get(v, 2);
            let b3 = *vstd::slice::slice_index_get(v, 3);
            if b0 == 116 && b1 == 114 && b2 == 117 && b3 == 101 {
                proof {
                    assert(v@ =~= true_lit());
                }
                true
            } else {
                false
            }
        },
        None => false,
    }
}

/// One step of the server-to-client inspection: classify the frame by
/// its type field, account for it in the activity tracker, and — for a
/// settings frame — extract the new volume target to publish.  The
/// frame bytes themselves are forwarded untouched either way.
pub fn inspect_frame(t: &mut ActivityTracker, typ: u16, data: &[u8], now_ms: u64) -> (r: Option<
    u8,
>)
    requires
        old(t).last_chunk_ms <= now_ms,
    ensures
        *final(t) == spec_on_frame(*old(t), spec_frame_kind(typ), now_ms),
        r == (if spec_frame_kind(typ) is ServerSettings {
            spec_settings_volume(data@)
        } else {
            None::<u8>
        }),
{
    let kind = frame_kind(typ);
    t.on_frame(kind, now_ms);
    if matches!(kind, FrameKind::ServerSettings) {
        settings_volume(data)
    } else {
        None
    }
}

/// The hearing-safety range compression applied to a volume percent
/// announced by the streaming server, capped at a full percent scale.
pub open spec fn spec_compress_volume(v: int) -> u8 {
    let t = (v + 34) * 6 / 10;
    if t > 100 {
        100
    } else {
        t as u8
    }
}

/// Compress a server volume into the local target percent:
/// `(v + 34) * 6 / 10`, so 100 maps to 80 and 0 maps to 20.
pub fn compress_volume(v: u32) -> (r: u8)
    ensures
        r == spec_compress_volume(v as int),
{
    let t = ((v as u64) + 34) * 6 / 10;
    if t > 100 {
        100
    } else {
        t as u8
    }
}

} // verus!
