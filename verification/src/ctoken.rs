//! The `ctoken`: a 16-byte record of (mostly constant) browser "behaviour"
//! counters, widened to little-endian 16-bit units and written in standard
//! Base64.
//!
//! Two kinds of token exist.  For `createV2` requests the record carries the
//! seconds elapsed since the ticket was collected, which needs the clock;
//! for every other request it carries a random touch-event count.
use vstd::prelude::*;
use crate::text::str_equals;
use crate::encoding::{base64_encode, base64_standard, lemma_base64_concat, lemma_base64_injective, lemma_base64_len};
use rand::Rng;

verus! {

// ---------------------------------------------------------------------------
// Outside calls
// ---------------------------------------------------------------------------

/// Calls `rand::rng().random_range(low..=high)`: a value drawn from the
/// thread-local generator.  The crate promises a value in the inclusive
/// range and panics on an empty range, which `requires` rules out.  Which
/// value comes out is left open.
#[verifier::external_body]
fn random_u16_inclusive(low: u16, high: u16) -> (value: u16)
    requires
        low <= high,
    ensures
        low <= value <= high,
{
    rand::rng().random_range(low..=high)
}

/// Reads the system clock: `SystemTime::now().duration_since(UNIX_EPOCH)`,
/// in whole seconds, or `None` when the clock stands before the epoch.  The
/// reading depends on the time, so nothing is stated of it.
#[verifier::external_body]
fn unix_time_seconds() -> (seconds: Option<u64>) {
    std::time::SystemTime::now().duration_since(std::time::UNIX_EPOCH).ok().map(|d| d.as_secs())
}

// ---------------------------------------------------------------------------
// The model
// ---------------------------------------------------------------------------

/// The value that differs between the two kinds of token.
pub enum CtokenMode {
    /// A `createV2` token, built at the given clock reading (Unix seconds).
    CreateV2 { now_secs: u64 },
    /// Any other token, built with the given touch-event count.
    Other { touch_event: u16 },
}

/// Seconds between collecting the ticket and now, corrected by the server
/// offset, kept as a 16-bit value (the record keeps the low 16 bits).
pub open spec fn time_difference(now_secs: u64, time_offset: i64, ticket_collection_t: u64) -> u16 {
    ((now_secs + time_offset - ticket_collection_t) % 65536) as u16
}

/// The timer counter: the stay time plus the time difference, capped at
/// `65535`.
pub open spec fn timer_value(time_difference: u16, stay_time: u64) -> u16 {
    if time_difference + stay_time > 65535 {
        65535
    } else {
        (time_difference + stay_time) as u16
    }
}

/// A counter of at most one byte: values above `255` count as `255`.
pub open spec fn clamp_byte(v: u16) -> u8 {
    if v > 255 {
        255
    } else {
        v as u8
    }
}

/// The 16-byte record: touch events, scroll x, visibility changes, scroll y,
/// inner width, page unloads, inner height, outer width, the timer (high
/// byte first), the time difference (high byte first), outer height,
/// screen x, screen y, screen width.
pub open spec fn ctoken_layout(touch_event: u8, page_unload: u8, timer: u16, difference: u16) -> Seq<u8> {
    seq![
        touch_event, 0u8, 2u8, 0u8, 255u8, page_unload, 255u8, 255u8,
        (timer / 256) as u8, (timer % 256) as u8,
        (difference / 256) as u8, (difference % 256) as u8,
        255u8, 0u8, 0u8, 255u8,
    ]
}

/// The record for a mode and the request's parameters.
pub open spec fn ctoken_record(
    mode: CtokenMode,
    ticket_collection_t: u64,
    time_offset: i64,
    stay_time: u64,
) -> Seq<u8> {
    match mode {
        CtokenMode::CreateV2 { now_secs } => {
            let difference = time_difference(now_secs, time_offset, ticket_collection_t);
            ctoken_layout(255, 25, timer_value(difference, stay_time), difference)
        },
        CtokenMode::Other { touch_event } => {
            ctoken_layout(clamp_byte(touch_event), 2, timer_value(0, stay_time), 0)
        },
    }
}

/// Each byte followed by a zero byte: the bytes taken as 16-bit values and
/// written little-endian.
pub open spec fn widened(bytes: Seq<u8>) -> Seq<u8> {
    Seq::new(2 * bytes.len(), |i: int| if i % 2 == 0 { bytes[i / 2] } else { 0u8 })
}

/// The text of a token whose record is `record`.
pub open spec fn ctoken_text(record: Seq<u8>) -> Seq<char> {
    base64_standard(widened(record))
}

// ---------------------------------------------------------------------------
// Building the record
// ---------------------------------------------------------------------------

/// A counter written as one byte: `min(v, 255) & 0xFF`.
fn clamped_byte(v: u16) -> (b: u8)
    ensures
        b == clamp_byte(v),
{
    let c: u16 = if v < 255 { v } else { 255 };
    assert(c <= 255 ==> c & 0xFF == c) by (bit_vector);
    (c & 0xFF) as u8
}

/// The high byte of a 16-bit counter: `(v >> 8) & 0xFF`.
fn high_byte(v: u16) -> (b: u8)
    ensures
        b == v / 256,
{
    assert((v >> 8) & 0xFF == v / 256) by (bit_vector);
    ((v >> 8) & 0xFF) as u8
}

/// The low byte of a 16-bit counter: `v & 0xFF`.
fn low_byte(v: u16) -> (b: u8)
    ensures
        b == v % 256,
{
    assert(v & 0xFF == v % 256) by (bit_vector);
    (v & 0xFF) as u8
}

/// Whether a position of the record holds one of the fixed fields (every
/// position but the low bytes of the timer and of the time difference).
fn is_fixed_field(i: usize) -> (r: bool)
    ensures
        r == (i < 16 && i != 9 && i != 11),
{
    i <= 8 || i == 10 || (12 <= i && i <= 15)
}

/// The seconds between collecting the ticket and `now_secs`, corrected by
/// `time_offset`, reduced to 16 bits as the record keeps them.
fn elapsed_u16(now_secs: u64, time_offset: i64, ticket_collection_t: u64) -> (d: u16)
    ensures
        d == time_difference(now_secs, time_offset, ticket_collection_t),
{
    let sum: i128 = now_secs as i128 + time_offset as i128 - ticket_collection_t as i128;
    // 2^66, a multiple of 65536, makes the value non-negative without
    // changing it modulo 65536.
    let shifted: u128 = (sum + 73786976294838206464i128) as u128;
    proof {
        vstd::arithmetic::div_mod::lemma_mod_multiples_vanish(
            1125899906842624,
            sum as int,
            65536,
        );
    }
    (shifted % 65536) as u16
}

/// The timer counter: `min(difference + stay_time, 65535)`.
fn timer_counter(difference: u16, stay_time: u64) -> (t: u16)
    ensures
        t == timer_value(difference, stay_time),
{
    let total = (difference as u64).saturating_add(stay_time);
    if total < 65535 {
        total as u16
    } else {
        65535
    }
}

/// Builds the 16-byte record of a token.
///
/// `screen_height` and `screen_avail_width` are the random screen values
/// drawn for every token; the record's fields are all fixed before they could
/// be used, so they do not change it.
pub fn ctoken_buffer(
    mode: CtokenMode,
    ticket_collection_t: u64,
    time_offset: i64,
    stay_time: u64,
    screen_height: u16,
    screen_avail_width: u16,
) -> (buffer: [u8; 16])
    ensures
        buffer@ == ctoken_record(mode, ticket_collection_t, time_offset, stay_time),
        match mode {
            CtokenMode::CreateV2 { now_secs } => {
                let d = (now_secs + time_offset - ticket_collection_t) % 65536;
                &&& buffer@[0] == 255 && buffer@[5] == 25
                &&& buffer@[10] * 256 + buffer@[11] == d
                &&& buffer@[8] * 256 + buffer@[9] == if d + stay_time > 65535 {
                    65535
                } else {
                    d + stay_time
                }
            },
            CtokenMode::Other { touch_event } => {
                &&& buffer@[0] == if touch_event > 255 { 255 } else { touch_event as int }
                &&& buffer@[5] == 2
                &&& buffer@[10] == 0 && buffer@[11] == 0
                &&& buffer@[8] * 256 + buffer@[9] == if stay_time > 65535 {
                    65535
                } else {
                    stay_time as int
                }
            },
        },
{
    let visibility_change: u16 = 2;
    let scroll_x: u16 = 0;
    let scroll_y: u16 = 0;
    let inner_width: u16 = 255;
    let inner_height: u16 = 255;
    let outer_width: u16 = 255;
    let outer_height: u16 = 255;
    let screen_x: u16 = 0;
    let screen_y: u16 = 0;
    let screen_width: u16 = 255;

    let touch_event: u16;
    let page_unload: u16;
    let timer: u16;
    let difference: u16;
    match mode {
        CtokenMode::CreateV2 { now_secs } => {
            touch_event = 255;
            page_unload = 25;
            difference = elapsed_u16(now_secs, time_offset, ticket_collection_t);
            timer = timer_counter(difference, stay_time);
        },
        CtokenMode::Other { touch_event: touches } => {
            touch_event = touches;
            page_unload = 2;
            difference = 0;
            timer = timer_counter(0, stay_time);
        },
    }

    let mut buffer = [0u8; 16];
    buffer[0] = clamped_byte(touch_event);
    buffer[1] = clamped_byte(scroll_x);
    buffer[2] = clamped_byte(visibility_change);
    buffer[3] = clamped_byte(scroll_y);
    buffer[4] = clamped_byte(inner_width);
    buffer[5] = clamped_byte(page_unload);
    buffer[6] = clamped_byte(inner_height);
    buffer[7] = clamped_byte(outer_width);
    buffer[8] = high_byte(timer);
    buffer[9] = low_byte(timer);
    buffer[10] = high_byte(difference);
    buffer[11] = low_byte(difference);
    buffer[12] = clamped_byte(outer_height);
    buffer[13] = clamped_byte(screen_x);
    buffer[14] = clamped_byte(screen_y);
    buffer[15] = clamped_byte(screen_width);

    let ghost filled = buffer@;
    // Positions that are not fixed fields take a screen-dependent value;
    // positions 9 and 11 are skipped and every other one is fixed.
    let mut i: usize = 0;
    while i < 16
        invariant
            i <= 16,
            buffer@ == filled,
        decreases 16 - i,
    {
        let position = i;
        i += 1;
        if position == 9 || position == 11 {
            continue;
        }
        if !is_fixed_field(position) {
            let condition_value: u16 = if (4 & screen_height) != 0 {
                scroll_y
            } else {
                screen_avail_width
            };
            buffer[position] = (condition_value & 0xFF) as u8;
        }
    }
    assert(buffer@ =~= ctoken_record(mode, ticket_collection_t, time_offset, stay_time));
    proof {
        lemma_record_fields(mode, ticket_collection_t, time_offset, stay_time);
    }
    buffer
}

/// The bytes taken as 16-bit values, written little-endian and encoded in
/// standard Base64.
pub fn to_binary(buffer: &[u8]) -> (text: String)
    requires
        4 * ((2 * buffer@.len() + 2) / 3) <= usize::MAX,
    ensures
        text@ == base64_standard(widened(buffer@)),
        text@.len() == 4 * ((2 * buffer@.len() + 2) / 3),
{
    let mut uint16_data: Vec<u16> = Vec::new();
    for k in 0..buffer.len()
        invariant
            uint16_data@.len() == k,
            forall|j: int| 0 <= j < k ==> uint16_data@[j] == buffer@[j] as u16,
    {
        uint16_data.push(buffer[k] as u16);
    }

    let mut uint8_data: Vec<u8> = Vec::new();
    for k in 0..uint16_data.len()
        invariant
            uint16_data@.len() == buffer@.len(),
            forall|j: int| 0 <= j < buffer@.len() ==> uint16_data@[j] == buffer@[j] as u16,
            uint8_data@.len() == 2 * k,
            forall|j: int| 0 <= j < 2 * k ==> uint8_data@[j] == widened(buffer@)[j],
    {
        let val = uint16_data[k];
        let ghost b = buffer@[k as int];
        assert((val & 0xFF) as u8 == b && (val >> 8) & 0xFF == 0) by (bit_vector)
            requires
                val == b as u16,
        ;
        uint8_data.push((val & 0xFF) as u8);
        uint8_data.push(((val >> 8) & 0xFF) as u8);
        assert forall|j: int| 0 <= j < 2 * (k + 1) implies uint8_data@[j] == widened(buffer@)[j] by {
            if j >= 2 * k {
                assert(j == 2 * k || j == 2 * k + 1);
            }
        }
    }
    assert(uint8_data@ =~= widened(buffer@));
    proof {
        lemma_base64_len(widened(buffer@));
    }
    base64_encode(uint8_data.as_slice())
}

/// The seconds that a clock reading stands for: a reading before the Unix
/// epoch counts as the epoch itself.
pub open spec fn clock_seconds(clock: Option<u64>) -> u64 {
    match clock {
        Some(secs) => secs,
        None => 0,
    }
}

/// Generates the `ctoken` for a request of the given type, given the clock
/// reading (Unix seconds, `None` when the clock stands before the epoch).
///
/// A `createV2` token records the seconds since `ticket_collection_t`,
/// shifted by the server offset `time_offset`, at that reading, and the stay
/// time.  Any other token ignores the reading and records a random
/// touch-event count between 3 and 10.
pub fn generate_ctoken_at(
    token_type: &str,
    ticket_collection_t: u64,
    time_offset: i64,
    stay_time: u64,
    clock: Option<u64>,
) -> (token: String)
    ensures
        token@.len() == 44,
        token_type@ == "createV2"@ ==> token@ == ctoken_text(
            ctoken_record(
                CtokenMode::CreateV2 { now_secs: clock_seconds(clock) },
                ticket_collection_t,
                time_offset,
                stay_time,
            ),
        ),
        token_type@ != "createV2"@ ==> exists|touch_event: u16|
            3 <= touch_event <= 10 && token@ == ctoken_text(
                ctoken_record(CtokenMode::Other { touch_event }, ticket_collection_t, time_offset, stay_time),
            ),
{
    let screen_height = random_u16_inclusive(1000, 3000);
    let screen_avail_width = random_u16_inclusive(1, 100);

    let mode = if str_equals(token_type, "createV2") {
        let now_secs = match clock {
            Some(secs) => secs,
            None => 0,
        };
        CtokenMode::CreateV2 { now_secs }
    } else {
        CtokenMode::Other { touch_event: random_u16_inclusive(3, 10) }
    };

    let buffer = ctoken_buffer(
        mode,
        ticket_collection_t,
        time_offset,
        stay_time,
        screen_height,
        screen_avail_width,
    );
    to_binary(&buffer)
}

/// Generates the `ctoken` for a request of the given type; a `createV2`
/// token reads the clock.
pub fn generate_ctoken(
    token_type: &str,
    ticket_collection_t: u64,
    time_offset: i64,
    stay_time: u64,
) -> (token: String)
    ensures
        token@.len() == 44,
        token_type@ == "createV2"@ ==> exists|now_secs: u64|
            token@ == ctoken_text(
                ctoken_record(CtokenMode::CreateV2 { now_secs }, ticket_collection_t, time_offset, stay_time),
            ),
        token_type@ != "createV2"@ ==> exists|touch_event: u16|
            3 <= touch_event <= 10 && token@ == ctoken_text(
                ctoken_record(CtokenMode::Other { touch_event }, ticket_collection_t, time_offset, stay_time),
            ),
{
    let clock = if str_equals(token_type, "createV2") {
        unix_time_seconds()
    } else {
        None
    };
    generate_ctoken_at(token_type, ticket_collection_t, time_offset, stay_time, clock)
}

// ---------------------------------------------------------------------------
// Laws
// ---------------------------------------------------------------------------

/// The record is 16 bytes long, and its two 16-bit counters can be read back
/// from it, high byte first: the timer from bytes 8 and 9 and the time
/// difference from bytes 10 and 11.  A non-`createV2` record has a zero time
/// difference and the stay time, capped at 65535, as its timer.
pub proof fn lemma_record_counters(mode: CtokenMode, ticket_collection_t: u64, time_offset: i64, stay_time: u64)
    ensures
        ({
            let record = ctoken_record(mode, ticket_collection_t, time_offset, stay_time);
            let timer = record[8] * 256 + record[9];
            let difference = record[10] * 256 + record[11];
            &&& record.len() == 16
            &&& match mode {
                CtokenMode::CreateV2 { now_secs } => {
                    &&& difference == time_difference(now_secs, time_offset, ticket_collection_t)
                    &&& timer == timer_value(
                        time_difference(now_secs, time_offset, ticket_collection_t),
                        stay_time,
                    )
                },
                CtokenMode::Other { .. } => {
                    &&& difference == 0
                    &&& timer == if stay_time > 65535 { 65535 } else { stay_time as int }
                },
            }
        }),
{
    let record = ctoken_record(mode, ticket_collection_t, time_offset, stay_time);
    match mode {
        CtokenMode::CreateV2 { now_secs } => {
            let d = time_difference(now_secs, time_offset, ticket_collection_t);
            let t = timer_value(d, stay_time);
            assert((d / 256) as u8 * 256 + (d % 256) as u8 == d) by (bit_vector);
            assert((t / 256) as u8 * 256 + (t % 256) as u8 == t) by (bit_vector);
        },
        CtokenMode::Other { .. } => {
            let t = timer_value(0, stay_time);
            assert((t / 256) as u8 * 256 + (t % 256) as u8 == t) by (bit_vector);
        },
    }
}

/// Widening doubles the length and can be undone: the even positions hold
/// the given bytes in order and the odd positions are zero.
pub proof fn lemma_widened_halves(bytes: Seq<u8>)
    ensures
        widened(bytes).len() == 2 * bytes.len(),
        Seq::new(bytes.len(), |i: int| widened(bytes)[2 * i]) == bytes,
        forall|i: int| 0 <= i < bytes.len() ==> #[trigger] widened(bytes)[2 * i + 1] == 0,
{
    assert(Seq::new(bytes.len(), |i: int| widened(bytes)[2 * i]) =~= bytes);
}

/// Widening keeps concatenation: the widened whole is the widened parts
/// one after the other.
pub proof fn lemma_widened_concat(a: Seq<u8>, b: Seq<u8>)
    ensures
        widened(a + b) == widened(a) + widened(b),
{
    assert(widened(a + b) =~= widened(a) + widened(b));
}

/// Different buffers never give the same text: the text of `to_binary`
/// determines the buffer.
pub proof fn lemma_to_binary_injective(a: Seq<u8>, b: Seq<u8>)
    requires
        base64_standard(widened(a)) == base64_standard(widened(b)),
    ensures
        a == b,
{
    lemma_base64_injective(widened(a), widened(b));
    lemma_widened_halves(a);
    lemma_widened_halves(b);
}

/// The text of a buffer splits after any multiple of three bytes: the text
/// of the whole is the text of the first part followed by that of the rest.
pub proof fn lemma_to_binary_concat(a: Seq<u8>, b: Seq<u8>)
    requires
        a.len() % 3 == 0,
    ensures
        base64_standard(widened(a + b)) == base64_standard(widened(a)) + base64_standard(widened(b)),
{
    lemma_widened_concat(a, b);
    lemma_base64_concat(widened(a), widened(b));
}

/// What the record says, in terms of the request alone.  A `createV2`
/// record has 255 touch events and 25 page unloads; its time difference is
/// the clock reading plus the server offset minus the collection time,
/// modulo 65536, and its timer that difference plus the stay time, capped at
/// 65535.  Any other record has its touch-event count (capped at 255), 2 page
/// unloads, a zero time difference, and the stay time, capped at 65535, as
/// its timer.
pub proof fn lemma_record_fields(mode: CtokenMode, ticket_collection_t: u64, time_offset: i64, stay_time: u64)
    ensures
        ({
            let record = ctoken_record(mode, ticket_collection_t, time_offset, stay_time);
            &&& record.len() == 16
            &&& match mode {
                CtokenMode::CreateV2 { now_secs } => {
                    let d = (now_secs + time_offset - ticket_collection_t) % 65536;
                    &&& record[0] == 255 && record[5] == 25
                    &&& record[10] * 256 + record[11] == d
                    &&& record[8] * 256 + record[9] == if d + stay_time > 65535 {
                        65535
                    } else {
                        d + stay_time
                    }
                },
                CtokenMode::Other { touch_event } => {
                    &&& record[0] == if touch_event > 255 { 255 } else { touch_event as int }
                    &&& record[5] == 2
                    &&& record[10] == 0 && record[11] == 0
                    &&& record[8] * 256 + record[9] == if stay_time > 65535 {
                        65535
                    } else {
                        stay_time as int
                    }
                },
            }
        }),
{
    lemma_record_counters(mode, ticket_collection_t, time_offset, stay_time);
}

/// The server offset moves the recorded time difference one for one: two
/// `createV2` records taken at the same clock reading, whose offsets differ
/// by `k`, have time differences that differ by `k` modulo 65536.
pub proof fn lemma_offset_shifts_difference(
    now_secs: u64,
    ticket_collection_t: u64,
    offset1: i64,
    offset2: i64,
    stay_time: u64,
)
    ensures
        ({
            let r1 = ctoken_record(CtokenMode::CreateV2 { now_secs }, ticket_collection_t, offset1, stay_time);
            let r2 = ctoken_record(CtokenMode::CreateV2 { now_secs }, ticket_collection_t, offset2, stay_time);
            (r2[10] * 256 + r2[11]) % 65536 == ((r1[10] * 256 + r1[11]) + (offset2 - offset1)) % 65536
        }),
{
    lemma_record_fields(CtokenMode::CreateV2 { now_secs }, ticket_collection_t, offset1, stay_time);
    lemma_record_fields(CtokenMode::CreateV2 { now_secs }, ticket_collection_t, offset2, stay_time);
    let a = now_secs + offset1 - ticket_collection_t;
    let k = offset2 - offset1;
    vstd::arithmetic::div_mod::lemma_add_mod_noop(a, k, 65536);
    vstd::arithmetic::div_mod::lemma_mod_twice(a + k, 65536);
}

/// A token's text determines its record, so the fields that
/// `lemma_record_fields` describes can be read back from any token: two
/// tokens with the same text have the same record.
pub proof fn lemma_token_determines_record(r1: Seq<u8>, r2: Seq<u8>)
    requires
        ctoken_text(r1) == ctoken_text(r2),
    ensures
        r1 == r2,
{
    lemma_to_binary_injective(r1, r2);
}

} // verus!
