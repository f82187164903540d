use vstd::prelude::*;

use chrono::{Datelike, Timelike};

use crate::text;

verus! {

/// Bit `i` (0 = least significant) of a byte.
pub open spec fn bit_of(word: u8, i: u8) -> bool {
    (word >> i) & 1u8 == 1u8
}

/// The 16-bit little-endian value made of a low and a high byte.
pub open spec fn le_word(lo: u8, hi: u8) -> u16 {
    (lo as int + hi as int * 256) as u16
}

/// Join two u8 bytes into a single u16, little endian: `pair.0` is the low byte.
pub fn join_u8(pair: (u8, u8)) -> (r: u16)
    ensures
        r == pair.0 as int + pair.1 as int * 256,
        r == le_word(pair.0, pair.1),
{
    let lo = pair.0 as u16;
    let hi = pair.1 as u16;
    let r = lo | (hi << 8u16);
    assert(r == lo + hi * 256) by (bit_vector)
        requires
            lo < 256,
            hi < 256,
            r == lo | (hi << 8u16),
    ;
    r
}

/// Split a u16 into two u8 bytes, little endian: the low byte first.
pub fn split_u16(dword: u16) -> (r: (u8, u8))
    ensures
        r.0 == dword % 256,
        r.1 == dword / 256,
{
    let lo = dword & 0xFFu16;
    let hi = dword >> 8u16;
    assert(lo == dword % 256 && hi == dword / 256) by (bit_vector)
        requires
            lo == dword & 0xFFu16,
            hi == dword >> 8u16,
    ;
    (lo as u8, hi as u8)
}

/// Splitting a joined pair gives the pair back, and joining the halves of a
/// word gives the word back.
pub proof fn lemma_join_split_roundtrip(lo: u8, hi: u8, word: u16)
    ensures
        le_word(lo, hi) % 256 == lo,
        le_word(lo, hi) / 256 == hi,
        le_word((word % 256) as u8, (word / 256) as u8) == word,
{
}

/// The byte `word` with bit `bit` set to `set`.
pub open spec fn with_bit(word: u8, bit: u8, set: bool) -> u8 {
    if set {
        word | (1u8 << bit)
    } else {
        word & !(1u8 << bit)
    }
}

/// Facts about single-bit masks on bytes, proved once for every byte and position.
pub proof fn lemma_with_bit(word: u8, bit: u8, set: bool)
    requires
        bit < 8,
    ensures
        forall|i: u8|
            i < 8 ==> #[trigger] bit_of(with_bit(word, bit, set), i) == (if i == bit {
                set
            } else {
                bit_of(word, i)
            }),
        bit_of(word, bit) <==> word & (1u8 << bit) != 0,
        (word & !(1u8 << bit)) | (1u8 << bit) == word | (1u8 << bit),
{
    let w1 = word | (1u8 << bit);
    let w0 = word & !(1u8 << bit);
    assert(forall|i: u8|
        #![auto]
        i < 8 ==> ((w1 >> i) & 1u8 == 1u8) == (if i == bit {
            true
        } else {
            (word >> i) & 1u8 == 1u8
        })) by (bit_vector)
        requires
            bit < 8,
            w1 == word | (1u8 << bit),
    ;
    assert(forall|i: u8|
        #![auto]
        i < 8 ==> ((w0 >> i) & 1u8 == 1u8) == (if i == bit {
            false
        } else {
            (word >> i) & 1u8 == 1u8
        })) by (bit_vector)
        requires
            bit < 8,
            w0 == word & !(1u8 << bit),
    ;
    assert(((word >> bit) & 1u8 == 1u8) <==> word & (1u8 << bit) != 0) by (bit_vector)
        requires
            bit < 8,
    ;
    assert((word & !(1u8 << bit)) | (1u8 << bit) == word | (1u8 << bit)) by (bit_vector);
}

/// Set or unset the specified bit within a byte.
/// A shift of eight or more places overflows, so `bit` is below 8.
pub fn set_bit(word: u8, bit: u8, set: bool) -> (r: u8)
    requires
        bit < 8,
    ensures
        r == with_bit(word, bit, set),
        forall|i: u8| i < 8 ==> #[trigger] bit_of(r, i) == (if i == bit {
            set
        } else {
            bit_of(word, i)
        }),
{
    proof {
        lemma_with_bit(word, bit, set);
    }
    let mask = 1u8 << bit;
    if set {
        (word & !mask) | mask
    } else {
        word & !mask
    }
}

/// Returns true iff the specified bit in a byte is set.
pub fn is_bit_set(word: u8, bit: u8) -> (r: bool)
    requires
        bit < 8,
    ensures
        r == bit_of(word, bit),
{
    proof {
        lemma_with_bit(word, bit, true);
    }
    (word & (1u8 << bit)) != 0
}

/// Seconds since the Unix epoch by the system clock, `None` when the clock
/// reads earlier than the epoch.
///
/// Calls `std::time::SystemTime::elapsed` on `UNIX_EPOCH` and keeps the whole
/// seconds of the duration. What it returns depends on the clock, so nothing
/// is claimed of it.
#[verifier::external_body]
fn seconds_since_epoch() -> (r: Option<u64>) {
    match std::time::UNIX_EPOCH.elapsed() {
        Ok(d) => Some(d.as_secs()),
        Err(_) => None,
    }
}

/// The UTC (year, month, day of month, seconds since midnight) of the moment
/// `secs` seconds after the Unix epoch; `None` when chrono cannot represent it.
pub uninterp spec fn utc_parts_of(secs: i64) -> Option<(i32, u32, u32, u32)>;

/// Calls `chrono::DateTime::from_timestamp(secs, 0)` and reads `year`,
/// `month`, `day` and `num_seconds_from_midnight` of the result. The result
/// depends on `secs` alone and is named `utc_parts_of`; chrono documents the
/// month as 1 to 12, the day as 1 to 31 and the seconds as 0 to 86399, and
/// that is all that is claimed of it.
#[verifier::external_body]
fn utc_parts_at(secs: i64) -> (r: Option<(i32, u32, u32, u32)>)
    ensures
        r == utc_parts_of(secs),
        r matches Some(t) ==> 1 <= t.1 <= 12 && 1 <= t.2 <= 31 && t.3 < 86400,
{
    match chrono::DateTime::from_timestamp(secs, 0) {
        Some(dt) => Some((dt.year(), dt.month(), dt.day(), dt.num_seconds_from_midnight())),
        None => None,
    }
}

/// The UTC parts of `secs` seconds after the epoch, `None` where they cannot
/// be had (beyond `i64` or beyond what chrono represents).
pub open spec fn utc_parts_of_unsigned(secs: u64) -> Option<(i32, u32, u32, u32)> {
    if secs <= i64::MAX {
        utc_parts_of(secs as i64)
    } else {
        None
    }
}

/// The decimal text of a signed number.
pub open spec fn signed_decimal(n: int) -> Seq<char> {
    if n < 0 {
        "-"@ + text::digits((-n) as nat, 10)
    } else {
        text::digits(n as nat, 10)
    }
}

/// A moment as log file names show it: `<year>_<month>_<day>_<seconds>`,
/// month and day with two digits at least.
pub open spec fn stamp_text(year: i32, month: u32, day: u32, secs: u32) -> Seq<char> {
    signed_decimal(year as int) + "_"@ + text::pad_left(text::digits(month as nat, 10), '0', 2) + "_"@
        + text::pad_left(text::digits(day as nat, 10), '0', 2) + "_"@ + text::digits(secs as nat, 10)
}

/// The log file name for a moment: `gblite_<stamp><suffix>.log`.
pub open spec fn file_name_for(year: i32, month: u32, day: u32, secs: u32, suffix: Seq<char>) -> Seq<char> {
    "gblite_"@ + stamp_text(year, month, day, secs) + suffix + ".log"@
}

/// The name of the memory dump written at a moment: `gblite_mem_<stamp>.log`.
pub open spec fn dump_name_for(year: i32, month: u32, day: u32, secs: u32) -> Seq<char> {
    "gblite_mem_"@ + stamp_text(year, month, day, secs) + ".log"@
}

/// Appends the stamp of a moment.
fn append_stamp(out: &mut String, year: i32, month: u32, day: u32, secs: u32)
    ensures
        final(out)@ == old(out)@ + stamp_text(year, month, day, secs),
{
    proof {
        reveal_strlit("_");
        reveal_strlit("-");
    }
    let ghost start = out@;
    if year < 0 {
        out.append("-");
        let magnitude: u64 = (0i64 - year as i64) as u64;
        text::append_digits(out, magnitude, 10);
    } else {
        text::append_digits(out, year as u64, 10);
    }
    out.append("_");
    text::append_padded(out, month as u64, 10, 2);
    out.append("_");
    text::append_padded(out, day as u64, 10, 2);
    out.append("_");
    text::append_digits(out, secs as u64, 10);
    assert(out@ =~= start + stamp_text(year, month, day, secs));
}

/// The log file name for the given moment.
pub fn file_name_at(year: i32, month: u32, day: u32, secs: u32, suffix: &str) -> (name: String)
    ensures
        name@ == file_name_for(year, month, day, secs, suffix@),
{
    proof {
        reveal_strlit("gblite_");
        reveal_strlit(".log");
    }
    let mut name = String::new();
    name.append("gblite_");
    append_stamp(&mut name, year, month, day, secs);
    name.append(suffix);
    name.append(".log");
    assert(name@ =~= file_name_for(year, month, day, secs, suffix@));
    name
}

/// The log file name for the moment `secs` seconds after the Unix epoch.
pub fn file_name_at_time(secs: u64, suffix: &str) -> (name: Option<String>)
    ensures
        match utc_parts_of_unsigned(secs) {
            Some(t) => name matches Some(n) && n@ == file_name_for(t.0, t.1, t.2, t.3, suffix@),
            None => name is None,
        },
        name matches Some(n) ==> exists|year: i32, month: u32, day: u32, day_secs: u32|
            1 <= month <= 12 && 1 <= day <= 31 && day_secs < 86400
            && n@ == file_name_for(year, month, day, day_secs, suffix@),
{
    if secs > i64::MAX as u64 {
        return None;
    }
    match utc_parts_at(secs as i64) {
        Some((year, month, day, day_secs)) => Some(file_name_at(year, month, day, day_secs, suffix)),
        None => None,
    }
}

/// The log file name for the current UTC moment; `None` when the clock reads
/// before the Unix epoch or beyond what can be represented.
pub fn create_file_name(suffix: &str) -> (name: Option<String>)
    ensures
        name matches Some(n) ==> exists|year: i32, month: u32, day: u32, secs: u32|
            1 <= month <= 12 && 1 <= day <= 31 && secs < 86400
            && n@ == file_name_for(year, month, day, secs, suffix@),
        name matches Some(n) ==> exists|secs: u64| #[trigger] utc_parts_of_unsigned(secs) matches Some(t)
            && n@ == file_name_for(t.0, t.1, t.2, t.3, suffix@),
{
    match seconds_since_epoch() {
        Some(secs) => file_name_at_time(secs, suffix),
        None => None,
    }
}

/// The name of the memory dump written at the given moment.
pub fn dump_name_at(year: i32, month: u32, day: u32, secs: u32) -> (name: String)
    ensures
        name@ == dump_name_for(year, month, day, secs),
{
    proof {
        reveal_strlit("gblite_mem_");
        reveal_strlit(".log");
    }
    let mut name = String::new();
    name.append("gblite_mem_");
    append_stamp(&mut name, year, month, day, secs);
    name.append(".log");
    assert(name@ =~= dump_name_for(year, month, day, secs));
    name
}

/// The name of the memory dump written at the moment `secs` seconds after
/// the Unix epoch.
pub fn dump_name_at_time(secs: u64) -> (name: Option<String>)
    ensures
        match utc_parts_of_unsigned(secs) {
            Some(t) => name matches Some(n) && n@ == dump_name_for(t.0, t.1, t.2, t.3),
            None => name is None,
        },
        name matches Some(n) ==> exists|year: i32, month: u32, day: u32, day_secs: u32|
            1 <= month <= 12 && 1 <= day <= 31 && day_secs < 86400 && n@ == dump_name_for(year, month, day, day_secs),
{
    if secs > i64::MAX as u64 {
        return None;
    }
    match utc_parts_at(secs as i64) {
        Some((year, month, day, day_secs)) => Some(dump_name_at(year, month, day, day_secs)),
        None => None,
    }
}

/// The name of the memory dump written now (UTC); `None` when the clock
/// reads before the Unix epoch or beyond what can be represented.
pub fn dump_file_name() -> (name: Option<String>)
    ensures
        name matches Some(n) ==> exists|year: i32, month: u32, day: u32, secs: u32|
            1 <= month <= 12 && 1 <= day <= 31 && secs < 86400 && n@ == dump_name_for(year, month, day, secs),
        name matches Some(n) ==> exists|secs: u64| #[trigger] utc_parts_of_unsigned(secs) matches Some(t)
            && n@ == dump_name_for(t.0, t.1, t.2, t.3),
{
    match seconds_since_epoch() {
        Some(secs) => dump_name_at_time(secs),
        None => None,
    }
}

} // verus!
