//! ISO 8601 timestamps and session identifiers.
use vstd::prelude::*;

use crate::calendar::{
    civil_from_days, days_to_ymd, lemma_day_has_date, lemma_year_below_ten_thousand,
};
use crate::clock::{random_u32, unix_time_secs};
use crate::text::{
    hex_byte, is_hex_digit, lemma_hex_byte_digits, lemma_padded_decimal_len, padded_decimal, pow10,
    push_char, push_hex_byte, push_padded_decimal,
};

verus! {

/// The date `YYYY-MM-DD` part of a timestamp.
pub open spec fn date_text(y: int, m: int, d: int, sep: Seq<char>) -> Seq<char> {
    padded_decimal(y as nat, 4) + sep + padded_decimal(m as nat, 2) + sep + padded_decimal(
        d as nat,
        2,
    )
}

/// The UTC timestamp `YYYY-MM-DDTHH:MM:SSZ` of the second `secs` after the Unix epoch.
pub open spec fn iso8601_text(secs: nat) -> Seq<char> {
    let date = civil_from_days((secs / 86400) as int);
    let in_day = secs % 86400;
    date_text(date.0, date.1, date.2, seq!['-']) + seq!['T'] + padded_decimal(in_day / 3600, 2)
        + seq![':'] + padded_decimal((in_day % 3600) / 60, 2) + seq![':'] + padded_decimal(
        in_day % 60,
        2,
    ) + seq!['Z']
}

/// The session identifier `YYYYMMDD_hhhhhhhh` made of the UTC date of
/// second `secs` and four random bytes in lower-case hexadecimal.
pub open spec fn session_id_text(secs: nat, random: Seq<u8>) -> Seq<char> {
    let date = civil_from_days((secs / 86400) as int);
    date_text(date.0, date.1, date.2, seq![]) + seq!['_'] + hex_byte(random[0]) + hex_byte(
        random[1],
    ) + hex_byte(random[2]) + hex_byte(random[3])
}

/// Formats the second `secs` after the Unix epoch as an ISO 8601 UTC timestamp.
pub fn format_iso8601(secs: u64) -> (r: String)
    ensures
        r@ == iso8601_text(secs as nat),
{
    let days: u64 = secs / 86400;
    let day_seconds: u64 = secs % 86400;
    let (year, month, day) = days_to_ymd(days);
    let mut out = String::new();
    push_padded_decimal(&mut out, year, 4);
    push_char(&mut out, '-');
    push_padded_decimal(&mut out, month, 2);
    push_char(&mut out, '-');
    push_padded_decimal(&mut out, day, 2);
    push_char(&mut out, 'T');
    push_padded_decimal(&mut out, day_seconds / 3600, 2);
    push_char(&mut out, ':');
    push_padded_decimal(&mut out, (day_seconds % 3600) / 60, 2);
    push_char(&mut out, ':');
    push_padded_decimal(&mut out, day_seconds % 60, 2);
    push_char(&mut out, 'Z');
    assert(out@ =~= iso8601_text(secs as nat));
    out
}

/// The current UTC time as an ISO 8601 timestamp.
pub fn iso8601_now() -> (r: String)
    ensures
        exists|secs: u64| r@ == iso8601_text(secs as nat),
{
    let secs = unix_time_secs();
    format_iso8601(secs)
}

/// Formats a session identifier from the second `secs` after the Unix epoch
/// and four random bytes.
pub fn format_session_id(secs: u64, random: [u8; 4]) -> (r: String)
    ensures
        r@ == session_id_text(secs as nat, random@),
{
    let days: u64 = secs / 86400;
    let (year, month, day) = days_to_ymd(days);
    let mut out = String::new();
    push_padded_decimal(&mut out, year, 4);
    push_padded_decimal(&mut out, month, 2);
    push_padded_decimal(&mut out, day, 2);
    push_char(&mut out, '_');
    push_hex_byte(&mut out, random[0]);
    push_hex_byte(&mut out, random[1]);
    push_hex_byte(&mut out, random[2]);
    push_hex_byte(&mut out, random[3]);
    assert(out@ =~= session_id_text(secs as nat, random@));
    out
}

/// A new session identifier `YYYYMMDD_hhhhhhhh` for today's UTC date.
pub fn generate_session_id() -> (r: String)
    ensures
        exists|secs: u64, random: [u8; 4]| r@ == session_id_text(secs as nat, random@),
{
    let secs = unix_time_secs();
    let bits: u32 = random_u32();
    let random: [u8; 4] = [
        (bits % 256) as u8,
        ((bits / 256) % 256) as u8,
        ((bits / 65536) % 256) as u8,
        (bits / 16777216) as u8,
    ];
    format_session_id(secs, random)
}

proof fn lemma_date_parts(secs: nat)
    requires
        secs < 253402300800,
    ensures
        ({
            let date = civil_from_days((secs / 86400) as int);
            &&& padded_decimal(date.0 as nat, 4).len() == 4
            &&& padded_decimal(date.1 as nat, 2).len() == 2
            &&& padded_decimal(date.2 as nat, 2).len() == 2
        }),
{
    let n: int = (secs / 86400) as int;
    lemma_day_has_date(n as u64);
    let date = civil_from_days(n);
    lemma_year_below_ten_thousand(n, date);
    assert(pow10(4) == 10000 && pow10(2) == 100) by {
        reveal_with_fuel(pow10, 5);
    }
    lemma_padded_decimal_len(date.0 as nat, 4);
    lemma_padded_decimal_len(date.1 as nat, 2);
    lemma_padded_decimal_len(date.2 as nat, 2);
}

/// Law: before the year 10000 every timestamp has the shape
/// `YYYY-MM-DDTHH:MM:SSZ`: twenty characters, with its separators in place.
pub proof fn law_iso8601_shape(secs: nat)
    requires
        secs < 253402300800,
    ensures
        iso8601_text(secs).len() == 20,
        iso8601_text(secs)[4] == '-',
        iso8601_text(secs)[7] == '-',
        iso8601_text(secs)[10] == 'T',
        iso8601_text(secs)[13] == ':',
        iso8601_text(secs)[16] == ':',
        iso8601_text(secs)[19] == 'Z',
{
    lemma_date_parts(secs);
    let in_day = secs % 86400;
    assert(pow10(2) == 100) by {
        reveal_with_fuel(pow10, 3);
    }
    lemma_padded_decimal_len(in_day / 3600, 2);
    lemma_padded_decimal_len((in_day % 3600) / 60, 2);
    lemma_padded_decimal_len(in_day % 60, 2);
}

/// Law: before the year 10000 every session identifier has the shape
/// `YYYYMMDD_hhhhhhhh`: seventeen characters, an underscore after the date
/// and eight hexadecimal digits after it.
pub proof fn law_session_id_shape(secs: nat, random: Seq<u8>)
    requires
        secs < 253402300800,
        random.len() == 4,
    ensures
        session_id_text(secs, random).len() == 17,
        session_id_text(secs, random)[8] == '_',
        forall|i: int| 9 <= i < 17 ==> is_hex_digit(#[trigger] session_id_text(secs, random)[i]),
{
    lemma_date_parts(secs);
    lemma_hex_byte_digits(random[0]);
    lemma_hex_byte_digits(random[1]);
    lemma_hex_byte_digits(random[2]);
    lemma_hex_byte_digits(random[3]);
    let s = session_id_text(secs, random);
    assert forall|i: int| 9 <= i < 17 implies is_hex_digit(#[trigger] s[i]) by {
        if i < 11 {
            assert(s[i] == hex_byte(random[0])[i - 9]);
        } else if i < 13 {
            assert(s[i] == hex_byte(random[1])[i - 11]);
        } else if i < 15 {
            assert(s[i] == hex_byte(random[2])[i - 13]);
        } else {
            assert(s[i] == hex_byte(random[3])[i - 15]);
        }
    }
}

} // verus!
