//! Local civil time to UTC, through the IANA timezone database.
//!
//! The zone arithmetic itself is done by the `chrono` and `chrono-tz`
//! crates behind the two trusted items below; everything around them — the
//! longitude fallback, the Julian Date conversion and the validity
//! checks — is verified.  The zone database is compiled into the binary,
//! so a zone resolution is a function of its arguments alone; the two
//! uninterpreted names `utc_civil_of` and `zone_offset_of` stand for those
//! results, and the conversion's contract is exact over them.  Where a
//! zone name is unknown, the local time falls in a spring-forward gap, or
//! the resolved UTC year leaves the supported calendar range, the
//! documented fallback applies: the offset is the longitude rounded to the
//! nearest half hour.

use vstd::prelude::*;
use vstd::string::StringSliceAdditionalSpecFns;
use crate::calendar;
use crate::fixmath::divc;

verus! {

/// The UTC civil tuple `(year, month, day, hour, minute, second)` that the
/// IANA zone of the given name assigns to a local wall-clock time, or
/// `None` for an unknown name, an invalid date, or a spring-forward gap.
pub uninterp spec fn utc_civil_of(
    zone: Seq<u8>,
    year: i32,
    month: u32,
    day: u32,
    hour: u32,
    minute: u32,
    second: u32,
) -> Option<(i32, u32, u32, u32, u32, u32)>;

/// The zone's UTC offset in seconds at a local wall-clock time, or `None`
/// in the same three failure cases.
pub uninterp spec fn zone_offset_of(
    zone: Seq<u8>,
    year: i32,
    month: u32,
    day: u32,
    hour: u32,
    minute: u32,
    second: u32,
) -> Option<i32>;

/// Relies on chrono-tz's `Tz::from_str` (the compiled IANA table) and
/// chrono's `NaiveDate::from_ymd_opt`, `NaiveDate::and_hms_opt`,
/// `TimeZone::from_local_datetime`, `LocalResult::earliest`,
/// `DateTime::with_timezone` and the `Datelike`/`Timelike` accessors: the
/// UTC civil parts of the earliest instant showing this wall-clock time in
/// the named zone.  The database is compiled in, so the result depends on
/// the arguments alone and carries the name `utc_civil_of`; the component
/// ranges are chrono's documented ones.
#[verifier::external_body]
fn zone_civil_to_utc(
    name: &str,
    year: i32,
    month: u32,
    day: u32,
    hour: u32,
    minute: u32,
    second: u32,
) -> (r: Option<(i32, u32, u32, u32, u32, u32)>)
    ensures
        r == utc_civil_of(name.spec_bytes(), year, month, day, hour, minute, second),
        r matches Some(t) ==> 1 <= t.1 <= 12 && 1 <= t.2 <= 31 && t.3 <= 23 && t.4 <= 59 && t.5
            <= 59,
{
    let tz: chrono_tz::Tz = name.parse().ok()?;
    let date = chrono::NaiveDate::from_ymd_opt(year, month, day)?;
    let naive = date.and_hms_opt(hour, minute, second)?;
    let local = chrono::TimeZone::from_local_datetime(&tz, &naive).earliest()?;
    let u = local.with_timezone(&chrono::Utc);
    Some((
        chrono::Datelike::year(&u),
        chrono::Datelike::month(&u),
        chrono::Datelike::day(&u),
        chrono::Timelike::hour(&u),
        chrono::Timelike::minute(&u),
        chrono::Timelike::second(&u),
    ))
}

/// Relies on the same chrono chain plus `DateTime::offset` and
/// `Offset::fix`: the zone's UTC offset in seconds at that local time,
/// strictly within a day (the documented invariant of `FixedOffset`),
/// named `zone_offset_of`.
#[verifier::external_body]
fn zone_civil_offset(
    name: &str,
    year: i32,
    month: u32,
    day: u32,
    hour: u32,
    minute: u32,
    second: u32,
) -> (r: Option<i32>)
    ensures
        r == zone_offset_of(name.spec_bytes(), year, month, day, hour, minute, second),
        r matches Some(off) ==> -86_400 < off < 86_400,
{
    let tz: chrono_tz::Tz = name.parse().ok()?;
    let date = chrono::NaiveDate::from_ymd_opt(year, month, day)?;
    let naive = date.and_hms_opt(hour, minute, second)?;
    let local = chrono::TimeZone::from_local_datetime(&tz, &naive).earliest()?;
    Some(chrono::Offset::fix(local.offset()).local_minus_utc())
}

/// The longitude-derived fallback offset, in half hours: the longitude
/// over fifteen degrees per hour, rounded to the nearest half hour.
pub fn fallback_offset_half_hours(lon_udeg: i64) -> (r: i64)
    requires
        -180_000_000 <= lon_udeg <= 180_000_000,
    ensures
        r == (2 * lon_udeg + 7_500_000) as int / 15_000_000,
        -24 <= r <= 24,
{
    let r = divc((2 * (lon_udeg as i128)) + 7_500_000, 15_000_000);
    proof {
        vstd::arithmetic::div_mod::lemma_div_is_ordered(
            -352_500_000,
            2 * (lon_udeg as int) + 7_500_000,
            15_000_000,
        );
        vstd::arithmetic::div_mod::lemma_div_is_ordered(
            2 * (lon_udeg as int) + 7_500_000,
            367_500_000,
            15_000_000,
        );
    }
    r as i64
}

/// Convert a valid civil local time to a UTC Julian Date in milliseconds.
///
/// When the named zone resolves the instant and the UTC year stays in the
/// supported calendar band, the result is exactly the Julian Date of the
/// named resolution `utc_civil_of`; otherwise the longitude fallback
/// applies exactly.  The second component tells which path was taken.
pub fn local_to_utc_julian_date(
    tz_name: &str,
    year: i32,
    month: u32,
    day: u32,
    hour: u32,
    minute: u32,
    second: u32,
    lon_udeg: i64,
) -> (r: (i64, bool))
    requires
        1584 <= year <= 9998,
        1 <= month <= 12,
        1 <= day <= calendar::spec_days_in_month(year as int, month as int),
        hour <= 23,
        minute <= 59,
        second <= 59,
        -180_000_000 <= lon_udeg <= 180_000_000,
    ensures
        utc_civil_of(tz_name.spec_bytes(), year, month, day, hour, minute, second) matches Some(t)
            ==> (r.1 <==> 1583 <= t.0 <= 9999) && (1583 <= t.0 <= 9999 ==> r.0
            == calendar::spec_jd_ms(
            t.0 as int,
            t.1 as int,
            t.2 as int,
            t.3 as int,
            t.4 as int,
            t.5 as int,
        )),
        utc_civil_of(tz_name.spec_bytes(), year, month, day, hour, minute, second) is None ==> !r.1,
        !r.1 ==> r.0 == calendar::spec_jd_ms(
            year as int,
            month as int,
            day as int,
            hour as int,
            minute as int,
            second as int,
        ) - ((2 * lon_udeg + 7_500_000) as int / 15_000_000) * 1_800_000,
        189_000_000_000_000 < r.0 < 471_000_000_000_000,
{
    let jd_local = calendar::to_julian_date(year, month, day, hour, minute, second);
    match zone_civil_to_utc(tz_name, year, month, day, hour, minute, second) {
        Some(parts) => {
            let uy = parts.0;
            if 1583 <= uy && uy <= 9999 {
                let jd = calendar::to_julian_date(uy, parts.1, parts.2, parts.3, parts.4, parts.5);
                (jd, true)
            } else {
                fallback_jd(jd_local, lon_udeg)
            }
        },
        None => fallback_jd(jd_local, lon_udeg),
    }
}

/// The fallback path: subtract the half-hour offset from the local Julian
/// Date.
fn fallback_jd(jd_local_ms: i64, lon_udeg: i64) -> (r: (i64, bool))
    requires
        190_000_000_000_000 < jd_local_ms < 470_000_000_000_000,
        -180_000_000 <= lon_udeg <= 180_000_000,
    ensures
        r.0 == jd_local_ms - ((2 * lon_udeg + 7_500_000) as int / 15_000_000) * 1_800_000,
        r.1 == false,
        189_000_000_000_000 < r.0 < 471_000_000_000_000,
{
    let off = fallback_offset_half_hours(lon_udeg);
    (jd_local_ms - off * 1_800_000, false)
}

/// The zone offset, in seconds, that the conversion would use for a valid
/// civil local time: exactly the named zone's offset `zone_offset_of`
/// where it resolves, exactly the half-hour fallback otherwise.
pub fn timezone_offset_seconds(
    tz_name: &str,
    year: i32,
    month: u32,
    day: u32,
    hour: u32,
    minute: u32,
    second: u32,
    lon_udeg: i64,
) -> (r: i64)
    requires
        1584 <= year <= 9998,
        1 <= month <= 12,
        1 <= day <= calendar::spec_days_in_month(year as int, month as int),
        hour <= 23,
        minute <= 59,
        second <= 59,
        -180_000_000 <= lon_udeg <= 180_000_000,
    ensures
        zone_offset_of(tz_name.spec_bytes(), year, month, day, hour, minute, second) matches Some(
            off,
        ) ==> r == off,
        zone_offset_of(tz_name.spec_bytes(), year, month, day, hour, minute, second) is None ==> r
            == ((2 * lon_udeg + 7_500_000) as int / 15_000_000) * 1800,
        -86_400 < r < 86_400,
{
    match zone_civil_offset(tz_name, year, month, day, hour, minute, second) {
        Some(secs) => secs as i64,
        None => fallback_offset_half_hours(lon_udeg) * 1800,
    }
}

} // verus!
