//! Runtime health signals of the daemon.
use vstd::prelude::*;
use std::time::{Duration, Instant};
use std::sync::{Arc, Mutex};
use crate::clock::{elapsed, elapsed_nanos, now, NANOS_PER_SEC};
use crate::text::{
    ascii_lower, char_ascii_lower, decimal, digits_value, has_prefix, parse_u64_reporting,
    parse_unsigned, parse_unsigned_spec, push_decimal, split_char, split_on, split_whitespace,
    strip_prefix, texts, trim, trimmed, u64_parse_error, unsigned_digits, words,
};

verus! {

/// Health-check threshold in seconds: a scan must have completed within this window.
pub const SCAN_TIMEOUT_SECS: u64 = 120;

/// Health-check threshold in seconds: a notification must have been delivered within this window.
pub const NOTIFICATION_TIMEOUT_SECS: u64 = 600;

/// Memory threshold: warn if RSS exceeds 64 MiB.
pub const RSS_WARN_THRESHOLD_BYTES: u64 = 67108864;

/// The health verdict for given ages (in nanoseconds) of the last scan and of
/// the last notification: a scan within the scan window is required, and a
/// notification, if one was ever sent, must lie within the notification window.
pub open spec fn healthy(scan_age: Option<u128>, notification_age: Option<u128>) -> bool {
    &&& scan_age.is_some() && scan_age.unwrap() <= SCAN_TIMEOUT_SECS as u128 * NANOS_PER_SEC
    &&& notification_age.is_some() ==> notification_age.unwrap() <= NOTIFICATION_TIMEOUT_SECS as u128
        * NANOS_PER_SEC
}

/// Decides health from the ages of the last scan and last notification.
pub fn health_verdict(scan_age: Option<u128>, notification_age: Option<u128>) -> (r: bool)
    ensures
        r == healthy(scan_age, notification_age),
{
    let scan_ok = match scan_age {
        Some(age) => age <= (SCAN_TIMEOUT_SECS as u128) * NANOS_PER_SEC,
        None => false,
    };
    let notification_ok = match notification_age {
        Some(age) => age <= (NOTIFICATION_TIMEOUT_SECS as u128) * NANOS_PER_SEC,
        None => true,
    };
    scan_ok && notification_ok
}

/// `std::sync::Mutex`, carried as an opaque value.
#[verifier::external_type_specification]
#[verifier::external_body]
#[verifier::reject_recursive_types(T)]
pub struct ExMutex<T: ?Sized>(std::sync::Mutex<T>);

/// When the last scan and the last notification were recorded, if ever.
pub type HealthTimes = (Option<Instant>, Option<Instant>);

/// A fresh lock holding no recorded times (`Mutex::new`).
#[verifier::external_body]
fn new_times_cell() -> Mutex<HealthTimes> {
    Mutex::new((None, None))
}

/// Records a time in the shared cell (`Mutex::lock`, then the assignment):
/// the scan time when `scan`, else the notification time; nothing when the
/// lock is poisoned. Trusted; the cell is shared with every clone, so
/// nothing is stated of its contents.
#[verifier::external_body]
fn store_time(cell: &Mutex<HealthTimes>, scan: bool, t: Instant) {
    if let Ok(mut times) = cell.lock() {
        if scan {
            times.0 = Some(t);
        } else {
            times.1 = Some(t);
        }
    }
}

/// Reads the recorded times from the shared cell (`Mutex::lock`); `None`
/// when the lock is poisoned. Trusted; another clone may have written them,
/// so nothing is stated of the result.
#[verifier::external_body]
fn load_times(cell: &Mutex<HealthTimes>) -> Option<HealthTimes> {
    cell.lock().ok().map(|times| *times)
}

/// The verdict on a read of the shared record: unhealthy when the lock was
/// poisoned, else `healthy` of the ages read.
pub open spec fn verdict_of_read_spec(read: Option<(Option<u128>, Option<u128>)>) -> bool {
    match read {
        Some((scan_age, notification_age)) => healthy(scan_age, notification_age),
        None => false,
    }
}

/// The verdict on what the shared cell gave, with the ages (in nanoseconds)
/// read from the clock for the recorded times: unhealthy when the lock was
/// poisoned, else `health_verdict` of the ages.
pub fn verdict_of_read(read: Option<(Option<u128>, Option<u128>)>) -> (r: bool)
    ensures
        r == verdict_of_read_spec(read),
{
    match read {
        Some((scan_age, notification_age)) => health_verdict(scan_age, notification_age),
        None => false,
    }
}

/// The age of a recorded time, read from the clock.
fn age_of(t: Option<Instant>) -> (r: Option<u128>)
    ensures
        r.is_some() == t.is_some(),
{
    match t {
        Some(i) => Some(elapsed_nanos(&i)),
        None => None,
    }
}

/// Tracks runtime health signals for the daemon.
///
/// Callers should invoke `record_scan()` after each successful scan cycle
/// and `record_notification()` after each successful notification delivery.
/// `is_healthy()` returns `true` when both signals are within their thresholds.
/// Clones share one record: a time recorded through any of them is seen by
/// all.
#[derive(Debug, Clone)]
pub struct HealthCheck {
    inner: Arc<Mutex<HealthTimes>>,
}

impl HealthCheck {
    /// Create a new health check tracker.
    pub fn new() -> (r: Self) {
        HealthCheck { inner: Arc::new(new_times_cell()) }
    }

    /// Record that a scan cycle completed successfully.
    pub fn record_scan(&self) {
        store_time(&self.inner, true, now());
    }

    /// Record that a notification was delivered successfully.
    pub fn record_notification(&self) {
        store_time(&self.inner, false, now());
    }

    /// Return `true` if the daemon is considered healthy.
    ///
    /// Health criteria:
    /// * A scan must have completed within the last 2 minutes.
    /// * If any notification has ever been sent, the last one must have succeeded
    ///   within the last 10 minutes.
    ///
    /// The recorded times are read from the record shared by the clones and
    /// their ages from the clock; the verdict on what was read is
    /// `verdict_of_read`.
    pub fn is_healthy(&self) -> bool {
        let read = match load_times(&self.inner) {
            Some((scan, notification)) => Some((age_of(scan), age_of(notification))),
            None => None,
        };
        verdict_of_read(read)
    }

    /// Get the time elapsed since the last successful scan, if any.
    pub fn scan_age(&self) -> (r: Option<Duration>) {
        match load_times(&self.inner) {
            Some((Some(t), _)) => Some(elapsed(&t)),
            _ => None,
        }
    }

    /// Get the time elapsed since the last successful notification, if any.
    pub fn notification_age(&self) -> (r: Option<Duration>) {
        match load_times(&self.inner) {
            Some((_, Some(t))) => Some(elapsed(&t)),
            _ => None,
        }
    }
}

impl Default for HealthCheck {
    fn default() -> (r: Self) {
        Self::new()
    }
}

/// The warning text for a memory reading over the threshold; the reading is
/// shown in MiB with one decimal (`{:.1}` of `rss / 2^20`, ties to even) and
/// the threshold in whole MiB.
pub open spec fn memory_warning_text(rss: u64) -> Seq<char> {
    "Memory usage ("@ + tenths_text(rounded_tenths_of_mib(rss as nat)) + " MB) exceeds warning threshold (64 MB)"@
}

/// `rss / 2^20` in tenths, rounded to nearest with ties to even.
pub open spec fn rounded_tenths_of_mib(rss: nat) -> nat {
    let scaled = rss * 10;
    let q = scaled / 1048576;
    let rem = scaled % 1048576;
    if rem * 2 > 1048576 || (rem * 2 == 1048576 && q % 2 == 1) {
        q + 1
    } else {
        q
    }
}

/// A count of tenths written as `whole.tenth`.
pub open spec fn tenths_text(t: nat) -> Seq<char> {
    crate::text::decimal(t / 10) + seq!['.'] + crate::text::decimal(t % 10)
}

/// Checks a memory reading (resident set size in bytes, if it could be read)
/// against the warning threshold: an error message above it, `Ok` otherwise.
pub fn check_memory_usage(rss: Option<u64>) -> (r: Result<(), String>)
    requires
        rss.is_some() ==> rss.unwrap() < 0x20000000000000,
    ensures
        match rss {
            Some(v) => if v > RSS_WARN_THRESHOLD_BYTES {
                r.is_err() && r->Err_0@ == memory_warning_text(v)
            } else {
                r.is_ok()
            },
            None => r.is_ok(),
        },
{
    match rss {
        Some(v) => {
            if v > RSS_WARN_THRESHOLD_BYTES {
                let scaled: u64 = v * 10;
                let q: u64 = scaled / 1048576;
                let rem: u64 = scaled % 1048576;
                let t: u64 = if rem * 2 > 1048576 || (rem * 2 == 1048576 && q % 2 == 1) {
                    q + 1
                } else {
                    q
                };
                let mut s = String::new();
                vstd::string::StringExecFns::append(&mut s, "Memory usage (");
                crate::text::push_decimal(&mut s, t / 10);
                crate::text::push_char(&mut s, '.');
                crate::text::push_decimal(&mut s, t % 10);
                vstd::string::StringExecFns::append(
                    &mut s,
                    " MB) exceeds warning threshold (64 MB)",
                );
                assert(s@ =~= memory_warning_text(v));
                Err(s)
            } else {
                Ok(())
            }
        },
        None => Ok(()),
    }
}


/// The lowercase form of a character, as far as it is an ASCII letter: the
/// ASCII capitals and the Kelvin sign (U+212A) are the characters other than
/// the small letters themselves whose `char::to_lowercase` is a single ASCII
/// small letter.
pub open spec fn letter_fold(c: char) -> char {
    if c == '\u{212A}' {
        'k'
    } else {
        ascii_lower(c)
    }
}

/// Whether `str::to_lowercase` of `unit` is `word`, for a `word` made of ASCII
/// small letters: character by character, each folds to the letter.
pub open spec fn lowercases_to(unit: Seq<char>, word: Seq<char>) -> bool {
    unit.len() == word.len() && forall|i: int| 0 <= i < unit.len() ==> letter_fold(#[trigger] unit[i]) == word[i]
}

/// Bytes per unit of a `VmRSS` reading: `kB`, `mB` and `gB` in any case, and
/// plain bytes for any other unit.
pub open spec fn unit_factor(unit: Seq<char>) -> nat {
    if lowercases_to(unit, seq!['k', 'b']) {
        1024
    } else if lowercases_to(unit, seq!['m', 'b']) {
        1048576
    } else if lowercases_to(unit, seq!['g', 'b']) {
        1073741824
    } else {
        1
    }
}

/// The number and unit of a `VmRSS:` line whose rest holds exactly two words.
pub open spec fn vmrss_words(line: Seq<char>) -> Option<(Seq<char>, Seq<char>)> {
    let rest = words(line.skip(6));
    if has_prefix(line, "VmRSS:"@) && rest.len() == 2 {
        Some((rest[0], rest[1]))
    } else {
        None
    }
}

/// The number and unit factor that a status text's lines give: at the first
/// `VmRSS:` line with two words, its number (none when it is no `u64`) and
/// the factor of its unit; none without such a line.
pub open spec fn rss_of_lines(lines: Seq<Seq<char>>) -> Option<(nat, nat)>
    decreases lines.len(),
{
    if lines.len() == 0 {
        None
    } else {
        match vmrss_words(lines[0]) {
            Some((num, unit)) => match parse_unsigned_spec(num, u64::MAX as nat) {
                Some(v) => Some((v, unit_factor(unit))),
                None => None,
            },
            None => rss_of_lines(lines.drop_first()),
        }
    }
}

/// The number and unit factor of the `VmRSS` entry of a `/proc/self/status`
/// text. Its lines are taken between the `\n`; a `\r` that `str::lines`
/// would also drop is whitespace and changes no word.
pub open spec fn rss_entry(status: Seq<char>) -> Option<(nat, nat)> {
    rss_of_lines(split_on(status, '\n'))
}

/// The resident set size in bytes that a `/proc/self/status` text reports.
pub open spec fn rss_reading(status: Seq<char>) -> Option<nat> {
    match rss_entry(status) {
        Some((v, f)) => Some(v * f),
        None => None,
    }
}

/// Computes `lowercases_to`.
fn unit_is(unit: &str, word: &str) -> (r: bool)
    ensures
        r == lowercases_to(unit@, word@),
{
    let n = unit.unicode_len();
    if n != word.unicode_len() {
        return false;
    }
    let mut i: usize = 0;
    while i < n
        invariant
            n == unit@.len(),
            n == word@.len(),
            i <= n,
            forall|j: int| 0 <= j < i ==> letter_fold(#[trigger] unit@[j]) == word@[j],
        decreases n - i,
    {
        let c = unit.get_char(i);
        let f = if c == '\u{212A}' {
            'k'
        } else {
            char_ascii_lower(c)
        };
        if f != word.get_char(i) {
            return false;
        }
        i = i + 1;
    }
    true
}

/// Computes `unit_factor`.
fn factor_of(unit: &str) -> (r: u64)
    ensures
        r as nat == unit_factor(unit@),
{
    let kb = "kb";
    let mb = "mb";
    let gb = "gb";
    proof {
        reveal_strlit("kb");
        reveal_strlit("mb");
        reveal_strlit("gb");
        assert(kb@ =~= seq!['k', 'b']);
        assert(mb@ =~= seq!['m', 'b']);
        assert(gb@ =~= seq!['g', 'b']);
    }
    if unit_is(unit, kb) {
        1024
    } else if unit_is(unit, mb) {
        1048576
    } else if unit_is(unit, gb) {
        1073741824
    } else {
        1
    }
}

/// The number and unit of a `VmRSS:` line (computes `vmrss_words`).
fn vmrss_parts(line: &str) -> (r: Option<(String, String)>)
    ensures
        match vmrss_words(line@) {
            Some((num, unit)) => r matches Some((a, b)) && a@ == num && b@ == unit,
            None => r is None,
        },
{
    match strip_prefix(line, "VmRSS:") {
        Some(rest) => {
            proof {
                reveal_strlit("VmRSS:");
            }
            let mut parts = split_whitespace(rest.as_str());
            assert(texts(parts@).len() == parts@.len());
            if parts.len() == 2 {
                let unit = parts.pop().unwrap();
                let num = parts.pop().unwrap();
                assert(texts(parts@.push(num).push(unit))[0] == num@);
                Some((num, unit))
            } else {
                None
            }
        },
        None => None,
    }
}

/// Finds the `VmRSS` entry of a `/proc/self/status` text: its number and the
/// bytes per unit, from the first `VmRSS:` line with a number and a unit.
pub fn rss_entry_of(status: &str) -> (r: Option<(u64, u64)>)
    ensures
        match rss_entry(status@) {
            Some((v, f)) => r matches Some((a, b)) && a as nat == v && b as nat == f,
            None => r is None,
        },
{
    let lines = split_char(status, '\n');
    let ghost all = texts(lines@);
    assert(all == split_on(status@, '\n'));
    let mut i: usize = 0;
    assert(all.skip(0) =~= all);
    while i < lines.len()
        invariant
            i <= lines@.len(),
            all == texts(lines@),
            rss_of_lines(all.skip(i as int)) == rss_entry(status@),
        decreases lines@.len() - i,
    {
        assert(all.skip(i as int)[0] == lines@[i as int]@);
        assert(all.skip(i as int).drop_first() =~= all.skip(i + 1));
        match vmrss_parts(lines[i].as_str()) {
            Some((num, unit)) => {
                match parse_unsigned(num.as_str(), u64::MAX) {
                    Some(v) => {
                        return Some((v, factor_of(unit.as_str())));
                    },
                    None => {
                        return None;
                    },
                }
            },
            None => {},
        }
        i = i + 1;
    }
    None
}

/// Reads the resident set size in bytes from the text of
/// `/proc/self/status`: the first `VmRSS:` line with a number and a unit
/// decides.
pub fn rss_from_status(status: &str) -> (r: Option<u64>)
    requires
        match rss_reading(status@) {
            Some(v) => v <= u64::MAX,
            None => true,
        },
    ensures
        match rss_reading(status@) {
            Some(v) => r == Some(v as u64),
            None => r is None,
        },
{
    match rss_entry_of(status) {
        Some((v, f)) => Some(v * f),
        None => None,
    }
}


/// The verdict on a heartbeat file's text at `now` (seconds since the
/// epoch): its trimmed text must be a `u64` time stamp, and the scan it
/// records at most `SCAN_TIMEOUT_SECS` old (a stamp in the future counts as
/// age zero). The message of the failure, none when healthy.
pub open spec fn heartbeat_failure(contents: Seq<char>, now: u64) -> Option<Seq<char>> {
    let t = trimmed(contents);
    match u64_parse_error(t) {
        Some(m) => Some("Invalid health file contents: "@ + m),
        None => {
            let stamp = digits_value(unsigned_digits(t));
            let age: nat = if now >= stamp {
                (now - stamp) as nat
            } else {
                0
            };
            if age > SCAN_TIMEOUT_SECS {
                Some(
                    "Health check failed: last scan was "@ + decimal(age) + "s ago (threshold: "@
                        + decimal(SCAN_TIMEOUT_SECS as nat) + "s)"@,
                )
            } else {
                None
            }
        },
    }
}

/// Judges the text of the heartbeat file at `now` (seconds since the epoch):
/// `Ok` for a recent scan, else the message of what is wrong.
pub fn heartbeat_verdict(contents: &str, now: u64) -> (r: Result<(), String>)
    ensures
        match heartbeat_failure(contents@, now) {
            Some(m) => r matches Err(e) && e@ == m,
            None => r is Ok,
        },
{
    let t = trim(contents);
    match parse_u64_reporting(t.as_str()) {
        Err(e) => {
            let mut msg = String::new();
            vstd::string::StringExecFns::append(&mut msg, "Invalid health file contents: ");
            vstd::string::StringExecFns::append(&mut msg, e.as_str());
            Err(msg)
        },
        Ok(stamp) => {
            let age: u64 = if now >= stamp {
                now - stamp
            } else {
                0
            };
            if age > SCAN_TIMEOUT_SECS {
                let mut msg = String::new();
                vstd::string::StringExecFns::append(
                    &mut msg,
                    "Health check failed: last scan was ",
                );
                push_decimal(&mut msg, age);
                vstd::string::StringExecFns::append(&mut msg, "s ago (threshold: ");
                push_decimal(&mut msg, SCAN_TIMEOUT_SECS);
                vstd::string::StringExecFns::append(&mut msg, "s)");
                Err(msg)
            } else {
                Ok(())
            }
        },
    }
}


/// What the health check makes of a heartbeat that holds the decimal text
/// of a time stamp: healthy while at most `SCAN_TIMEOUT_SECS` have passed
/// since it (or it lies in the future), else failed with the age and the
/// threshold.
pub proof fn law_heartbeat_reads_back(stamp: u64, now: u64)
    ensures
        heartbeat_failure(decimal(stamp as nat), now) == if now > stamp && now - stamp > SCAN_TIMEOUT_SECS {
            Some(
                "Health check failed: last scan was "@ + decimal((now - stamp) as nat) + "s ago (threshold: "@
                    + decimal(SCAN_TIMEOUT_SECS as nat) + "s)"@,
            )
        } else {
            None
        },
{
    crate::text::lemma_decimal_parses(stamp);
}

} // verus!
