//! Runtime configuration and its text format, the threshold notifier's
//! decision step, and the program-level error type.
//!
//! The configuration text is parsed here, down to the numerals; the
//! caller only supplies the text it read.

use vstd::prelude::*;
use vstd::string::StrSliceExecFns;

use crate::battery_health::{BatteryReading, BatteryState};
use crate::{CHARGE_UPPER_LIMIT_MILLI, DISCHARGE_LOWER_LIMIT_MILLI};

verus! {

/// Blank characters stripped from field names and values.
pub open spec fn is_blank(c: char) -> bool {
    c == ' ' || c == '\t' || c == '\r'
}

/// `s` without its leading blanks.
pub open spec fn trim_front(s: Seq<char>) -> Seq<char>
    decreases s.len(),
{
    if s.len() > 0 && is_blank(s[0]) {
        trim_front(s.drop_first())
    } else {
        s
    }
}

/// `s` without its trailing blanks.
pub open spec fn trim_back(s: Seq<char>) -> Seq<char>
    decreases s.len(),
{
    if s.len() > 0 && is_blank(s[s.len() - 1]) {
        trim_back(s.drop_last())
    } else {
        s
    }
}

/// `s` without its leading and trailing blanks.
pub open spec fn trimmed(s: Seq<char>) -> Seq<char> {
    trim_back(trim_front(s))
}

/// Index of the first occurrence of `c` in `s` at or after `from`, or
/// `s.len()` if there is none.
pub open spec fn find_from(s: Seq<char>, from: int, c: char) -> int
    decreases s.len() - from,
{
    if from < 0 || from >= s.len() {
        s.len() as int
    } else if s[from] == c {
        from
    } else {
        find_from(s, from + 1, c)
    }
}

proof fn lemma_find_from(s: Seq<char>, from: int, c: char, i: int)
    requires
        0 <= from <= i <= s.len(),
        forall|j: int| from <= j < i ==> s[j] != c,
        i == s.len() || s[i] == c,
    ensures
        find_from(s, from, c) == i,
    decreases i - from,
{
    if from < i {
        lemma_find_from(s, from + 1, c, i);
    }
}

proof fn lemma_trim_front_subrange(s: Seq<char>, a: int)
    requires
        0 <= a <= s.len(),
        forall|j: int| 0 <= j < a ==> is_blank(s[j]),
        a == s.len() || !is_blank(s[a]),
    ensures
        trim_front(s) == s.subrange(a, s.len() as int),
    decreases a,
{
    if a == 0 {
        assert(s.subrange(0, s.len() as int) =~= s);
    } else {
        lemma_trim_front_subrange(s.drop_first(), a - 1);
        assert(s.drop_first().subrange(a - 1, s.drop_first().len() as int) =~= s.subrange(
            a,
            s.len() as int,
        ));
    }
}

proof fn lemma_trim_back_subrange(s: Seq<char>, b: int)
    requires
        0 <= b <= s.len(),
        forall|j: int| b <= j < s.len() ==> is_blank(s[j]),
        b == 0 || !is_blank(s[b - 1]),
    ensures
        trim_back(s) == s.subrange(0, b),
    decreases s.len() - b,
{
    if b == s.len() {
        assert(s.subrange(0, b) =~= s);
    } else {
        lemma_trim_back_subrange(s.drop_last(), b);
        assert(s.drop_last().subrange(0, b) =~= s.subrange(0, b));
    }
}

/// Index of the first occurrence of `target` in `s` at or after `from`,
/// or the length of `s` if there is none.
fn find_char(s: &str, from: usize, target: char) -> (r: usize)
    requires
        from <= s@.len(),
    ensures
        r == find_from(s@, from as int, target),
        from <= r <= s@.len(),
        r < s@.len() ==> s@[r as int] == target,
        forall|j: int| from <= j < r ==> s@[j] != target,
{
    let n = s.unicode_len();
    let mut i: usize = from;
    while i < n && s.get_char(i) != target
        invariant
            from <= i <= n,
            n == s@.len(),
            forall|j: int| from <= j < i ==> s@[j] != target,
        decreases n - i,
    {
        i = i + 1;
    }
    proof {
        lemma_find_from(s@, from as int, target, i as int);
    }
    i
}

/// `s` without its leading and trailing blanks.
fn str_trim(s: &str) -> (r: &str)
    ensures
        r@ == trimmed(s@),
{
    let n = s.unicode_len();
    let mut a: usize = 0;
    while a < n && is_blank_char(s.get_char(a))
        invariant
            a <= n,
            n == s@.len(),
            forall|j: int| 0 <= j < a ==> is_blank(s@[j]),
        decreases n - a,
    {
        a = a + 1;
    }
    let mut b: usize = n;
    while b > a && is_blank_char(s.get_char(b - 1))
        invariant
            a <= b <= n,
            n == s@.len(),
            forall|j: int| b <= j < n ==> is_blank(s@[j]),
        decreases b,
    {
        b = b - 1;
    }
    let r = s.substring_char(a, b);
    proof {
        lemma_trim_front_subrange(s@, a as int);
        let t = s@.subrange(a as int, s@.len() as int);
        lemma_trim_back_subrange(t, b - a);
        assert(t.subrange(0, b - a) =~= s@.subrange(a as int, b as int));
    }
    r
}

/// Whether `c` is a blank character.
fn is_blank_char(c: char) -> (r: bool)
    ensures
        r == is_blank(c),
{
    c == ' ' || c == '\t' || c == '\r'
}

/// Whether two string slices hold the same characters.
fn str_equal(a: &str, b: &str) -> (r: bool)
    ensures
        r == (a@ == b@),
{
    String::from_str(a) == String::from_str(b)
}

/// Whether `c` is a decimal digit.
pub open spec fn is_digit(c: char) -> bool {
    '0' as u32 <= c as u32 <= '9' as u32
}

/// Value of the digit `c`.
pub open spec fn digit_val(c: char) -> int {
    c as u32 - '0' as u32
}

/// Whether every character of `s` is a decimal digit.
pub open spec fn all_digits(s: Seq<char>) -> bool {
    forall|j: int| 0 <= j < s.len() ==> is_digit(#[trigger] s[j])
}

/// Value of `s` read as a decimal numeral.
pub open spec fn digits_val(s: Seq<char>) -> int
    decreases s.len(),
{
    if s.len() == 0 {
        0
    } else {
        digits_val(s.drop_last()) * 10 + digit_val(s.last())
    }
}

/// The `u64`, if any, that `s` denotes: a nonempty, all-digit numeral
/// whose value fits.
pub open spec fn spec_u64(s: Seq<char>) -> Option<u64> {
    if s.len() > 0 && all_digits(s) && digits_val(s) <= u64::MAX {
        Some(digits_val(s) as u64)
    } else {
        None
    }
}

/// The boolean, if any, that `s` denotes.
pub open spec fn spec_bool(s: Seq<char>) -> Option<bool> {
    if s == "true"@ {
        Some(true)
    } else if s == "false"@ {
        Some(false)
    } else {
        None
    }
}

proof fn lemma_digits_val_nonneg(s: Seq<char>)
    requires
        all_digits(s),
    ensures
        digits_val(s) >= 0,
    decreases s.len(),
{
    if s.len() > 0 {
        assert(all_digits(s.drop_last())) by {
            assert(forall|j: int|
                0 <= j < s.drop_last().len() ==> #[trigger] s.drop_last()[j] == s[j]);
        }
        lemma_digits_val_nonneg(s.drop_last());
    }
}

proof fn lemma_digits_val_prefix_le(s: Seq<char>, i: int)
    requires
        0 <= i <= s.len(),
        all_digits(s),
    ensures
        digits_val(s.subrange(0, i)) <= digits_val(s),
    decreases s.len() - i,
{
    if i == s.len() {
        assert(s.subrange(0, i) =~= s);
    } else {
        lemma_digits_val_prefix_le(s, i + 1);
        let t = s.subrange(0, i + 1);
        assert(t.drop_last() =~= s.subrange(0, i));
        assert(all_digits(s.subrange(0, i)));
        lemma_digits_val_nonneg(s.subrange(0, i));
        assert(digits_val(t) == digits_val(s.subrange(0, i)) * 10 + digit_val(s[i]));
    }
}

/// The `u64` that `s` denotes, if `s` is a nonempty all-digit numeral
/// whose value fits.
pub fn parse_u64(s: &str) -> (r: Option<u64>)
    ensures
        r == spec_u64(s@),
{
    let n = s.unicode_len();
    if n == 0 {
        return None;
    }
    let mut acc: u64 = 0;
    let mut i: usize = 0;
    while i < n
        invariant
            i <= n,
            n == s@.len(),
            forall|j: int| 0 <= j < i ==> is_digit(#[trigger] s@[j]),
            acc == digits_val(s@.subrange(0, i as int)),
        decreases n - i,
    {
        let c = s.get_char(i);
        let v = c as u32;
        if v < '0' as u32 || v > '9' as u32 {
            assert(!is_digit(s@[i as int]));
            return None;
        }
        let d = (v - '0' as u32) as u64;
        if acc > (u64::MAX - d) / 10 {
            proof {
                let t = s@.subrange(0, i + 1);
                assert(t.drop_last() =~= s@.subrange(0, i as int));
                assert(digits_val(t) == acc * 10 + digit_val(s@[i as int]));
                assert(acc * 10 + d > u64::MAX) by {
                    let m = (u64::MAX - d) as int;
                    assert(10 * (m / 10) + m % 10 == m);
                    assert(acc * 10 >= (m / 10 + 1) * 10) by (nonlinear_arith)
                        requires acc >= m / 10 + 1;
                }
                if all_digits(s@) {
                    lemma_digits_val_prefix_le(s@, i + 1);
                }
            }
            return None;
        }
        acc = acc * 10 + d;
        i = i + 1;
        proof {
            let t = s@.subrange(0, i as int);
            assert(t.drop_last() =~= s@.subrange(0, i - 1));
        }
    }
    proof {
        assert(s@.subrange(0, n as int) =~= s@);
    }
    Some(acc)
}

/// The boolean that `s` denotes, if it is `"true"` or `"false"`.
fn parse_bool(s: &str) -> (r: Option<bool>)
    ensures
        r == spec_bool(s@),
{
    if str_equal(s, "true") {
        Some(true)
    } else if str_equal(s, "false") {
        Some(false)
    } else {
        None
    }
}

/// The three lines, if any, that a configuration text begins with.
pub open spec fn spec_lines3(s: Seq<char>) -> Option<(Seq<char>, Seq<char>, Seq<char>)> {
    let e1 = find_from(s, 0, '\n');
    if e1 == s.len() {
        None
    } else {
        let e2 = find_from(s, e1 + 1, '\n');
        if e2 == s.len() {
            None
        } else {
            let e3 = find_from(s, e2 + 1, '\n');
            Some((s.subrange(0, e1), s.subrange(e1 + 1, e2), s.subrange(e2 + 1, e3)))
        }
    }
}

/// The value, if any, that `line` assigns to the field `name`: the line
/// must hold an `=`, what precedes it must be `name` once trimmed, and
/// the value is the trimmed remainder of the line.
pub open spec fn spec_field(line: Seq<char>, name: Seq<char>) -> Option<Seq<char>> {
    let eq = find_from(line, 0, '=');
    if eq == line.len() {
        None
    } else if trimmed(line.subrange(0, eq)) == name {
        Some(trimmed(line.subrange(eq + 1, line.len() as int)))
    } else {
        None
    }
}

/// The configuration, if any, that a configuration text denotes: three
/// lines assigning, in this order, a boolean to `battery_notifier`, a
/// boolean to `health_stats` and a decimal `u64` to `write_every`.
pub open spec fn parsed_config(s: Seq<char>) -> Option<(bool, bool, u64)> {
    match spec_lines3(s) {
        None => None,
        Some(lines) => match (spec_field(lines.0, "battery_notifier"@), spec_field(
            lines.1,
            "health_stats"@,
        ), spec_field(lines.2, "write_every"@)) {
            (Some(v1), Some(v2), Some(v3)) => match (spec_bool(v1), spec_bool(v2), spec_u64(v3)) {
                (Some(b1), Some(b2), Some(n3)) => Some((b1, b2, n3)),
                _ => None,
            },
            _ => None,
        },
    }
}

/// The value `line` assigns to the field `name`, if any.
fn field_value<'a>(line: &'a str, name: &str) -> (r: Option<&'a str>)
    ensures
        match r {
            Some(v) => spec_field(line@, name@) == Some(v@),
            None => spec_field(line@, name@) is None,
        },
{
    let n = line.unicode_len();
    let eq = find_char(line, 0, '=');
    if eq == n {
        return None;
    }
    let before = str_trim(line.substring_char(0, eq));
    if !str_equal(before, name) {
        return None;
    }
    Some(str_trim(line.substring_char(eq + 1, n)))
}

/// Runtime configuration: whether the threshold notifier runs, whether
/// health statistics are recorded, and the recording interval in
/// minutes.
#[derive(Debug, Clone, Copy)]
pub struct Config {
    battery_notifier: bool,
    health_stats: bool,
    write_every: u64,
}

impl Config {
    /// Whether the threshold notifier is enabled.
    pub closed spec fn spec_battery_notifier(&self) -> bool {
        self.battery_notifier
    }

    /// Whether health-statistics recording is enabled.
    pub closed spec fn spec_health_stats(&self) -> bool {
        self.health_stats
    }

    /// Minutes between two health-statistics rows.
    pub closed spec fn spec_write_every(&self) -> u64 {
        self.write_every
    }

    /// Bundles the three configuration values, which the caller has read
    /// and parsed from its configuration source.
    pub fn new(battery_notifier: bool, health_stats: bool, write_every: u64) -> (r: Config)
        ensures
            r.spec_battery_notifier() == battery_notifier,
            r.spec_health_stats() == health_stats,
            r.spec_write_every() == write_every,
    {
        Config { battery_notifier, health_stats, write_every }
    }

    /// Parses a configuration text: its first three lines must assign,
    /// in this order, a boolean to `battery_notifier`, a boolean to
    /// `health_stats` and a decimal number of minutes to `write_every`,
    /// each as `name = value` with optional blanks around name and
    /// value. Any other text yields `None`, never a default
    /// configuration.
    pub fn parse(contents: &str) -> (r: Option<Config>)
        ensures
            match r {
                Some(c) => parsed_config(contents@) == Some(
                    (c.spec_battery_notifier(), c.spec_health_stats(), c.spec_write_every()),
                ),
                None => parsed_config(contents@) is None,
            },
    {
        let n = contents.unicode_len();
        let e1 = find_char(contents, 0, '\n');
        if e1 == n {
            return None;
        }
        let e2 = find_char(contents, e1 + 1, '\n');
        if e2 == n {
            return None;
        }
        let e3 = find_char(contents, e2 + 1, '\n');
        let line1 = contents.substring_char(0, e1);
        let line2 = contents.substring_char(e1 + 1, e2);
        let line3 = contents.substring_char(e2 + 1, e3);
        let v1 = match field_value(line1, "battery_notifier") {
            Some(v) => v,
            None => {
                return None;
            },
        };
        let v2 = match field_value(line2, "health_stats") {
            Some(v) => v,
            None => {
                return None;
            },
        };
        let v3 = match field_value(line3, "write_every") {
            Some(v) => v,
            None => {
                return None;
            },
        };
        let battery_notifier = match parse_bool(v1) {
            Some(b) => b,
            None => {
                return None;
            },
        };
        let health_stats = match parse_bool(v2) {
            Some(b) => b,
            None => {
                return None;
            },
        };
        let write_every = match parse_u64(v3) {
            Some(m) => m,
            None => {
                return None;
            },
        };
        Some(Config { battery_notifier, health_stats, write_every })
    }

    /// Whether `field` names a configuration field.
    pub fn validate_field(field: &str) -> (r: bool)
        ensures
            r == (field@ == "battery_notifier"@ || field@ == "health_stats"@ || field@
                == "write_every"@),
    {
        let f = String::from_str(field);
        f == String::from_str("battery_notifier") || f == String::from_str("health_stats") || f
            == String::from_str("write_every")
    }

    pub fn battery_notifier(&self) -> (r: bool)
        ensures
            r == self.spec_battery_notifier(),
    {
        self.battery_notifier
    }

    pub fn health_stats(&self) -> (r: bool)
        ensures
            r == self.spec_health_stats(),
    {
        self.health_stats
    }

    pub fn write_every(&self) -> (r: u64)
        ensures
            r == self.spec_write_every(),
    {
        self.write_every
    }
}

/// Dedupe state of the threshold notifier: which threshold crossing has
/// already been announced. Crossing one threshold re-arms the other.
#[derive(Debug, PartialEq, Eq, Structural, Clone, Copy)]
pub struct NotifierFlags {
    pub notified_upper: bool,
    pub notified_lower: bool,
}

/// A threshold crossing worth announcing to the user.
#[derive(Debug, PartialEq, Eq, Structural, Clone, Copy)]
pub enum NotifyLevel {
    /// The battery reached the upper charge limit while charging.
    UpperLimitReached,
    /// The battery fell to the lower charge limit while discharging.
    LowerLimitReached,
}

/// The upper threshold wants announcing: the battery is charging at or
/// above the upper charge limit and that crossing has not been announced
/// yet.
pub open spec fn wants_upper_notice(reading: BatteryReading, flags: NotifierFlags) -> bool {
    reading.percentage_milli >= CHARGE_UPPER_LIMIT_MILLI && !flags.notified_upper && reading.state
        == BatteryState::Charging
}

/// The lower threshold wants announcing: the battery is discharging at or
/// below the lower charge limit and that crossing has not been announced
/// yet.
pub open spec fn wants_lower_notice(reading: BatteryReading, flags: NotifierFlags) -> bool {
    reading.percentage_milli <= DISCHARGE_LOWER_LIMIT_MILLI && !flags.notified_lower
        && reading.state == BatteryState::Discharging
}

/// One decision step of the threshold notifier: given a fresh telemetry
/// reading, says which threshold crossing, if any, to announce, and
/// updates the dedupe flags so that the same crossing is not announced
/// twice while the other threshold re-arms it.
pub fn notifier_step(reading: &BatteryReading, flags: &mut NotifierFlags) -> (r: Option<
    NotifyLevel,
>)
    ensures
        wants_upper_notice(*reading, *old(flags)) ==> r == Some(NotifyLevel::UpperLimitReached)
            && *final(flags) == (NotifierFlags { notified_upper: true, notified_lower: false }),
        !wants_upper_notice(*reading, *old(flags)) && wants_lower_notice(*reading, *old(flags))
            ==> r == Some(NotifyLevel::LowerLimitReached) && *final(flags) == (NotifierFlags {
            notified_upper: false,
            notified_lower: true,
        }),
        !wants_upper_notice(*reading, *old(flags)) && !wants_lower_notice(*reading, *old(flags))
            ==> r == None::<NotifyLevel> && *final(flags) == *old(flags),
{
    let to_notify_upper = reading.percentage_milli >= CHARGE_UPPER_LIMIT_MILLI
        && !flags.notified_upper && reading.state == BatteryState::Charging;
    let to_notify_lower = reading.percentage_milli <= DISCHARGE_LOWER_LIMIT_MILLI
        && !flags.notified_lower && reading.state == BatteryState::Discharging;
    if to_notify_upper {
        flags.notified_upper = true;
        flags.notified_lower = false;
        Some(NotifyLevel::UpperLimitReached)
    } else if to_notify_lower {
        flags.notified_lower = true;
        flags.notified_upper = false;
        Some(NotifyLevel::LowerLimitReached)
    } else {
        None
    }
}

/// A program-level error, carrying which loop failed and a description.
#[derive(Debug)]
pub enum MyError {
    NotifierError(String),
    HealthStatsError(String),
}

impl MyError {
    /// Human-readable description of the error.
    pub fn message(&self) -> (r: String)
        ensures
            match *self {
                MyError::NotifierError(msg) => r@ == "Notifier error: "@ + msg@,
                MyError::HealthStatsError(msg) => r@ == "Health stats error: "@ + msg@,
            },
    {
        match self {
            MyError::NotifierError(msg) => String::from_str("Notifier error: ").concat(
                msg.as_str(),
            ),
            MyError::HealthStatsError(msg) => String::from_str("Health stats error: ").concat(
                msg.as_str(),
            ),
        }
    }
}

} // verus!
