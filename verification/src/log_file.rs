//! Combat log files: which files are logs, which is the newest, and what a name tells.
use vstd::prelude::*;
use vstd::string::*;
use vstd::utf8::is_ascii_chars;

use crate::captures::group;
use crate::captures::group_of;
use crate::numbers::all_digits;
use crate::numbers::decimal;
use crate::numbers::is_digit;
use crate::numbers::parse_i32;
use crate::numbers::parsed_i32;
use crate::numbers::push_i64;
use crate::outside::group_texts;
use crate::outside::regex_captures;
use crate::outside::regex_search;
use crate::text::text_option;

verus! {

/// The names of combat logs.
pub const LOG_FILE_PATTERN: &'static str = "^WoWCombatLog.*\\.txt$";

/// The date in the name of a combat log: month, day and year, two digits each.
pub const START_DATE_PATTERN: &'static str = "WoWCombatLog-(\\d{2})(\\d{2})(\\d{2})_";

/// `s` begins with `prefix`.
pub open spec fn begins_with(s: Seq<char>, prefix: Seq<char>) -> bool {
    s.len() >= prefix.len() && s.take(prefix.len() as int) == prefix
}

/// `s` ends with `suffix`.
pub open spec fn ends_with(s: Seq<char>, suffix: Seq<char>) -> bool {
    s.len() >= suffix.len() && s.skip(s.len() - suffix.len()) == suffix
}

/// A name that begins with `WoWCombatLog`, ends with `.txt` and holds no line feed.
pub open spec fn log_file_shape(name: Seq<char>) -> bool {
    &&& begins_with(name, "WoWCombatLog"@)
    &&& ends_with(name, ".txt"@)
    &&& !name.contains('\n')
}

/// At `i` the text reads `WoWCombatLog-`, six decimal digits and `_`.
pub open spec fn date_at(s: Seq<char>, i: int) -> bool {
    &&& 0 <= i <= s.len() - 20
    &&& s.subrange(i, i + 13) == "WoWCombatLog-"@
    &&& all_digits(s.subrange(i + 13, i + 19))
    &&& s[i + 19] == '_'
}

/// `i` is the first place where the text reads so.
pub open spec fn first_date_at(s: Seq<char>, i: int) -> bool {
    date_at(s, i) && forall|j: int| j < i ==> !date_at(s, j)
}

/// What the date pattern captures at `i`.
pub open spec fn date_groups(s: Seq<char>, i: int) -> Seq<Option<Seq<char>>> {
    seq![
        Some(s.subrange(i, i + 20)),
        Some(s.subrange(i + 13, i + 15)),
        Some(s.subrange(i + 15, i + 17)),
        Some(s.subrange(i + 17, i + 19)),
    ]
}

/// The number that group `i` spells.
pub open spec fn group_number(groups: Seq<Option<Seq<char>>>, i: int) -> Option<int> {
    match group(groups, i) {
        Some(s) => parsed_i32(s),
        None => None,
    }
}

/// `m/d/y`, in decimal.
pub open spec fn date_text(month: int, day: int, year: int) -> Seq<char> {
    decimal(month) + "/"@ + decimal(day) + "/"@ + decimal(year)
}

/// The date that captured month, day and two-digit year spell.
pub open spec fn start_date(groups: Seq<Option<Seq<char>>>) -> Option<Seq<char>> {
    match (group_number(groups, 1), group_number(groups, 2), group_number(groups, 3)) {
        (Some(m), Some(d), Some(y)) => Some(date_text(m, d, 2000 + y)),
        _ => None,
    }
}

fn number_of_group(groups: &Vec<Option<String>>, i: usize) -> (r: Option<i32>)
    ensures
        match r {
            Some(n) => group_number(group_texts(groups@), i as int) == Some(n as int),
            None => group_number(group_texts(groups@), i as int) is None,
        },
{
    match group_of(groups, i) {
        Some(s) => parse_i32(s.as_str()),
        None => None,
    }
}

/// The date that captured month, day and two-digit year spell, as `m/d/yyyy`.
pub fn date_of_groups(groups: &Vec<Option<String>>) -> (r: Option<String>)
    ensures
        match r {
            Some(d) => start_date(group_texts(groups@)) == Some(d@),
            None => start_date(group_texts(groups@)) is None,
        },
{
    let month: i32 = match number_of_group(groups, 1) {
        Some(n) => n,
        None => {
            return None;
        },
    };
    let day: i32 = match number_of_group(groups, 2) {
        Some(n) => n,
        None => {
            return None;
        },
    };
    let year: i32 = match number_of_group(groups, 3) {
        Some(n) => n,
        None => {
            return None;
        },
    };
    let mut out = String::new();
    push_i64(&mut out, month as i64);
    out.append("/");
    push_i64(&mut out, day as i64);
    out.append("/");
    push_i64(&mut out, 2000 + year as i64);
    proof {
        assert(out@ =~= date_text(month as int, day as int, 2000 + year));
    }
    Some(out)
}

/// The two-digit number at `i`.
pub open spec fn two_digits(s: Seq<char>, i: int) -> int {
    (s[i] as int - '0' as int) * 10 + (s[i + 1] as int - '0' as int)
}

/// The date that the name spells at `i`.
pub open spec fn date_text_at(s: Seq<char>, i: int) -> Seq<char> {
    date_text(two_digits(s, i + 13), two_digits(s, i + 15), 2000 + two_digits(s, i + 17))
}

proof fn two_digits_parse(s: Seq<char>, i: int)
    requires
        0 <= i <= s.len() - 2,
        is_digit(s[i]),
        is_digit(s[i + 1]),
    ensures
        parsed_i32(s.subrange(i, i + 2)) == Some(two_digits(s, i)),
{
    let t = s.subrange(i, i + 2);
    assert(t.len() == 2 && t[0] == s[i] && t[1] == s[i + 1]);
    assert(all_digits(t));
    reveal_with_fuel(crate::numbers::digits_value, 3);
    assert(t.drop_last().drop_last().len() == 0);
}

/// What is captured where a name reads like a date spells that date.
pub proof fn date_groups_spell(s: Seq<char>, i: int)
    requires
        date_at(s, i),
    ensures
        start_date(date_groups(s, i)) == Some(date_text_at(s, i)),
{
    let d = s.subrange(i + 13, i + 19);
    assert forall|k: int| 13 <= k < 19 implies is_digit(#[trigger] s[i + k]) by {
        assert(is_digit(d[k - 13]));
        assert(d[k - 13] == s[i + k]);
    }
    assert(is_digit(s[i + 13]) && is_digit(s[i + 14]) && is_digit(s[i + 15]) && is_digit(s[i + 16])
        && is_digit(s[i + 17]) && is_digit(s[i + 18]));
    two_digits_parse(s, i + 13);
    two_digits_parse(s, i + 15);
    two_digits_parse(s, i + 17);
}

/// The date that a file name tells, if it tells one.
pub open spec fn date_told(name: Seq<char>) -> Option<Seq<char>> {
    match regex_search(START_DATE_PATTERN@, name) {
        Some(Some(groups)) => start_date(groups),
        _ => None,
    }
}

/// The date in the name of a combat log, as `m/d/yyyy`: a name that reads
/// `WoWCombatLog-041225_` tells the date `4/12/2025`.
pub fn parse_start_date(filename: &str) -> (r: Option<String>)
    ensures
        text_option(r) == date_told(filename@),
        is_ascii_chars(filename@) ==> match r {
            Some(d) => exists|i: int|
                #![trigger first_date_at(filename@, i)]
                first_date_at(filename@, i) && d@ == date_text_at(filename@, i),
            None => forall|i: int| !date_at(filename@, i),
        },
{
    match regex_captures(START_DATE_PATTERN, filename) {
        Ok(Some(groups)) => {
            proof {
                if is_ascii_chars(filename@) {
                    let i = choose|i: int|
                        #![trigger first_date_at(filename@, i)]
                        first_date_at(filename@, i) && group_texts(groups@) == date_groups(
                            filename@,
                            i,
                        );
                    date_groups_spell(filename@, i);
                }
            }
            date_of_groups(&groups)
        },
        _ => None,
    }
}

/// A name is that of a combat log: it begins with `WoWCombatLog`, ends with `.txt` and
/// holds no line feed.
pub fn is_log_file(name: &str) -> (r: bool)
    ensures
        r == log_file_shape(name@),
{
    match regex_captures(LOG_FILE_PATTERN, name) {
        Ok(Some(_)) => true,
        _ => false,
    }
}

/// A log that was last written longer ago than this is left alone: six hours, in
/// nanoseconds.
pub const MAX_FILE_AGE: u128 = 21_600_000_000_000;

/// What the system tells of a directory entry.
pub struct EntryInfo {
    pub is_file: bool,
    /// When the entry was last written, in nanoseconds since the epoch, if that is known.
    pub modified: Option<i128>,
    /// How long ago that was, in nanoseconds; `None` where it lies in the future.
    pub age: Option<u128>,
}

/// A directory entry: its name, where that is Unicode, and what the system tells of it,
/// where it could be asked.
pub struct Entry {
    pub name: Option<String>,
    pub info: Option<EntryInfo>,
}

impl Entry {
    /// The time of the last write, where the entry is a combat log that is fresh enough.
    pub open spec fn log_time(self) -> Option<int> {
        match (self.name, self.info) {
            (Some(name), Some(info)) => if log_file_shape(name@) && info.is_file && !(
            info.age is Some && info.age->0 > MAX_FILE_AGE) {
                match info.modified {
                    Some(t) => Some(t as int),
                    None => None,
                }
            } else {
                None
            },
            _ => None,
        }
    }

    /// The time of the last write, where the entry is a combat log that is fresh enough.
    pub fn fresh_log(&self) -> (r: Option<i128>)
        ensures
            match r {
                Some(t) => self.log_time() == Some(t as int),
                None => self.log_time() is None,
            },
    {
        let name = match &self.name {
            Some(n) => n,
            None => {
                return None;
            },
        };
        let info = match &self.info {
            Some(i) => i,
            None => {
                return None;
            },
        };
        if !is_log_file(name.as_str()) || !info.is_file {
            return None;
        }
        match info.age {
            Some(age) => {
                if age > MAX_FILE_AGE {
                    return None;
                }
            },
            None => {},
        }
        info.modified
    }
}

/// `i` is the first of the entries that were written last, among the fresh combat logs.
pub open spec fn is_newest(entries: Seq<Entry>, i: int) -> bool {
    &&& 0 <= i < entries.len()
    &&& entries[i].log_time() is Some
    &&& forall|j: int|
        #![trigger entries[j]]
        0 <= j < entries.len() && entries[j].log_time() is Some ==> {
            &&& entries[j].log_time()->0 <= entries[i].log_time()->0
            &&& j < i ==> entries[j].log_time()->0 < entries[i].log_time()->0
        }
}

/// The combat log that was written last, unless all of them are too old. Of several that
/// were written at the same time it is the first.
pub fn newest_log(entries: &Vec<Entry>) -> (r: Option<usize>)
    ensures
        match r {
            Some(i) => is_newest(entries@, i as int),
            None => forall|j: int|
                0 <= j < entries@.len() ==> (#[trigger] entries@[j]).log_time() is None,
        },
{
    let mut newest: Option<(i128, usize)> = None;
    let mut i: usize = 0;
    while i < entries.len()
        invariant
            i <= entries@.len(),
            match newest {
                Some((t, k)) => k < i && entries@[k as int].log_time() == Some(t as int)
                    && forall|j: int|
                    #![trigger entries@[j]]
                    0 <= j < i && entries@[j].log_time() is Some ==> {
                        &&& entries@[j].log_time()->0 <= t
                        &&& j < k ==> entries@[j].log_time()->0 < t
                    },
                None => forall|j: int|
                    0 <= j < i ==> (#[trigger] entries@[j]).log_time() is None,
            },
        decreases entries@.len() - i,
    {
        match entries[i].fresh_log() {
            Some(t) => {
                let newer = match newest {
                    Some((best, _)) => t > best,
                    None => true,
                };
                if newer {
                    newest = Some((t, i));
                }
            },
            None => {},
        }
        i = i + 1;
    }
    match newest {
        Some((_, k)) => Some(k),
        None => None,
    }
}

/// A log that was found, and the date that its name tells.
pub struct FoundLog {
    pub name: String,
    pub date: Option<String>,
}

/// What is to be known of a log with this name.
pub fn found_log(name: String) -> (r: FoundLog)
    ensures
        r.name@ == name@,
        text_option(r.date) == date_told(name@),
{
    let date = parse_start_date(name.as_str());
    FoundLog { name, date }
}

} // verus!
