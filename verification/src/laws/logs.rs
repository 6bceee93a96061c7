//! Sites, log files and reading them.
use vstd::prelude::*;
use vstd::string::*;

use crate::chunk::wanted;
use crate::chunk::MAX_CHUNK_BYTES;
use crate::chunk::MAX_CHUNK_LINES;
use crate::game::known_sites;
use crate::game::site_by_id;
use crate::game::sites_are_found;
use crate::log_file::date_at;
use crate::log_file::date_groups;
use crate::log_file::date_text_at;
use crate::log_file::date_told;
use crate::log_file::is_newest;
use crate::log_file::log_file_shape;
use crate::log_file::start_date;
use crate::log_file::Entry;
use crate::log_file::LOG_FILE_PATTERN;
use crate::log_file::START_DATE_PATTERN;
use crate::numbers::decimal;
use crate::numbers::is_digit;
use crate::numbers::parsed_i32;
use crate::outside::regex_search;

verus! {

/// The site of every game is the one its name stands for; any other name stands for Warcraft
/// Logs.
pub proof fn every_game_has_its_site(id: Seq<char>)
    ensures
        ({
            let site = site_by_id(id);
            if id == "ff"@ {
                site.base_url == "https://www.fflogs.com"@ && site.parser_slug == "ff"@
            } else if id == "eso"@ {
                site.base_url == "https://www.esologs.com"@ && site.parser_slug == "eso"@
            } else if id == "swtor"@ {
                site.base_url == "https://www.swtorlogs.com"@ && site.parser_slug == "swtor"@
            } else if id == "fellowship"@ {
                site.base_url == "https://www.fellowshiplogs.com"@ && site.parser_slug
                    == "fellowship"@
            } else {
                site.base_url == "https://www.warcraftlogs.com"@ && site.parser_slug
                    == "warcraft"@
            }
        }),
{
    sites_are_found(id);
    let s = known_sites();
    assert(s[0].id == "warcraft"@ && s[1].id == "ff"@ && s[2].id == "eso"@ && s[3].id == "swtor"@
        && s[4].id == "fellowship"@);
    if id == "warcraft"@ {
        assert(site_by_id(s[0].id) == s[0]);
        reveal_strlit("warcraft");
        reveal_strlit("ff");
        reveal_strlit("eso");
        reveal_strlit("swtor");
        reveal_strlit("fellowship");
    } else if id == "ff"@ {
        assert(site_by_id(s[1].id) == s[1]);
    } else if id == "eso"@ {
        assert(site_by_id(s[2].id) == s[2]);
    } else if id == "swtor"@ {
        assert(site_by_id(s[3].id) == s[3]);
    } else if id == "fellowship"@ {
        assert(site_by_id(s[4].id) == s[4]);
    }
}

/// A combat log is called `WoWCombatLog`, then anything on the same line, then `.txt`.
pub proof fn combat_logs_are_called(name: Seq<char>)
    ensures
        log_file_shape(name) <==> exists|middle: Seq<char>|
            name == #[trigger] ("WoWCombatLog"@ + middle + ".txt"@) && !middle.contains('\n'),
{
    reveal_strlit("WoWCombatLog");
    reveal_strlit(".txt");
    if log_file_shape(name) {
        assert(name.len() >= 16) by {
            if name.len() < 16 {
                let tail = name.skip(name.len() - 4);
                let at = name.len() - 4;
                assert(tail[0] == '.');
                assert(name[at] == '.');
                assert(name.take(12)[at] == name[at]);
            }
        }
        let middle = name.subrange(12, name.len() - 4);
        let whole = "WoWCombatLog"@ + middle + ".txt"@;
        assert(name =~= whole) by {
            assert forall|i: int| 0 <= i < name.len() implies name[i] == #[trigger] whole[i] by {
                if i < 12 {
                    assert(name.take(12)[i] == name[i]);
                } else if i >= name.len() - 4 {
                    assert(name.skip(name.len() - 4)[i - (name.len() - 4)] == name[i]);
                }
            }
        }
        if middle.contains('\n') {
            let i = choose|i: int| 0 <= i < middle.len() && middle[i] == '\n';
            assert(name[i + 12] == '\n');
        }
    }
    if exists|middle: Seq<char>|
        name == #[trigger] ("WoWCombatLog"@ + middle + ".txt"@) && !middle.contains('\n') {
        let middle = choose|middle: Seq<char>|
            name == #[trigger] ("WoWCombatLog"@ + middle + ".txt"@) && !middle.contains('\n');
        assert(name.take(12) =~= "WoWCombatLog"@);
        assert(name.skip(name.len() - 4) =~= ".txt"@);
        if name.contains('\n') {
            let i = choose|i: int| 0 <= i < name.len() && name[i] == '\n';
            if 12 <= i < name.len() - 4 {
                assert(middle[i - 12] == '\n');
            }
        }
    }
}

/// The number that two decimal digits spell.
pub open spec fn number_of(tens: char, ones: char) -> int {
    10 * (tens as int - 48) + (ones as int - 48)
}

/// A name that reads `WoWCombatLog-`, two digits each of month, day and year, and `_` at a place
/// tells the month, the day and the year of this century there, without leading zeros, and only
/// such a name tells a date.
pub proof fn names_tell_dates(name: Seq<char>, i: int)
    ensures
        date_at(name, i) <==> {
            &&& 0 <= i
            &&& i + 20 <= name.len()
            &&& forall|k: int| 0 <= k < 13 ==> name[i + k] == #[trigger] "WoWCombatLog-"@[k]
            &&& forall|k: int| 13 <= k < 19 ==> '0' <= #[trigger] name[i + k] <= '9'
            &&& name[i + 19] == '_'
        },
        date_at(name, i) ==> date_text_at(name, i) == decimal(
            number_of(name[i + 13], name[i + 14]),
        ) + "/"@ + decimal(number_of(name[i + 15], name[i + 16])) + "/"@ + decimal(
            2000 + number_of(name[i + 17], name[i + 18]),
        ),
        date_at(name, i) ==> start_date(date_groups(name, i)) == Some(date_text_at(name, i)),
{
    reveal_strlit("WoWCombatLog-");
    let w = "WoWCombatLog-"@;
    if date_at(name, i) {
        assert forall|k: int| 0 <= k < 13 implies name[i + k] == #[trigger] w[k] by {
            assert(name.subrange(i, i + 13)[k] == name[i + k]);
        }
        assert forall|k: int| 13 <= k < 19 implies '0' <= #[trigger] name[i + k] <= '9' by {
            assert(is_digit(name.subrange(i + 13, i + 19)[k - 13]));
        }
        crate::log_file::date_groups_spell(name, i);
    }
    if 0 <= i && i + 20 <= name.len() && (forall|k: int|
        0 <= k < 13 ==> name[i + k] == #[trigger] w[k]) && (forall|k: int|
        13 <= k < 19 ==> '0' <= #[trigger] name[i + k] <= '9') && name[i + 19] == '_' {
        assert(name.subrange(i, i + 13) =~= w) by {
            assert forall|k: int| 0 <= k < 13 implies name.subrange(i, i + 13)[k] == w[k] by {
                assert(name[i + k] == w[k]);
            }
        }
        let d = name.subrange(i + 13, i + 19);
        assert forall|k: int| 0 <= k < d.len() implies is_digit(#[trigger] d[k]) by {
            assert('0' <= name[i + (k + 13)] <= '9');
        }
    }
}

/// The date of a name is what the pattern captures of it: month, day and two digits of the year
/// of this century, where all three are numbers.
pub proof fn dates_are_captured(name: Seq<char>, groups: Seq<Option<Seq<char>>>)
    ensures
        date_told(name) == match regex_search("WoWCombatLog-(\\d{2})(\\d{2})(\\d{2})_"@, name) {
            Some(Some(found)) => start_date(found),
            _ => None,
        },
        groups.len() > 3 && groups[1] is Some && groups[2] is Some && groups[3] is Some ==> match (
            parsed_i32(groups[1]->Some_0),
            parsed_i32(groups[2]->Some_0),
            parsed_i32(groups[3]->Some_0),
        ) {
            (Some(month), Some(day), Some(year)) => start_date(groups) == Some(
                decimal(month) + "/"@ + decimal(day) + "/"@ + decimal(2000 + year),
            ),
            _ => start_date(groups) is None,
        },
        groups.len() <= 3 || groups[1] is None || groups[2] is None || groups[3] is None
            ==> start_date(groups) is None,
{
}

/// An entry counts as a fresh combat log exactly where it has the name of one, is a file, tells
/// when it was written, and was not written more than six hours ago.
pub open spec fn is_fresh_log(e: Entry, time: int) -> bool {
    &&& e.name matches Some(name) && log_file_shape(name@)
    &&& e.info matches Some(info) && info.is_file && (info.modified matches Some(t) && t == time)
        && (info.age matches Some(age) ==> age <= 6 * 3600 * 1_000_000_000)
}

/// The log that is chosen is a fresh one, no fresh one is newer, and none before it is as new.
pub proof fn the_newest_log_is_chosen(entries: Seq<Entry>, i: int, time: int)
    requires
        0 <= i < entries.len(),
    ensures
        entries[i].log_time() == Some(time) <==> is_fresh_log(entries[i], time),
        is_newest(entries, i) && is_fresh_log(entries[i], time) ==> forall|j: int, other: int|
            0 <= j < entries.len() && #[trigger] is_fresh_log(entries[j], other) ==> other <= time
                && (j < i ==> other < time),
        is_newest(entries, i) ==> exists|t: int| is_fresh_log(entries[i], t),
{
    if is_newest(entries, i) {
        let t = entries[i].log_time()->0;
        assert(is_fresh_log(entries[i], t));
        if is_fresh_log(entries[i], time) {
            assert forall|j: int, other: int|
                0 <= j < entries.len() && #[trigger] is_fresh_log(entries[j], other) implies other
                <= time && (j < i ==> other < time) by {
                assert(entries[j].log_time() == Some(other));
            }
        }
    }
}

/// Of a growing file everything that is new is read, but never more than eight mebibytes at
/// once, and five thousand lines.
pub proof fn reads_are_bounded(offset: int, size: int)
    requires
        0 <= offset,
    ensures
        size <= offset ==> wanted(offset, size) == 0,
        offset < size <= offset + 8 * 1024 * 1024 ==> offset + wanted(offset, size) == size,
        size > offset + 8 * 1024 * 1024 ==> wanted(offset, size) == 8 * 1024 * 1024,
        MAX_CHUNK_BYTES == 8 * 1024 * 1024,
        MAX_CHUNK_LINES == 5000,
{
}

/// The patterns that log names are searched with.
pub proof fn log_patterns_are()
    ensures
        LOG_FILE_PATTERN@ == "^WoWCombatLog.*\\.txt$"@,
        START_DATE_PATTERN@ == "WoWCombatLog-(\\d{2})(\\d{2})(\\d{2})_"@,
{
}

} // verus!
