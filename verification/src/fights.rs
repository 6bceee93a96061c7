//! What the parser collected, in the form in which it is uploaded.
use vstd::prelude::*;
use vstd::string::*;

use crate::json::trees;
use crate::json::Json;
use crate::json::JsonTree;
use crate::numbers::decimal;
use crate::numbers::push_i64;
use crate::text::trim_final_newlines;
use crate::text::without_final_newlines;

verus! {

/// The master table's fingerprint: the last ids that were given out to actors, abilities,
/// tuples and pets.
pub type MasterIds = (i64, i64, i64, i64);

/// The fingerprint that a master table has.
pub open spec fn master_ids_of(m: JsonTree) -> (int, int, int, int) {
    (
        m.int_or_zero("lastAssignedActorID"@),
        m.int_or_zero("lastAssignedAbilityID"@),
        m.int_or_zero("lastAssignedTupleID"@),
        m.int_or_zero("lastAssignedPetID"@),
    )
}

/// A fingerprint as mathematical integers.
pub open spec fn ids_model(ids: MasterIds) -> (int, int, int, int) {
    (ids.0 as int, ids.1 as int, ids.2 as int, ids.3 as int)
}

/// The master-table fingerprint: a new table is uploaded only when it changes.
pub fn master_ids(m: &Json) -> (r: MasterIds)
    ensures
        ids_model(r) == master_ids_of(m.tree()),
{
    (
        m.get_i64_or_zero("lastAssignedActorID"),
        m.get_i64_or_zero("lastAssignedAbilityID"),
        m.get_i64_or_zero("lastAssignedTupleID"),
        m.get_i64_or_zero("lastAssignedPetID"),
    )
}

/// One section of the master table: the last id on a line, then the rows, if any.
pub open spec fn master_section(m: JsonTree, id_key: Seq<char>, rows_key: Seq<char>) -> Seq<char> {
    let rows = match m.text_member(rows_key) {
        Some(s) => s,
        None => seq![],
    };
    let head = decimal(m.int_or_zero(id_key)) + "\n"@;
    if rows.len() == 0 {
        head
    } else {
        head + without_final_newlines(rows) + "\n"@
    }
}

/// The master table as text: a line with the two versions, then the sections of actors,
/// abilities, tuples and pets.
pub open spec fn master_string(m: JsonTree, log_version: int, game_version: int) -> Seq<char> {
    decimal(log_version) + "|"@ + decimal(game_version) + "|"@ + "\n"@ + master_section(
        m,
        "lastAssignedActorID"@,
        "actorsString"@,
    ) + master_section(m, "lastAssignedAbilityID"@, "abilitiesString"@) + master_section(
        m,
        "lastAssignedTupleID"@,
        "tuplesString"@,
    ) + master_section(m, "lastAssignedPetID"@, "petsString"@)
}

fn push_master_section(out: &mut String, m: &Json, id_key: &str, rows_key: &str)
    ensures
        final(out)@ == old(out)@ + master_section(m.tree(), id_key@, rows_key@),
{
    push_i64(out, m.get_i64_or_zero(id_key));
    out.append("\n");
    match m.get_str(rows_key) {
        Some(rows) => {
            if !rows.as_str().is_empty() {
                let trimmed = trim_final_newlines(rows.as_str());
                out.append(trimmed.as_str());
                out.append("\n");
            }
        },
        None => {},
    }
    proof {
        assert(out@ =~= old(out)@ + master_section(m.tree(), id_key@, rows_key@));
    }
}

/// The master table as text.
pub fn build_master_string(m: &Json, log_version: i64, game_version: i64) -> (r: String)
    ensures
        r@ == master_string(m.tree(), log_version as int, game_version as int),
{
    let mut out = String::new();
    push_i64(&mut out, log_version);
    out.append("|");
    push_i64(&mut out, game_version);
    out.append("|");
    out.append("\n");
    proof {
        assert(out@ =~= decimal(log_version as int) + "|"@ + decimal(game_version as int) + "|"@
            + "\n"@);
    }
    push_master_section(&mut out, m, "lastAssignedActorID", "actorsString");
    push_master_section(&mut out, m, "lastAssignedAbilityID", "abilitiesString");
    push_master_section(&mut out, m, "lastAssignedTupleID", "tuplesString");
    push_master_section(&mut out, m, "lastAssignedPetID", "petsString");
    out
}

/// The fights of a collection; none where it holds no list of fights.
pub open spec fn fights_of(fd: JsonTree) -> Seq<JsonTree> {
    match fd.array_member("fights"@) {
        Some(a) => a,
        None => seq![],
    }
}

/// A collection without fights.
pub fn fights_empty(fd: &Json) -> (r: bool)
    ensures
        r == (fights_of(fd.tree()).len() == 0),
{
    match fd.get_array("fights") {
        Some(a) => a.len() == 0,
        None => true,
    }
}

/// How many events the fights hold together. A fight without a count adds nothing.
pub open spec fn event_sum(fights: Seq<JsonTree>) -> int
    decreases fights.len(),
{
    if fights.len() == 0 {
        0
    } else {
        event_sum(fights.drop_last()) + fights.last().int_or_zero("eventCount"@)
    }
}

/// The events of the fights, one after the other. A fight without a text adds nothing.
pub open spec fn events_text(fights: Seq<JsonTree>) -> Seq<char>
    decreases fights.len(),
{
    if fights.len() == 0 {
        seq![]
    } else {
        events_text(fights.drop_last()) + match fights.last().text_member("eventsString"@) {
            Some(s) => s,
            None => seq![],
        }
    }
}

/// Counting the events up, fight by fight, stays within 64 bits.
pub open spec fn countable(fd: JsonTree) -> bool {
    forall|k: int|
        0 <= k <= fights_of(fd).len() ==> i64::MIN <= #[trigger] event_sum(fights_of(fd).take(k))
            <= i64::MAX
}

/// How many events the fights of a collection hold together, unless counting them up
/// leaves 64 bits.
pub fn event_total(fd: &Json) -> (r: Option<i64>)
    ensures
        match r {
            Some(n) => countable(fd.tree()) && n == event_sum(fights_of(fd.tree())),
            None => !countable(fd.tree()),
        },
{
    let ghost fights = fights_of(fd.tree());
    let items = match fd.get_array("fights") {
        Some(a) => a,
        None => {
            proof {
                assert forall|k: int| 0 <= k <= fights.len() implies event_sum(
                    #[trigger] fights.take(k),
                ) == 0 by {
                    assert(fights.take(k) =~= seq![]);
                }
            }
            return Some(0);
        },
    };
    let mut sum: i64 = 0;
    let mut i: usize = 0;
    proof {
        assert(fights =~= trees(items@));
        assert(fights.take(0) =~= seq![]);
    }
    while i < items.len()
        invariant
            i <= items@.len(),
            fights == trees(items@),
            fights == fights_of(fd.tree()),
            sum == event_sum(fights.take(i as int)),
            forall|k: int|
                0 <= k <= i ==> i64::MIN <= #[trigger] event_sum(fights.take(k)) <= i64::MAX,
        decreases items@.len() - i,
    {
        let more: i64 = items[i].get_i64_or_zero("eventCount");
        proof {
            assert(fights.take(i + 1).drop_last() =~= fights.take(i as int));
            assert(fights.take(i + 1).last() == items@[i as int].tree());
        }
        match sum.checked_add(more) {
            Some(s) => {
                sum = s;
            },
            None => {
                assert(event_sum(fights.take(i + 1)) == sum + more);
                return None;
            },
        }
        i = i + 1;
    }
    proof {
        assert(fights.take(fights.len() as int) =~= fights);
    }
    Some(sum)
}

/// The events of the fights of a collection, one after the other.
fn all_events(fd: &Json) -> (r: String)
    ensures
        r@ == events_text(fights_of(fd.tree())),
{
    let ghost fights = fights_of(fd.tree());
    let items = match fd.get_array("fights") {
        Some(a) => a,
        None => {
            return String::new();
        },
    };
    let mut out = String::new();
    let mut i: usize = 0;
    proof {
        assert(fights =~= trees(items@));
        assert(fights.take(0) =~= seq![]);
    }
    while i < items.len()
        invariant
            i <= items@.len(),
            fights == trees(items@),
            out@ == events_text(fights.take(i as int)),
        decreases items@.len() - i,
    {
        match items[i].get_str("eventsString") {
            Some(s) => {
                out.append(s.as_str());
            },
            None => {},
        }
        proof {
            assert(fights.take(i + 1).drop_last() =~= fights.take(i as int));
            assert(fights.take(i + 1).last() == items@[i as int].tree());
            assert(out@ =~= events_text(fights.take(i + 1)));
        }
        i = i + 1;
    }
    proof {
        assert(fights.take(fights.len() as int) =~= fights);
    }
    out
}

/// A collection of fights as text: a line with the two versions, a line with the number of
/// events, then the events.
pub open spec fn fights_string(fd: JsonTree) -> Seq<char> {
    decimal(fd.int_or_zero("logVersion"@)) + "|"@ + decimal(fd.int_or_zero("gameVersion"@))
        + "\n"@ + decimal(event_sum(fights_of(fd))) + "\n"@ + events_text(fights_of(fd))
}

/// A collection of fights as text, with the number of its events.
fn fights_string_with(fd: &Json, total: i64) -> (r: String)
    requires
        total == event_sum(fights_of(fd.tree())),
    ensures
        r@ == fights_string(fd.tree()),
{
    let mut out = String::new();
    push_i64(&mut out, fd.get_i64_or_zero("logVersion"));
    out.append("|");
    push_i64(&mut out, fd.get_i64_or_zero("gameVersion"));
    out.append("\n");
    push_i64(&mut out, total);
    out.append("\n");
    let events = all_events(fd);
    out.append(events.as_str());
    proof {
        assert(out@ =~= fights_string(fd.tree()));
    }
    out
}

/// A collection of fights as text.
pub fn build_fights_string(fd: &Json) -> (r: String)
    requires
        countable(fd.tree()),
    ensures
        r@ == fights_string(fd.tree()),
{
    match event_total(fd) {
        Some(total) => fights_string_with(fd, total),
        None => String::new(),
    }
}

/// What one segment of a report is made from.
pub struct FightData {
    pub log_version: i64,
    pub game_version: i64,
    pub start_time: i64,
    pub end_time: i64,
    pub mythic: i32,
    pub events: i64,
    pub text: String,
}

/// The model of a `FightData`.
pub struct FightModel {
    pub log_version: int,
    pub game_version: int,
    pub start_time: int,
    pub end_time: int,
    pub mythic: int,
    pub events: int,
    pub text: Seq<char>,
}

impl View for FightData {
    type V = FightModel;

    open spec fn view(&self) -> FightModel {
        FightModel {
            log_version: self.log_version as int,
            game_version: self.game_version as int,
            start_time: self.start_time as int,
            end_time: self.end_time as int,
            mythic: self.mythic as int,
            events: self.events as int,
            text: self.text@,
        }
    }
}

/// The segment that a collection of fights makes. The difficulty is cut to 32 bits.
pub open spec fn fight_data(fd: JsonTree) -> FightModel {
    FightModel {
        log_version: fd.int_or_zero("logVersion"@),
        game_version: fd.int_or_zero("gameVersion"@),
        start_time: fd.int_or_zero("startTime"@),
        end_time: fd.int_or_zero("endTime"@),
        mythic: (fd.int_or_zero("mythic"@) as i32) as int,
        events: event_sum(fights_of(fd)),
        text: fights_string(fd),
    }
}

impl FightData {
    /// The segment that a collection of fights makes, unless counting its events leaves
    /// 64 bits.
    pub fn of(fd: &Json) -> (r: Option<FightData>)
        ensures
            match r {
                Some(d) => countable(fd.tree()) && d@ == fight_data(fd.tree()),
                None => !countable(fd.tree()),
            },
    {
        match event_total(fd) {
            Some(events) => {
                let mythic: i64 = fd.get_i64_or_zero("mythic");
                Some(
                    FightData {
                        log_version: fd.get_i64_or_zero("logVersion"),
                        game_version: fd.get_i64_or_zero("gameVersion"),
                        start_time: fd.get_i64_or_zero("startTime"),
                        end_time: fd.get_i64_or_zero("endTime"),
                        mythic: #[verifier::truncate] (mythic as i32),
                        events,
                        text: fights_string_with(fd, events),
                    },
                )
            },
            None => None,
        }
    }
}

/// The number of events of the first fight, or zero.
pub open spec fn first_event_count(fd: JsonTree) -> int {
    if fights_of(fd).len() > 0 {
        fights_of(fd)[0].int_or_zero("eventCount"@)
    } else {
        0
    }
}

/// The number of events of the first fight, or zero.
pub fn in_progress_events(fd: &Json) -> (r: i64)
    ensures
        r == first_event_count(fd.tree()),
{
    match fd.get_array("fights") {
        Some(a) => {
            if a.len() > 0 {
                a[0].get_i64_or_zero("eventCount")
            } else {
                0
            }
        },
        None => 0,
    }
}

} // verus!
