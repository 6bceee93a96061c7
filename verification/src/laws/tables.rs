//! Master tables and fights as they are uploaded.
use vstd::prelude::*;
use vstd::string::*;

use crate::fights::countable;
use crate::fights::event_sum;
use crate::fights::events_text;
use crate::fights::fight_data;
use crate::fights::fights_of;
use crate::fights::fights_string;
use crate::fights::first_event_count;
use crate::fights::master_ids_of;
use crate::fights::master_section;
use crate::fights::master_string;
use crate::json::JsonTree;
use crate::laws::texts::cut_of_line_feeds;
use crate::laws::texts::final_line_feeds_are_cut;
use crate::numbers::decimal;
use crate::text::without_final_newlines;

verus! {

/// A section of a master table: the last id on a line of its own, and directly after it the
/// rows without their final line feeds, then one line feed; nothing more where there are no rows.
pub open spec fn section_is(section: Seq<char>, last_id: int, rows: Option<Seq<char>>) -> bool {
    match rows {
        Some(t) => if t.len() == 0 {
            section == decimal(last_id) + "\n"@
        } else {
            exists|cut: Seq<char>| #[trigger]
                cut_of_line_feeds(t, cut) && section == decimal(last_id) + "\n"@ + cut + "\n"@
        },
        None => section == decimal(last_id) + "\n"@,
    }
}

/// A master table is a line with the log version and the game version, and then the sections of
/// actors, abilities, tuples and pets, each with its own last id and its own rows.
pub proof fn master_tables_read(m: JsonTree, log_version: int, game_version: int) -> (r: (
    Seq<char>,
    Seq<char>,
    Seq<char>,
    Seq<char>,
))
    ensures
        section_is(r.0, m.int_or_zero("lastAssignedActorID"@), m.text_member("actorsString"@)),
        section_is(
            r.1,
            m.int_or_zero("lastAssignedAbilityID"@),
            m.text_member("abilitiesString"@),
        ),
        section_is(r.2, m.int_or_zero("lastAssignedTupleID"@), m.text_member("tuplesString"@)),
        section_is(r.3, m.int_or_zero("lastAssignedPetID"@), m.text_member("petsString"@)),
        master_string(m, log_version, game_version) == decimal(log_version) + "|"@ + decimal(
            game_version,
        ) + "|\n"@ + r.0 + r.1 + r.2 + r.3,
{
    let r = (
        master_section(m, "lastAssignedActorID"@, "actorsString"@),
        master_section(m, "lastAssignedAbilityID"@, "abilitiesString"@),
        master_section(m, "lastAssignedTupleID"@, "tuplesString"@),
        master_section(m, "lastAssignedPetID"@, "petsString"@),
    );
    section_reads(m, "lastAssignedActorID"@, "actorsString"@);
    section_reads(m, "lastAssignedAbilityID"@, "abilitiesString"@);
    section_reads(m, "lastAssignedTupleID"@, "tuplesString"@);
    section_reads(m, "lastAssignedPetID"@, "petsString"@);
    reveal_strlit("|");
    reveal_strlit("\n");
    reveal_strlit("|\n");
    assert("|"@ + "\n"@ =~= "|\n"@);
    assert(master_string(m, log_version, game_version) =~= decimal(log_version) + "|"@ + decimal(
        game_version,
    ) + "|\n"@ + r.0 + r.1 + r.2 + r.3);
    r
}

proof fn section_reads(m: JsonTree, id_key: Seq<char>, rows_key: Seq<char>)
    ensures
        section_is(
            master_section(m, id_key, rows_key),
            m.int_or_zero(id_key),
            m.text_member(rows_key),
        ),
{
    if let Some(t) = m.text_member(rows_key) {
        final_line_feeds_are_cut(t);
        assert(cut_of_line_feeds(t, without_final_newlines(t)));
    }
}

/// The rows under a name; none where there is no text.
pub open spec fn rows_under(m: JsonTree, key: Seq<char>) -> Seq<char> {
    match m.text_member(key) {
        Some(t) => t,
        None => Seq::empty(),
    }
}

proof fn sections_differ(a: JsonTree, b: JsonTree, id_key: Seq<char>, rows_key: Seq<char>)
    requires
        a.int_or_zero(id_key) == b.int_or_zero(id_key),
        without_final_newlines(rows_under(a, rows_key)) != without_final_newlines(
            rows_under(b, rows_key),
        ),
    ensures
        master_section(a, id_key, rows_key) != master_section(b, id_key, rows_key),
{
    reveal_strlit("\n");
    let s = master_section(a, id_key, rows_key);
    let t = master_section(b, id_key, rows_key);
    let head = decimal(a.int_or_zero(id_key)) + "\n"@;
    let x = without_final_newlines(rows_under(a, rows_key));
    let y = without_final_newlines(rows_under(b, rows_key));
    if s == t {
        if rows_under(a, rows_key).len() == 0 {
            assert(x.len() == 0);
            if rows_under(b, rows_key).len() > 0 {
                assert(t.len() == head.len() + y.len() + 1);
            }
            assert(x =~= y);
        } else if rows_under(b, rows_key).len() == 0 {
            assert(s.len() == head.len() + x.len() + 1);
        } else {
            assert(x =~= s.subrange(head.len() as int, s.len() - 1));
            assert(y =~= t.subrange(head.len() as int, t.len() - 1));
        }
    }
}

/// The middle of a text matters.
proof fn middle_matters(before: Seq<char>, a: Seq<char>, b: Seq<char>, after: Seq<char>)
    requires
        a != b,
    ensures
        before + a + after != before + b + after,
{
    let s = before + a + after;
    let t = before + b + after;
    if s == t {
        assert(a =~= s.subrange(before.len() as int, s.len() - after.len()));
        assert(b =~= t.subrange(before.len() as int, t.len() - after.len()));
    }
}

/// The four sections of a master table.
spec fn sections(m: JsonTree) -> (Seq<char>, Seq<char>, Seq<char>, Seq<char>) {
    (
        master_section(m, "lastAssignedActorID"@, "actorsString"@),
        master_section(m, "lastAssignedAbilityID"@, "abilitiesString"@),
        master_section(m, "lastAssignedTupleID"@, "tuplesString"@),
        master_section(m, "lastAssignedPetID"@, "petsString"@),
    )
}

proof fn keys_differ()
    ensures
        "actorsString"@ != "abilitiesString"@,
        "actorsString"@ != "tuplesString"@,
        "actorsString"@ != "petsString"@,
        "abilitiesString"@ != "tuplesString"@,
        "abilitiesString"@ != "petsString"@,
        "tuplesString"@ != "petsString"@,
{
    reveal_strlit("actorsString");
    reveal_strlit("abilitiesString");
    reveal_strlit("tuplesString");
    reveal_strlit("petsString");
    assert("actorsString"@.len() == 12 && "abilitiesString"@.len() == 15 && "tuplesString"@.len()
        == 12 && "petsString"@.len() == 10);
    assert("actorsString"@[0] == 'a' && "tuplesString"@[0] == 't');
}

proof fn one_part_matters(
    h: Seq<char>,
    x: (Seq<char>, Seq<char>, Seq<char>, Seq<char>),
    y: (Seq<char>, Seq<char>, Seq<char>, Seq<char>),
    i: int,
)
    requires
        0 <= i < 4,
        if i == 0 {
            x.0 != y.0
        } else {
            x.0 == y.0
        },
        if i == 1 {
            x.1 != y.1
        } else {
            x.1 == y.1
        },
        if i == 2 {
            x.2 != y.2
        } else {
            x.2 == y.2
        },
        if i == 3 {
            x.3 != y.3
        } else {
            x.3 == y.3
        },
    ensures
        h + x.0 + x.1 + x.2 + x.3 != h + y.0 + y.1 + y.2 + y.3,
{
    let none = Seq::<char>::empty();
    if i == 0 {
        let rest = x.1 + x.2 + x.3;
        middle_matters(h, x.0, y.0, rest);
        assert(h + x.0 + rest =~= h + x.0 + x.1 + x.2 + x.3);
        assert(h + y.0 + rest =~= h + y.0 + x.1 + x.2 + x.3);
    } else if i == 1 {
        let rest = x.2 + x.3;
        let before = h + x.0;
        middle_matters(before, x.1, y.1, rest);
        assert(before + x.1 + rest =~= before + x.1 + x.2 + x.3);
        assert(before + y.1 + rest =~= before + y.1 + x.2 + x.3);
    } else if i == 2 {
        middle_matters(h + x.0 + x.1, x.2, y.2, x.3);
    } else {
        let before = h + x.0 + x.1 + x.2;
        middle_matters(before, x.3, y.3, none);
        assert(before + x.3 + none =~= before + x.3);
        assert(before + y.3 + none =~= before + y.3);
    }
}

/// Each of the four texts of rows matters: two master tables that differ in one of them, by more
/// than final line feeds, and in nothing else, are written differently.
#[verifier::rlimit(50)]
pub proof fn all_rows_matter(
    a: JsonTree,
    b: JsonTree,
    log_version: int,
    game_version: int,
    key: Seq<char>,
)
    requires
        a.int_or_zero("lastAssignedActorID"@) == b.int_or_zero("lastAssignedActorID"@),
        a.int_or_zero("lastAssignedAbilityID"@) == b.int_or_zero("lastAssignedAbilityID"@),
        a.int_or_zero("lastAssignedTupleID"@) == b.int_or_zero("lastAssignedTupleID"@),
        a.int_or_zero("lastAssignedPetID"@) == b.int_or_zero("lastAssignedPetID"@),
        key == "actorsString"@ || key == "abilitiesString"@ || key == "tuplesString"@ || key
            == "petsString"@,
        key != "actorsString"@ ==> a.text_member("actorsString"@) == b.text_member(
            "actorsString"@,
        ),
        key != "abilitiesString"@ ==> a.text_member("abilitiesString"@) == b.text_member(
            "abilitiesString"@,
        ),
        key != "tuplesString"@ ==> a.text_member("tuplesString"@) == b.text_member(
            "tuplesString"@,
        ),
        key != "petsString"@ ==> a.text_member("petsString"@) == b.text_member("petsString"@),
        without_final_newlines(rows_under(a, key)) != without_final_newlines(rows_under(b, key)),
    ensures
        master_string(a, log_version, game_version) != master_string(b, log_version, game_version),
{
    keys_differ();
    let h = decimal(log_version) + "|"@ + decimal(game_version) + "|"@ + "\n"@;
    let x = sections(a);
    let y = sections(b);
    if key == "actorsString"@ {
        sections_differ(a, b, "lastAssignedActorID"@, key);
        one_part_matters(h, x, y, 0);
    } else if key == "abilitiesString"@ {
        sections_differ(a, b, "lastAssignedAbilityID"@, key);
        one_part_matters(h, x, y, 1);
    } else if key == "tuplesString"@ {
        sections_differ(a, b, "lastAssignedTupleID"@, key);
        one_part_matters(h, x, y, 2);
    } else {
        sections_differ(a, b, "lastAssignedPetID"@, key);
        one_part_matters(h, x, y, 3);
    }
}

/// Two master tables have the same fingerprint exactly if all four last ids agree.
pub proof fn fingerprints_hold_four_ids(a: JsonTree, b: JsonTree)
    ensures
        master_ids_of(a) == master_ids_of(b) <==> {
            &&& a.int_or_zero("lastAssignedActorID"@) == b.int_or_zero("lastAssignedActorID"@)
            &&& a.int_or_zero("lastAssignedAbilityID"@) == b.int_or_zero("lastAssignedAbilityID"@)
            &&& a.int_or_zero("lastAssignedTupleID"@) == b.int_or_zero("lastAssignedTupleID"@)
            &&& a.int_or_zero("lastAssignedPetID"@) == b.int_or_zero("lastAssignedPetID"@)
        },
{
}

/// The fights of a collection are the items of the list under `fights`; without a list there
/// are none.
pub proof fn fights_are_listed(fd: JsonTree)
    ensures
        fd.array_member("fights"@) matches Some(a) ==> fights_of(fd) == a,
        fd.array_member("fights"@) is None ==> fights_of(fd).len() == 0,
{
}

/// Events add up: those of two lists of fights are those of the one and of the other, in their
/// number and in their text; those of a single fight are what it states as `eventCount` and
/// `eventsString`; no fights have none.
pub proof fn events_add_up(a: Seq<JsonTree>, b: Seq<JsonTree>, f: JsonTree)
    ensures
        event_sum(a + b) == event_sum(a) + event_sum(b),
        events_text(a + b) == events_text(a) + events_text(b),
        event_sum(seq![f]) == f.int_or_zero("eventCount"@),
        f.text_member("eventsString"@) matches Some(t) ==> events_text(seq![f]) == t,
        f.text_member("eventsString"@) is None ==> events_text(seq![f]) == Seq::<char>::empty(),
        event_sum(Seq::empty()) == 0,
        events_text(Seq::empty()) == Seq::<char>::empty(),
    decreases b.len(),
{
    let one = seq![f];
    assert(one.drop_last() =~= Seq::<JsonTree>::empty());
    assert(one.last() == f);
    reveal_with_fuel(event_sum, 2);
    reveal_with_fuel(events_text, 2);
    if let Some(t) = f.text_member("eventsString"@) {
        assert(Seq::<char>::empty() + t =~= t);
    } else {
        assert(Seq::<char>::empty() + Seq::<char>::empty() =~= Seq::<char>::empty());
    }
    if b.len() > 0 {
        events_add_up(a, b.drop_last(), f);
        assert((a + b).drop_last() =~= a + b.drop_last());
        assert((a + b).last() == b.last());
        assert(events_text(a + b) =~= events_text(a) + events_text(b));
    } else {
        assert(a + b =~= a);
        assert(events_text(a) + events_text(b) =~= events_text(a));
    }
}

/// A collection of fights is written as a line with the log version and the game version, a line
/// with the number of its events, and its events.
pub proof fn fights_read(fd: JsonTree)
    ensures
        fights_string(fd) == decimal(fd.int_or_zero("logVersion"@)) + "|"@ + decimal(
            fd.int_or_zero("gameVersion"@),
        ) + "\n"@ + decimal(event_sum(fights_of(fd))) + "\n"@ + events_text(fights_of(fd)),
{
}

/// A segment states what its collection states: versions, start, end and difficulty, the last cut
/// to 32 bits, each under its own name, the number of its events and its text.
pub proof fn segments_state_their_fights(fd: JsonTree)
    ensures
        ({
            let data = fight_data(fd);
            &&& data.log_version == fd.int_or_zero("logVersion"@)
            &&& data.game_version == fd.int_or_zero("gameVersion"@)
            &&& data.start_time == fd.int_or_zero("startTime"@)
            &&& data.end_time == fd.int_or_zero("endTime"@)
            &&& data.events == event_sum(fights_of(fd))
            &&& data.text == fights_string(fd)
            &&& -0x8000_0000 <= data.mythic < 0x8000_0000
            &&& -0x8000_0000 <= fd.int_or_zero("mythic"@) < 0x8000_0000 ==> data.mythic
                == fd.int_or_zero("mythic"@)
        }),
{
}

/// The number of events of a preview is that of the first fight.
pub proof fn previews_count_their_first_fight(fd: JsonTree)
    ensures
        fights_of(fd).len() > 0 ==> first_event_count(fd) == fights_of(fd)[0].int_or_zero(
            "eventCount"@,
        ),
        fights_of(fd).len() == 0 ==> first_event_count(fd) == 0,
{
}

proof fn sum_of_first(fights: Seq<JsonTree>, k: int)
    requires
        0 <= k <= fights.len(),
        forall|i: int|
            0 <= i < fights.len() ==> (#[trigger] fights[i]).int_or_zero("eventCount"@) >= 0,
    ensures
        0 <= event_sum(fights.take(k)) <= event_sum(fights),
    decreases fights.len() + k,
{
    if k == fights.len() {
        assert(fights.take(k) =~= fights);
        if k > 0 {
            sum_of_first(fights, k - 1);
            assert(fights.drop_last() =~= fights.take(k - 1));
            assert(fights.last() == fights[k - 1]);
        }
    } else if fights.len() > 0 {
        let d = fights.drop_last();
        assert forall|i: int| 0 <= i < d.len() implies (#[trigger] d[i]).int_or_zero(
            "eventCount"@,
        ) >= 0 by {
            assert(d[i] == fights[i]);
        }
        sum_of_first(d, k);
        assert(d.take(k) =~= fights.take(k));
        assert(fights.last() == fights[fights.len() - 1]);
    }
}

/// Events can be counted wherever no fight states a negative number and all together have 64
/// bits.
pub proof fn events_can_be_counted(fd: JsonTree)
    requires
        forall|i: int|
            0 <= i < fights_of(fd).len() ==> (#[trigger] fights_of(fd)[i]).int_or_zero(
                "eventCount"@,
            ) >= 0,
        event_sum(fights_of(fd)) < 0x8000_0000_0000_0000,
    ensures
        countable(fd),
{
    let fights = fights_of(fd);
    assert forall|k: int| 0 <= k <= fights.len() implies i64::MIN <= #[trigger] event_sum(
        fights.take(k),
    ) <= i64::MAX by {
        sum_of_first(fights, k);
    }
}

} // verus!
