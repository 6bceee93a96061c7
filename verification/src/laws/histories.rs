//! What is remembered of a run: the last of each kind of answer.
use vstd::prelude::*;

use crate::fights::fights_of;
use crate::fights::master_ids_of;
use crate::live::was_created;
use crate::live::LiveEventModel;
use crate::live::Witnessed;
use crate::progress::ProgressModel;
use crate::segments::accepted_ids;
use crate::segments::collected_in_progress;
use crate::segments::part_legal;
use crate::segments::part_run;
use crate::segments::uploader_remembers;
use crate::segments::PartEventModel;
use crate::segments::PartInput;
use crate::segments::PartPhaseModel;
use crate::tail::size_at_stop;
use crate::tail::TailEventModel;
use crate::tail::Timed;
use crate::upload::had_fights;
use crate::upload::last_added;
use crate::upload::last_created;
use crate::upload::last_master;
use crate::upload::upload_legal;
use crate::upload::upload_remembers;
use crate::upload::upload_run;
use crate::upload::EventModel;

verus! {

/// The id of the next segment is one at first; every accepted segment changes it to what it was
/// answered with, unless that is zero, and nothing else changes it.
pub proof fn ids_follow_answers(total: int, es: Seq<EventModel>, e: EventModel)
    requires
        0 <= total,
        upload_legal(total, es.push(e)),
    ensures
        upload_run(total, Seq::empty()).state.segment_id == 1,
        ({
            let before = upload_run(total, es).state.segment_id;
            let after = upload_run(total, es.push(e)).state.segment_id;
            after == match e {
                EventModel::Added(next) => if next == 0 {
                    before
                } else {
                    next
                },
                _ => before,
            }
        }),
        last_added(es.push(e)) == upload_run(total, es.push(e)).state.segment_id,
{
    let all = es.push(e);
    assert(all.drop_last() =~= es);
    upload_remembers(total, all);
}

/// The report, the fingerprint and the fights of an upload are those that came last.
pub proof fn upload_history(es: Seq<EventModel>, e: EventModel)
    ensures
        last_created(Seq::empty()) is None,
        last_master(Seq::empty()) is None,
        !had_fights(Seq::empty()),
        last_created(es.push(e)) == match e {
            EventModel::Created(code) => Some(code),
            _ => last_created(es),
        },
        last_master(es.push(e)) == match e {
            EventModel::Master(mi) => Some(master_ids_of(mi)),
            _ => last_master(es),
        },
        had_fights(es.push(e)) <==> had_fights(es) || (e matches EventModel::Fights(fd)
            && fights_of(fd).len() > 0),
{
    let all = es.push(e);
    assert(all.drop_last() =~= es);
    if had_fights(es) {
        let k = choose|k: int|
            0 <= k < es.len() && crate::upload::brings_fights(#[trigger] es[k]);
        assert(all[k] == es[k]);
    }
    if had_fights(all) {
        let k = choose|k: int|
            0 <= k < all.len() && crate::upload::brings_fights(#[trigger] all[k]);
        if k < es.len() {
            assert(all[k] == es[k]);
        }
    }
    if crate::upload::brings_fights(e) {
        assert(all[es.len() as int] == e);
    }
}

/// The fingerprint that counts as accepted is that of the table that was sent last and taken: a
/// table that failed does not count. Fights count as going on where they were asked for as such.
pub proof fn part_history(real_time: bool, p: ProgressModel, ins: Seq<PartInput>, i: PartInput)
    requires
        part_legal(real_time, p, ins.push(i)),
    ensures
        accepted_ids(real_time, p, Seq::empty()) is None,
        !(i matches PartInput::Event(e) && e is MasterSet) ==> accepted_ids(
            real_time,
            p,
            ins.push(i),
        ) == accepted_ids(real_time, p, ins),
        i matches PartInput::Event(PartEventModel::MasterSet) ==> (part_run(
            real_time,
            p,
            ins,
        ).state.phase matches PartPhaseModel::SettingMaster { ids, .. } && accepted_ids(
            real_time,
            p,
            ins.push(i),
        ) == Some(ids)),
        collected_in_progress(ins.push(i)) == match i {
            PartInput::Event(PartEventModel::Fights(_)) => false,
            PartInput::Event(PartEventModel::InProgress(_, _)) => true,
            _ => collected_in_progress(ins),
        },
{
    let all = ins.push(i);
    assert(all.drop_last() =~= ins);
    uploader_remembers(real_time, p, ins);
}

/// The fingerprint that is waited for to be accepted is that of the table just handed over.
pub proof fn tables_wait_for_their_fingerprint(
    real_time: bool,
    p: ProgressModel,
    ins: Seq<PartInput>,
)
    requires
        part_legal(real_time, p, ins),
        ins.len() > 0,
        part_run(real_time, p, ins).action is SetMasterTable,
    ensures
        ins.last() matches PartInput::Event(PartEventModel::Master(mi)) && (part_run(
            real_time,
            p,
            ins,
        ).state.phase matches PartPhaseModel::SettingMaster { ids, .. } && ids == master_ids_of(mi)),
{
    uploader_remembers(real_time, p, ins.drop_last());
}

/// The size at the stop and the report of a live log are those that were told last.
pub proof fn other_histories(
    es: Seq<Timed>,
    e: Timed,
    ls: Seq<Witnessed>,
    l: Witnessed,
)
    ensures
        size_at_stop(es.push(e)) == match e.0 {
            TailEventModel::Size(n) => Some(n),
            _ => size_at_stop(es),
        },
        was_created(ls.push(l)) == match l.0 {
            LiveEventModel::Created(code) => Some(code),
            _ => was_created(ls),
        },
        size_at_stop(Seq::empty()) is None,
        was_created(Seq::empty()) is None,
{
    assert(es.push(e).drop_last() =~= es);
    assert(ls.push(l).drop_last() =~= ls);
}

} // verus!
