//! What becomes of the logs of a directory when one follows another: which lines of a log are
//! uploaded before it is left.
use vstd::prelude::*;

use crate::chunk::wanted;
use crate::chunk::window;
use crate::chunk::MAX_CHUNK_LINES;
use crate::growing::at_line;
use crate::growing::is_piece;
use crate::growing::lines_fit;
use crate::growing::lines_in;
use crate::growing::nothing_left;
use crate::growing::piece_adds_its_lines;
use crate::lines::complete_len;
use crate::lines::complete_lines;
use crate::lines::decoded;
use crate::lines::len_up_to;
use crate::lines::len_up_to_range;
use crate::lines::lines_of_what_is_taken;
use crate::lines::newline_at_range;
use crate::lines::rest_is_unfinished;
use crate::progress::ProgressModel;
use crate::tail::actions_fit;
use crate::tail::tail_awaited;
use crate::tail::tail_legal;
use crate::tail::tail_run;
use crate::tail::tail_step;
use crate::tail::tail_wf;
use crate::tail::Moment;
use crate::tail::TailEventModel;
use crate::tail::TailModel;
use crate::tail::TailPhaseModel;
use crate::tail::Timed;

verus! {

/// What the log with a name holds in the end.
pub type Logs = spec_fn(Seq<char>) -> Seq<u8>;

/// The log that is being read: the one that is followed, or the one that is being left.
pub open spec fn log_read(s: TailModel) -> Option<Seq<char>> {
    match s.phase {
        TailPhaseModel::Rotating { old, .. } => Some(old),
        TailPhaseModel::RotatingUpload { old, .. } => Some(old),
        _ => s.current,
    }
}

/// A read gives a piece of the log that is being read, which is only ever appended to.
pub open spec fn of_logs(logs: Logs, s: TailModel, e: TailEventModel) -> bool {
    match (log_read(s), e) {
        (Some(name), TailEventModel::Read { lines, new_offset, file_size }) => {
            &&& s.offset <= file_size <= logs(name).len()
            &&& is_piece(logs(name), s.offset, lines, new_offset, file_size)
        },
        _ => true,
    }
}

/// All reads give pieces of these logs, which are only ever appended to.
pub open spec fn many_logs(m: Moment, p: ProgressModel, es: Seq<Timed>, logs: Logs) -> bool
    decreases es.len(),
{
    es.len() == 0 || (many_logs(m, p, es.drop_last(), logs) && of_logs(
        logs,
        tail_run(m, p, es.drop_last()).state,
        es.last().0,
    ))
}

/// Another log begins to be followed.
pub open spec fn turns(before: TailModel, after: TailModel) -> bool {
    after.current is Some && after.current != before.current
}

/// The lines that were handed on from the log that is being read, since it began to be
/// followed.
pub open spec fn from_log(m: Moment, p: ProgressModel, es: Seq<Timed>) -> Seq<Seq<char>>
    decreases es.len(),
{
    if es.len() == 0 {
        seq![]
    } else {
        let t = tail_run(m, p, es);
        let before = if turns(tail_run(m, p, es.drop_last()).state, t.state) {
            seq![]
        } else {
            from_log(m, p, es.drop_last())
        };
        before + lines_in(t.action)
    }
}

/// What is known of the log that is being read.
spec fn log_on_track(s: TailModel, got: Seq<Seq<char>>, logs: Logs) -> bool {
    &&& s.phase is Dating ==> s.offset == 0 && s.current is None
    &&& s.phase is Rotating || s.phase is RotatingUpload ==> s.current is None
    &&& log_read(s) matches Some(name) ==> at_line(logs(name), s.offset) && got == decoded(
        complete_lines(logs(name).take(s.offset)),
    )
}

proof fn nothing_of_nothing(file: Seq<u8>)
    ensures
        decoded(complete_lines(file.take(0))) == Seq::<Seq<char>>::empty(),
        at_line(file, 0),
{
    assert(file.take(0) =~= Seq::<u8>::empty());
    assert(decoded(complete_lines(file.take(0))) =~= Seq::<Seq<char>>::empty());
}

proof fn log_stays_on_track(
    s: TailModel,
    p: ProgressModel,
    e: TailEventModel,
    m: Moment,
    got: Seq<Seq<char>>,
    logs: Logs,
)
    requires
        log_on_track(s, got, logs),
        tail_wf(s),
        tail_awaited(s, e),
        of_logs(logs, s, e),
    ensures
        ({
            let t = tail_step(s, p, e, m);
            let before = if turns(s, t.state) {
                seq![]
            } else {
                got
            };
            log_on_track(t.state, before + lines_in(t.action), logs)
        }),
{
    let t = tail_step(s, p, e, m);
    let none = Seq::<Seq<char>>::empty();
    assert(got + none =~= got);
    assert(none + none =~= none);
    if let Some(name) = t.state.current {
        nothing_of_nothing(logs(name));
    }
    if let (Some(name), TailEventModel::Read { file_size, .. }) = (log_read(s), e) {
        piece_adds_its_lines(logs(name), s.offset, wanted(s.offset, file_size));
    }
}

proof fn log_always_on_track(m: Moment, p: ProgressModel, es: Seq<Timed>, logs: Logs)
    requires
        tail_legal(m, p, es),
        many_logs(m, p, es, logs),
    ensures
        log_on_track(tail_run(m, p, es).state, from_log(m, p, es), logs),
    decreases es.len(),
{
    if es.len() > 0 {
        let d = es.drop_last();
        log_always_on_track(m, p, d, logs);
        actions_fit(m, p, d);
        let t = tail_run(m, p, d);
        log_stays_on_track(
            t.state,
            t.progress,
            es.last().0,
            es.last().1,
            from_log(m, p, d),
            logs,
        );
    }
}

/// Whichever logs came before, the lines handed on from the log that is being read are together
/// the complete lines of a part of it from its beginning, up to where it is read on.
pub proof fn each_log_from_its_beginning(m: Moment, p: ProgressModel, es: Seq<Timed>, logs: Logs)
    requires
        tail_legal(m, p, es),
        many_logs(m, p, es, logs),
    ensures
        log_read(tail_run(m, p, es).state) matches Some(name) ==> at_line(
            logs(name),
            tail_run(m, p, es).state.offset,
        ) && from_log(m, p, es) == decoded(
            complete_lines(logs(name).take(tail_run(m, p, es).state.offset)),
        ),
{
    log_always_on_track(m, p, es, logs);
}

/// Where a read finds no complete line, all lines up to the size of the file lie before it.
proof fn all_before(file: Seq<u8>, offset: int, size: int)
    requires
        lines_fit(file),
        at_line(file, offset),
        offset <= size <= file.len(),
        len_up_to(
            window(file, offset, wanted(offset, size)),
            MAX_CHUNK_LINES as nat,
        ) == 0,
    ensures
        complete_lines(file.take(size)) == complete_lines(file.take(offset)),
{
    if offset < size {
        nothing_left(file, offset, size, size);
        let x = file.take(size);
        let c = complete_len(x);
        rest_is_unfinished(x);
        newline_at_range(x.skip(c));
        if c < offset {
            assert(x.skip(c)[offset - 1 - c] == file[offset - 1]);
        }
        lines_of_what_is_taken(x, x.len());
        assert(x.take(c) =~= file.take(offset));
    }
}

/// A log is left for another one, unless a stop is asked for or it cannot be read, only when a
/// read has found no complete line in it any more. Then the lines handed on from it are the
/// complete lines up to its offset, and these are all complete lines of the log at the size
/// that it had when it was left.
pub proof fn left_when_read_up(
    m: Moment,
    p: ProgressModel,
    es: Seq<Timed>,
    logs: Logs,
    name: Seq<char>,
)
    requires
        tail_legal(m, p, es),
        many_logs(m, p, es, logs),
        es.len() > 0,
        log_read(tail_run(m, p, es.drop_last()).state) == Some(name),
        log_read(tail_run(m, p, es).state) != Some(name),
        !(tail_run(m, p, es).state.phase is Ended),
        !es.last().1.stop,
        !(es.last().0 is ReadFailed),
    ensures
        es.last().0 matches TailEventModel::Read { lines, file_size, .. } && lines.len() == 0
            && from_log(m, p, es.drop_last()) == decoded(
            complete_lines(logs(name).take(tail_run(m, p, es.drop_last()).state.offset)),
        ) && (lines_fit(logs(name)) ==> from_log(m, p, es.drop_last()) == decoded(
            complete_lines(logs(name).take(file_size)),
        )),
{
    let d = es.drop_last();
    let s = tail_run(m, p, d).state;
    log_always_on_track(m, p, d, logs);
    actions_fit(m, p, d);
    if let TailEventModel::Read { lines, file_size, .. } = es.last().0 {
        let w = window(logs(name), s.offset, wanted(s.offset, file_size));
        len_up_to_range(w, MAX_CHUNK_LINES as nat);
        if lines.len() == 0 && lines_fit(logs(name)) {
            all_before(logs(name), s.offset, file_size);
        }
    }
}

} // verus!
