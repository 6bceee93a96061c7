//! What becomes of a growing log: which of its lines are uploaded by the time a stop is done.
use vstd::prelude::*;

use crate::chunk::wanted;
use crate::chunk::window;
use crate::chunk::MAX_CHUNK_BYTES;
use crate::chunk::MAX_CHUNK_LINES;
use crate::lines::complete_len;
use crate::lines::complete_lines;
use crate::lines::decoded;
use crate::lines::len_up_to;
use crate::lines::lines_end_at_newline;
use crate::lines::lines_of_ended_parts;
use crate::lines::lines_of_what_is_taken;
use crate::lines::lines_up_to;
use crate::lines::newline_at;
use crate::lines::newline_at_range;
use crate::progress::ProgressModel;
use crate::tail::actions_fit;
use crate::tail::drain_knows_the_size;
use crate::tail::drained_after_stop;
use crate::tail::size_at_stop;
use crate::tail::tail_awaited;
use crate::tail::tail_legal;
use crate::tail::tail_run;
use crate::tail::tail_step;
use crate::tail::tail_wf;
use crate::tail::Moment;
use crate::tail::TailActionModel;
use crate::tail::TailEventModel;
use crate::tail::TailModel;
use crate::tail::TailPhaseModel;
use crate::tail::Timed;

verus! {

/// A piece of the file, as `chunk_of` makes it of the bytes that are wanted at this offset when
/// the file has this size: the complete lines among them, and where they end.
pub open spec fn is_piece(
    file: Seq<u8>,
    offset: int,
    lines: Seq<Seq<char>>,
    new_offset: int,
    file_size: int,
) -> bool {
    let w = window(file, offset, wanted(offset, file_size));
    &&& lines == decoded(lines_up_to(w, MAX_CHUNK_LINES as nat))
    &&& new_offset == offset + len_up_to(w, MAX_CHUNK_LINES as nat)
}

/// The event comes of following this one log, which is only ever appended to and holds `file`
/// in the end.
pub open spec fn of_one_log(
    name: Seq<char>,
    file: Seq<u8>,
    offset: int,
    stop_size: Option<int>,
    e: TailEventModel,
) -> bool {
    match e {
        TailEventModel::Newest(Some(found)) => found.name == name,
        TailEventModel::Read { lines, new_offset, file_size } => {
            &&& offset <= file_size <= file.len()
            &&& stop_size matches Some(n) ==> n <= file_size
            &&& is_piece(file, offset, lines, new_offset, file_size)
        },
        TailEventModel::Size(n) => 0 <= n <= file.len(),
        _ => true,
    }
}

/// All events come of following this one log.
pub open spec fn one_log(
    m: Moment,
    p: ProgressModel,
    es: Seq<Timed>,
    name: Seq<char>,
    file: Seq<u8>,
) -> bool
    decreases es.len(),
{
    es.len() == 0 || {
        let d = es.drop_last();
        one_log(m, p, d, name, file) && of_one_log(
            name,
            file,
            tail_run(m, p, d).state.offset,
            size_at_stop(d),
            es.last().0,
        )
    }
}

/// The lines that an action hands on.
pub open spec fn lines_in(action: TailActionModel) -> Seq<Seq<char>> {
    match action {
        TailActionModel::UploadPart { lines, .. } => lines,
        _ => seq![],
    }
}

/// All lines that were handed on to be uploaded, in order.
pub open spec fn uploaded(m: Moment, p: ProgressModel, es: Seq<Timed>) -> Seq<Seq<char>>
    decreases es.len(),
{
    let before = if es.len() == 0 {
        seq![]
    } else {
        uploaded(m, p, es.drop_last())
    };
    before + lines_in(tail_run(m, p, es).action)
}

/// The offset lies at the beginning of a line.
pub open spec fn at_line(file: Seq<u8>, offset: int) -> bool {
    0 <= offset <= file.len() && (offset == 0 || file[offset - 1] == 10)
}

/// What is known while this one log is followed.
spec fn on_track(s: TailModel, up: Seq<Seq<char>>, name: Seq<char>, file: Seq<u8>) -> bool {
    &&& at_line(file, s.offset)
    &&& up == decoded(complete_lines(file.take(s.offset)))
    &&& s.current matches Some(c) ==> c == name
    &&& s.current is None ==> s.offset == 0
    &&& s.phase matches TailPhaseModel::Dating { name: n } ==> n == name && s.current is None
    &&& !(s.phase is Rotating)
    &&& !(s.phase is RotatingUpload)
}

/// Taking up a piece at the beginning of a line adds its lines, and ends at the beginning of
/// a line.
pub proof fn piece_adds_its_lines(file: Seq<u8>, at: int, n: int)
    requires
        at_line(file, at),
        0 <= n,
        at + n <= file.len(),
    ensures
        ({
            let w = window(file, at, n);
            let used = len_up_to(w, MAX_CHUNK_LINES as nat);
            &&& 0 <= used <= n
            &&& at_line(file, at + used)
            &&& decoded(complete_lines(file.take(at + used))) == decoded(
                complete_lines(file.take(at)),
            ) + decoded(lines_up_to(w, MAX_CHUNK_LINES as nat))
        }),
{
    let limit = MAX_CHUNK_LINES as nat;
    let w = window(file, at, n);
    let used = len_up_to(w, limit);
    lines_end_at_newline(w, limit);
    lines_of_what_is_taken(w, limit);
    let a = file.take(at);
    lines_of_ended_parts(a, w.take(used));
    assert(a + w.take(used) =~= file.take(at + used));
    if used > 0 {
        assert(w[used - 1] == file[at + used - 1]);
    }
    assert(decoded(complete_lines(a) + lines_up_to(w, limit)) =~= decoded(complete_lines(a))
        + decoded(lines_up_to(w, limit)));
}

proof fn stays_on_track(
    s: TailModel,
    p: ProgressModel,
    e: TailEventModel,
    m: Moment,
    stop_size: Option<int>,
    up: Seq<Seq<char>>,
    name: Seq<char>,
    file: Seq<u8>,
)
    requires
        on_track(s, up, name, file),
        tail_wf(s),
        tail_awaited(s, e),
        of_one_log(name, file, s.offset, stop_size, e),
    ensures
        ({
            let t = tail_step(s, p, e, m);
            on_track(t.state, up + lines_in(t.action), name, file)
        }),
{
    assert(up + Seq::<Seq<char>>::empty() =~= up);
    if let TailEventModel::Read { lines, new_offset, file_size } = e {
        piece_adds_its_lines(file, s.offset, wanted(s.offset, file_size));
    }
}

proof fn always_on_track(
    m: Moment,
    p: ProgressModel,
    es: Seq<Timed>,
    name: Seq<char>,
    file: Seq<u8>,
)
    requires
        tail_legal(m, p, es),
        one_log(m, p, es, name, file),
    ensures
        on_track(tail_run(m, p, es).state, uploaded(m, p, es), name, file),
    decreases es.len(),
{
    if es.len() > 0 {
        let d = es.drop_last();
        always_on_track(m, p, d, name, file);
        actions_fit(m, p, d);
        let t = tail_run(m, p, d);
        stays_on_track(
            t.state,
            t.progress,
            es.last().0,
            es.last().1,
            size_at_stop(d),
            uploaded(m, p, d),
            name,
            file,
        );
    } else {
        let none = Seq::<Seq<char>>::empty();
        assert(none + none =~= none);
        assert(file.take(0) =~= Seq::<u8>::empty());
        assert(decoded(complete_lines(file.take(0))) =~= none);
    }
}

/// While one log is followed that is only ever appended to, the lines handed on so far are
/// together the complete lines of a part of the log from its beginning, up to where it is
/// read on.
pub proof fn uploaded_is_a_prefix(
    m: Moment,
    p: ProgressModel,
    es: Seq<Timed>,
    name: Seq<char>,
    file: Seq<u8>,
)
    requires
        tail_legal(m, p, es),
        one_log(m, p, es, name, file),
    ensures
        ({
            let offset = tail_run(m, p, es).state.offset;
            &&& at_line(file, offset)
            &&& uploaded(m, p, es) == decoded(complete_lines(file.take(offset)))
        }),
{
    always_on_track(m, p, es, name, file);
}

/// No line is too long to be read at once.
pub open spec fn lines_fit(file: Seq<u8>) -> bool {
    forall|at: int|
        0 <= at && at + MAX_CHUNK_BYTES <= file.len() ==> newline_at(
            #[trigger] window(file, at, MAX_CHUNK_BYTES as int),
        ) < MAX_CHUNK_BYTES
}

/// A read that finds no complete line has seen the unfinished last one.
pub proof fn nothing_left(file: Seq<u8>, offset: int, size: int, n: int)
    requires
        lines_fit(file),
        0 <= offset < n <= size <= file.len(),
        len_up_to(window(file, offset, wanted(offset, size)), MAX_CHUNK_LINES as nat) == 0,
    ensures
        complete_len(file.take(n)) <= offset,
{
    let k = wanted(offset, size);
    let w = window(file, offset, k);
    newline_at_range(w);
    lines_end_at_newline(w.skip(newline_at(w) + 1), (MAX_CHUNK_LINES - 1) as nat);
    assert(newline_at(w) == w.len());
    assert(k == size - offset) by {
        if k == MAX_CHUNK_BYTES {
            assert(w == window(file, offset, MAX_CHUNK_BYTES as int));
        }
    }
    let x = file.take(n);
    let c = complete_len(x);
    lines_end_at_newline(x, x.len());
    if c > offset {
        assert(x[c - 1] == 10);
        assert(w[c - 1 - offset] == file[c - 1]);
    }
}

/// The lines of a part from the beginning are the first lines of any longer one that ends
/// where a line ends.
proof fn first_lines(file: Seq<u8>, n: int, offset: int)
    requires
        0 <= n <= file.len(),
        at_line(file, offset),
        complete_len(file.take(n)) <= offset,
    ensures
        decoded(complete_lines(file.take(n))).is_prefix_of(
            decoded(complete_lines(file.take(offset))),
        ),
{
    let x = file.take(n);
    let c = complete_len(x);
    lines_end_at_newline(x, x.len());
    lines_of_what_is_taken(x, x.len());
    let a = file.take(c);
    let b = file.subrange(c, offset);
    assert(x.take(c) =~= a);
    if c > 0 {
        assert(a.last() == x[c - 1]);
    }
    lines_of_ended_parts(a, b);
    assert(a + b =~= file.take(offset));
    assert(decoded(complete_lines(a) + complete_lines(b)) =~= decoded(complete_lines(a)) + decoded(
        complete_lines(b),
    ));
}

/// When a stop is done with reading one log that is only ever appended to, every line that was
/// complete when the stop was asked for has been handed on, unless the last read or upload
/// failed: the lines of the log at that size are the first of those handed on.
pub proof fn stop_leaves_no_line(
    m: Moment,
    p: ProgressModel,
    es: Seq<Timed>,
    name: Seq<char>,
    file: Seq<u8>,
)
    requires
        tail_legal(m, p, es),
        one_log(m, p, es, name, file),
        lines_fit(file),
        es.len() > 0,
        tail_run(m, p, es).state.phase is Flushing,
        tail_run(m, p, es).state.current is Some,
        !(es.last().0 is ReadFailed),
        !(es.last().0 is UploadFailed),
    ensures
        size_at_stop(es) matches Some(n) && decoded(complete_lines(file.take(n))).is_prefix_of(
            uploaded(m, p, es),
        ),
{
    let d = es.drop_last();
    let s = tail_run(m, p, d).state;
    let offset = tail_run(m, p, es).state.offset;
    always_on_track(m, p, es, name, file);
    always_on_track(m, p, d, name, file);
    drained_after_stop(m, p, es);
    drain_knows_the_size(m, p, d);
    sizes_are_within(m, p, es, name, file);
    assert(size_at_stop(es) is Some);
    let n = size_at_stop(es)->Some_0;
    if offset < n {
        if let TailEventModel::Read { lines, new_offset, file_size } = es.last().0 {
            lines_end_at_newline(
                window(file, s.offset, wanted(s.offset, file_size)),
                MAX_CHUNK_LINES as nat,
            );
            nothing_left(file, offset, file_size, n);
        }
    } else {
        lines_end_at_newline(file.take(n), file.take(n).len());
    }
    first_lines(file, n, offset);
}

proof fn sizes_are_within(
    m: Moment,
    p: ProgressModel,
    es: Seq<Timed>,
    name: Seq<char>,
    file: Seq<u8>,
)
    requires
        one_log(m, p, es, name, file),
    ensures
        size_at_stop(es) matches Some(n) ==> 0 <= n <= file.len(),
    decreases es.len(),
{
    if es.len() > 0 {
        sizes_are_within(m, p, es.drop_last(), name, file);
    }
}

} // verus!
