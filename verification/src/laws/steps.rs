//! The machines do what their models do.
use vstd::prelude::*;

use crate::json::Json;
use crate::json::Reply;
use crate::lines::complete_len;
use crate::lines::complete_lines;
use crate::lines::decoded;
use crate::lines::LineBuffer;
use crate::live::live_awaited;
use crate::live::live_wf;
use crate::live::session_begin;
use crate::live::session_step;
use crate::live::told;
use crate::live::LiveEvent;
use crate::live::LiveLogArgs;
use crate::live::LiveSession;
use crate::live::LiveTurn;
use crate::outside::json_text;
use crate::outside::json_tree;
use crate::progress::live_note;
use crate::progress::LiveNote;
use crate::progress::LiveProgress;
use crate::segments::part_awaited;
use crate::segments::part_begin;
use crate::segments::part_step;
use crate::segments::uploader_start;
use crate::segments::PartEvent;
use crate::segments::PartTurn;
use crate::segments::Uploader;
use crate::tail::again;
use crate::tail::tail_awaited;
use crate::tail::tail_start;
use crate::tail::tail_step;
use crate::tail::Moment;
use crate::tail::Tail;
use crate::tail::TailEvent;
use crate::tail::TailTurn;
use crate::text::texts;
use crate::upload::awaited;
use crate::upload::upload_run;
use crate::upload::upload_step;
use crate::upload::Event;
use crate::upload::Turn;
use crate::upload::Upload;

verus! {

/// An upload begins where its run begins: with its first lines, or with closing the parser, under
/// the segment id one, without a report or a master table.
pub proof fn uploads_begin(total: u64, u: (Upload, Turn))
    requires
        call_ensures(Upload::begin, (total,), u),
    ensures
        u.0@ == upload_run(total as int, Seq::empty()).state,
        u.1.action.means(upload_run(total as int, Seq::empty()).action),
        u.1.note is None,
        u.0@.segment_id == 1,
        u.0@.report is None,
        u.0@.last_ids is None,
        u.0@.total == total,
{
}

/// A step of an upload leads to the state, the action and the message that are due.
pub proof fn uploads_step(u: &mut Upload, e: Event, t: Turn)
    requires
        call_ensures(Upload::step, (u, e), t),
    ensures
        final(u)@ == upload_step(old(u)@, e@).state,
        t.action.means(upload_step(old(u)@, e@).action),
        crate::upload::note_means(t.note, upload_step(old(u)@, e@).note),
{
}

/// An upload takes exactly the events that it waits for.
pub proof fn uploads_accept(u: &Upload, e: &Event, r: bool)
    requires
        call_ensures(Upload::accepts, (u, e), r),
    ensures
        r <==> awaited(u@.phase, e@),
{
}

/// An uploader begins under the id one, without anything accepted or previewed.
pub proof fn uploaders_begin(real_time: bool, u: Uploader)
    requires
        call_ensures(Uploader::new, (real_time,), u),
    ensures
        u@ == uploader_start(real_time),
        u@.real_time == real_time,
        u@.segment_id == 1,
        u@.last_ids is None,
        u@.last_preview is None,
        u@.phase is Idle,
{
}

/// A part begins, and its steps lead to the state, the progress, the action and the message that
/// are due.
pub proof fn uploaders_step(
    u: &mut Uploader,
    p: &mut LiveProgress,
    e: PartEvent,
    t: PartTurn,
)
    requires
        call_ensures(Uploader::step, (u, p, e), t),
    ensures
        final(u)@ == part_step(old(u)@, old(p)@, e@).state,
        final(p)@ == part_step(old(u)@, old(p)@, e@).progress,
        t.action.means(part_step(old(u)@, old(p)@, e@).action),
        crate::progress::note_means(t.note, part_step(old(u)@, old(p)@, e@).note),
{
}

/// A part begins with parsing or collecting.
pub proof fn parts_begin(
    u: &mut Uploader,
    p: &LiveProgress,
    any_lines: bool,
    push_fight: bool,
    t: PartTurn,
)
    requires
        call_ensures(Uploader::begin, (u, p, any_lines, push_fight), t),
    ensures
        final(u)@ == part_begin(old(u)@, p@, any_lines, push_fight).state,
        t.action.means(part_begin(old(u)@, p@, any_lines, push_fight).action),
        t.note is None,
{
}

/// An uploader takes exactly the events that it waits for.
pub proof fn uploaders_accept(u: &Uploader, p: &LiveProgress, e: &PartEvent, r: bool)
    requires
        call_ensures(Uploader::accepts, (u, p, e), r),
    ensures
        r <==> part_awaited(u@, p@, e@),
{
}

/// A directory begins to be watched with a search, or on a stop with the flush.
pub proof fn tails_begin(p: &LiveProgress, m: Moment, r: (Tail, TailTurn))
    requires
        call_ensures(Tail::begin, (p, m), r),
    ensures
        r.0@ == again(tail_start(m), p@, m).state,
        r.1.action@ == again(tail_start(m), p@, m).action,
        !m.stop ==> r.1.action is FindNewest,
        m.stop ==> r.1.action is UploadPart,
        r.0@.current is None,
        r.0@.offset == 0,
        !r.0@.dirty,
{
}

/// A step of following a log leads to the state, the progress, the action and the message that are
/// due.
pub proof fn tails_step(
    s: &mut Tail,
    p: &mut LiveProgress,
    e: TailEvent,
    m: Moment,
    t: TailTurn,
)
    requires
        call_ensures(Tail::step, (s, p, e, m), t),
    ensures
        final(s)@ == tail_step(old(s)@, old(p)@, e@, m).state,
        final(p)@ == tail_step(old(s)@, old(p)@, e@, m).progress,
        t.action@ == tail_step(old(s)@, old(p)@, e@, m).action,
        crate::progress::note_means(t.note, tail_step(old(s)@, old(p)@, e@, m).note),
{
}

/// Following a log takes exactly the events that it waits for.
pub proof fn tails_accept(s: &Tail, e: &TailEvent, r: bool)
    requires
        call_ensures(Tail::accepts, (s, e), r),
    ensures
        r <==> tail_awaited(s@, e@),
{
}

/// A live log begins with what it was started with.
pub proof fn live_sessions_begin(
    args: &LiveLogArgs,
    is_dir: bool,
    p: &LiveProgress,
    r: (LiveSession, LiveTurn),
)
    requires
        call_ensures(LiveSession::begin, (args, is_dir, p), r),
    ensures
        ({
            let t = session_begin(
                args.include_entire_file_in_report,
                args.game@,
                args.directory@,
                is_dir,
                p@,
            );
            r.0@ == t.state && r.1.action@ == t.action && told(r.1.notices@) == t.notices
        }),
{
}

/// A step of a live log leads to the state, the action and the notices that are due.
pub proof fn live_sessions_step(s: &mut LiveSession, p: &LiveProgress, e: LiveEvent, t: LiveTurn)
    requires
        call_ensures(LiveSession::step, (s, p, e), t),
    ensures
        final(s)@ == session_step(old(s)@, p@, e@).state,
        t.action@ == session_step(old(s)@, p@, e@).action,
        told(t.notices@) == session_step(old(s)@, p@, e@).notices,
        live_wf(final(s)@),
{
}

/// A live log takes exactly the events that it waits for.
pub proof fn live_sessions_accept(s: &LiveSession, e: &LiveEvent, r: bool)
    requires
        call_ensures(LiveSession::accepts, (s, e), r),
    ensures
        r <==> live_awaited(s@, e@),
{
}

/// A stream hands out the lines that a piece completes, together with what was left before, and
/// keeps the rest.
pub proof fn streams_are_fed(b: &mut LineBuffer, piece: &[u8], r: Vec<String>)
    requires
        call_ensures(LineBuffer::feed, (b, piece), r),
    ensures
        texts(r@) == decoded(complete_lines(old(b).pending@ + piece@)),
        final(b).pending@ == (old(b).pending@ + piece@).skip(
            complete_len(old(b).pending@ + piece@),
        ),
{
}

/// Messages bear their text and the progress; JSON is read as its tree, and a reply keeps its
/// compact text too.
pub proof fn messages_and_replies(
    p: &LiveProgress,
    state: &'static str,
    message: String,
    text: &str,
    n: LiveNote,
    fresh: LiveProgress,
    j: Result<Json, serde_json::Error>,
    r: Result<Reply, serde_json::Error>,
)
    requires
        call_ensures(LiveProgress::emit, (p, state, message), n),
        call_ensures(LiveProgress::new, (), fresh),
        call_ensures(Json::read, (text,), j),
        call_ensures(Reply::read, (text,), r),
    ensures
        n@ == live_note(p@, state@, message@),
        fresh.file is None && fresh.segments == 0 && !fresh.in_progress,
        j matches Ok(v) ==> json_tree(text@) == Some(v.tree()),
        j is Err ==> json_tree(text@) is None,
        r matches Ok(v) ==> json_tree(text@) == Some(v.json.tree()) && v.compact@ == json_text(
            v.json.tree(),
        ),
        r is Err ==> json_tree(text@) is None,
{
}

/// Looking into JSON gives what its tree has under the name, and a copy is the same.
pub proof fn json_is_looked_into(
    v: &Json,
    key: &str,
    member: Option<&Json>,
    i: Option<i64>,
    z: i64,
    s: Option<&String>,
    b: Option<bool>,
    a: Option<&Vec<Json>>,
    copied: Json,
)
    requires
        call_ensures(Json::get, (v, key), member),
        call_ensures(Json::get_i64, (v, key), i),
        call_ensures(Json::get_i64_or_zero, (v, key), z),
        call_ensures(Json::get_str, (v, key), s),
        call_ensures(Json::get_bool, (v, key), b),
        call_ensures(Json::get_array, (v, key), a),
        call_ensures(Json::copy, (v,), copied),
    ensures
        member matches Some(j) ==> v.tree().member(key@) == Some(j.tree()),
        member is None ==> v.tree().member(key@) is None,
        i matches Some(n) ==> v.tree().int_member(key@) == Some(n as int),
        i is None ==> v.tree().int_member(key@) is None,
        z == v.tree().int_or_zero(key@),
        s matches Some(t) ==> v.tree().text_member(key@) == Some(t@),
        s is None ==> v.tree().text_member(key@) is None,
        b == v.tree().bool_member(key@),
        a matches Some(items) ==> v.tree().array_member(key@) == Some(crate::json::trees(items@)),
        a is None ==> v.tree().array_member(key@) is None,
        copied.tree() == v.tree(),
{
}

} // verus!
