//! Trimming, and splitting into lines.
use vstd::prelude::*;

use crate::lines::complete_lines;
use crate::lines::decoded;
use crate::lines::lines_up_to;
use crate::lines::lines_of_ended_parts;
use crate::lines::newline_at;
use crate::lines::newline_at_range;
use crate::lines::newline_in;
use crate::lines::text_lines;
use crate::outside::utf8_lossy;
use crate::text::is_white;
use crate::text::trimmed;
use crate::text::trimmed_end;
use crate::text::trimmed_start;
use crate::text::without_final_newlines;

verus! {

/// White space is what Unicode calls so, by code point.
pub proof fn white_space_is(c: char)
    ensures
        is_white(c) <==> {
            let u = c as int;
            u == 9 || u == 10 || u == 11 || u == 12 || u == 13 || u == 32 || u == 133 || u == 160
                || u == 5760 || (8192 <= u <= 8202) || u == 8232 || u == 8233 || u == 8239 || u
                == 8287 || u == 12288
        },
{
}

/// The text is what is left of `s` without what is white at its start: a suffix.
proof fn start_is_cut(s: Seq<char>) -> (i: int)
    ensures
        0 <= i <= s.len(),
        trimmed_start(s) == s.skip(i),
        forall|k: int| 0 <= k < i ==> is_white(#[trigger] s[k]),
        i < s.len() ==> !is_white(s[i]),
    decreases s.len(),
{
    if s.len() > 0 && is_white(s[0]) {
        let t = s.drop_first();
        let i = start_is_cut(t);
        assert(t.skip(i) =~= s.skip(i + 1));
        assert forall|k: int| 0 <= k < i + 1 implies is_white(#[trigger] s[k]) by {
            if k > 0 {
                assert(is_white(t[k - 1]));
            }
        }
        i + 1
    } else {
        assert(s.skip(0) =~= s);
        0
    }
}

proof fn end_is_cut(s: Seq<char>) -> (j: int)
    ensures
        0 <= j <= s.len(),
        trimmed_end(s) == s.take(j),
        forall|k: int| j <= k < s.len() ==> is_white(#[trigger] s[k]),
        j > 0 ==> !is_white(s[j - 1]),
    decreases s.len(),
{
    if s.len() > 0 && is_white(s.last()) {
        let t = s.drop_last();
        let j = end_is_cut(t);
        assert(t.take(j) =~= s.take(j));
        assert forall|k: int| j <= k < s.len() implies is_white(#[trigger] s[k]) by {
            if k < t.len() {
                assert(is_white(t[k]));
            }
        }
        j
    } else {
        assert(s.take(s.len() as int) =~= s);
        s.len() as int
    }
}

/// Trimming cuts off white space alone, all of it at both ends and nothing in between.
pub proof fn trimming_cuts_white_space(s: Seq<char>)
    ensures
        exists|i: int, j: int|
            #![trigger s.subrange(i, j)]
            {
                &&& 0 <= i <= j <= s.len()
                &&& trimmed(s) == s.subrange(i, j)
                &&& forall|k: int|
                    0 <= k < i || j <= k < s.len() ==> is_white(#[trigger] s[k])
                &&& i < j ==> !is_white(s[i]) && !is_white(s[j - 1])
            },
{
    let i = start_is_cut(s);
    let t = s.skip(i);
    let j = end_is_cut(t);
    assert(t.take(j) =~= s.subrange(i, i + j));
    assert forall|k: int| 0 <= k < i || i + j <= k < s.len() implies is_white(
        #[trigger] s[k],
    ) by {
        if k >= i {
            assert(is_white(t[k - i]));
        }
    }
    if j > 0 {
        assert(t[j - 1] == s[i + j - 1]);
    }
}

/// `cut` is `s` without its final line feeds.
pub open spec fn cut_of_line_feeds(s: Seq<char>, cut: Seq<char>) -> bool {
    &&& cut.len() <= s.len()
    &&& cut == s.take(cut.len() as int)
    &&& forall|k: int| cut.len() <= k < s.len() ==> #[trigger] s[k] == '\n'
    &&& cut.len() > 0 ==> cut.last() != '\n'
}

/// Cutting off final line feeds cuts off all of them and nothing else.
pub proof fn final_line_feeds_are_cut(s: Seq<char>)
    ensures
        cut_of_line_feeds(s, without_final_newlines(s)),
    decreases s.len(),
{
    if s.len() > 0 && s.last() == '\n' {
        let t = s.drop_last();
        final_line_feeds_are_cut(t);
        let cut = without_final_newlines(s);
        assert(t.take(cut.len() as int) =~= s.take(cut.len() as int));
        assert forall|k: int| cut.len() <= k < s.len() implies #[trigger] s[k] == '\n' by {
            if k < t.len() {
                assert(t[k] == '\n');
            }
        }
    } else {
        assert(s.take(s.len() as int) =~= s);
    }
}

proof fn one_line(a: Seq<u8>, line: Seq<u8>)
    requires
        forall|i: int| 0 <= i < line.len() ==> line[i] != 10,
        a == line.push(10),
    ensures
        complete_lines(a) == seq![
            if line.len() > 0 && line.last() == 13 {
                line.drop_last()
            } else {
                line
            },
        ],
{
    newline_at_range(a);
    assert(a[line.len() as int] == 10);
    let k = newline_at(a);
    if k < line.len() {
        assert(a[k] == line[k]);
    }
    assert(a.take(k) =~= line);
    let t = a.skip(k + 1);
    assert(t.len() == 0);
    assert(lines_up_to(t, (a.len() - 1) as nat) =~= seq![]);
    assert(complete_lines(a) =~= seq![
        if line.len() > 0 && line.last() == 13 {
            line.drop_last()
        } else {
            line
        },
    ]);
}

/// A stream that begins with a line gives that line, without its line feed or its carriage
/// return and line feed, and then the lines of the rest. Only one carriage return goes.
pub proof fn lines_come_off_the_front(line: Seq<u8>, rest: Seq<u8>)
    requires
        forall|i: int| 0 <= i < line.len() ==> line[i] != 10,
    ensures
        line.len() == 0 || line.last() != 13 ==> complete_lines(line + seq![10u8] + rest)
            == seq![line] + complete_lines(rest),
        complete_lines(line + seq![13u8, 10u8] + rest) == seq![line] + complete_lines(rest),
        complete_lines(line) == Seq::<Seq<u8>>::empty(),
{
    let a = line.push(10);
    one_line(a, line);
    lines_of_ended_parts(a, rest);
    assert(a + rest =~= line + seq![10u8] + rest);
    let full = line.push(13);
    let b = full.push(10);
    one_line(b, full);
    lines_of_ended_parts(b, rest);
    assert(b + rest =~= line + seq![13u8, 10u8] + rest);
    assert(full.drop_last() =~= line);
    newline_at_range(line);
    assert(complete_lines(line) =~= Seq::<Seq<u8>>::empty());
}

/// With a limit, the first so many of the lines are taken up.
pub proof fn first_lines_are_taken(b: Seq<u8>, limit: nat)
    ensures
        lines_up_to(b, limit) == if complete_lines(b).len() <= limit {
            complete_lines(b)
        } else {
            complete_lines(b).take(limit as int)
        },
    decreases b.len(),
{
    newline_at_range(b);
    let k = newline_at(b);
    if k < b.len() {
        let t = b.skip(k + 1);
        crate::lines::lines_resume(b, 1);
        let first = lines_up_to(b, 1);
        assert(lines_up_to(t, 0) =~= seq![]);
        reveal_with_fuel(lines_up_to, 2);
        assert(first.len() == 1);
        assert(crate::lines::len_up_to(b, 1) == k + 1) by {
            reveal_with_fuel(crate::lines::len_up_to, 2);
        }
        assert(complete_lines(b) == first + complete_lines(t));
        if limit > 0 {
            first_lines_are_taken(t, (limit - 1) as nat);
            assert(lines_up_to(b, limit) =~= first + lines_up_to(t, (limit - 1) as nat));
            if complete_lines(b).len() > limit {
                assert(complete_lines(b).take(limit as int) =~= first + complete_lines(t).take(
                    limit - 1,
                ));
            }
        } else {
            assert(complete_lines(b).take(0) =~= lines_up_to(b, 0));
        }
    } else {
        assert(complete_lines(b) =~= seq![]);
    }
}

/// Every line is read on its own, in order.
pub proof fn each_line_is_read(lines: Seq<Seq<u8>>)
    ensures
        decoded(lines).len() == lines.len(),
        forall|i: int| 0 <= i < lines.len() ==> #[trigger] decoded(lines)[i] == utf8_lossy(lines[i]),
{
}

proof fn newline_in_after(line: Seq<char>, rest: Seq<char>)
    requires
        forall|i: int| 0 <= i < line.len() ==> line[i] != '\n',
    ensures
        newline_in(line + seq!['\n'] + rest) == line.len(),
        newline_in(line) == line.len(),
    decreases line.len(),
{
    let s = line + seq!['\n'] + rest;
    if line.len() > 0 {
        assert(s[0] == line[0]);
        newline_in_after(line.drop_first(), rest);
        assert(s.drop_first() =~= line.drop_first() + seq!['\n'] + rest);
    } else {
        assert(s[0] == '\n');
    }
}

/// A text that begins with a line gives that line, without its line feed or its carriage return
/// and line feed, and then the lines of the rest. What is left at the end without a line feed is
/// a line as it stands, unless it is empty.
pub proof fn text_lines_come_off_the_front(line: Seq<char>, rest: Seq<char>)
    requires
        forall|i: int| 0 <= i < line.len() ==> line[i] != '\n',
    ensures
        line.len() == 0 || line.last() != '\r' ==> text_lines(line + seq!['\n'] + rest) == seq![line]
            + text_lines(rest),
        text_lines(line + seq!['\r', '\n'] + rest) == seq![line] + text_lines(rest),
        line.len() > 0 ==> text_lines(line) == seq![line],
        text_lines(Seq::empty()) == Seq::<Seq<char>>::empty(),
{
    newline_in_after(line, rest);
    let s = line + seq!['\n'] + rest;
    assert(s.take(line.len() as int) =~= line);
    assert(s.skip(line.len() as int + 1) =~= rest);
    let full = line.push('\r');
    newline_in_after(full, rest);
    let t = full + seq!['\n'] + rest;
    assert(t =~= line + seq!['\r', '\n'] + rest);
    assert(t.take(full.len() as int) =~= full);
    assert(t.skip(full.len() as int + 1) =~= rest);
    assert(full.drop_last() =~= line);
}

} // verus!
