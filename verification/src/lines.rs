//! Splitting text and byte streams into lines.
use vstd::prelude::*;
use vstd::string::*;
use vstd::slice::slice_subrange;
use vstd::utf8::decode_utf8;
use vstd::utf8::valid_utf8;

use crate::outside::decode_lossy;
use crate::outside::utf8_lossy;
use crate::text::texts;

verus! {

/// The position of the first line feed, or the length where there is none.
pub open spec fn newline_at(b: Seq<u8>) -> int
    decreases b.len(),
{
    if b.len() == 0 || b[0] == 10 {
        0
    } else {
        1 + newline_at(b.drop_first())
    }
}

/// A line without the carriage return at its end, if it has one.
pub open spec fn chomped(line: Seq<u8>) -> Seq<u8> {
    if line.len() > 0 && line.last() == 13 {
        line.drop_last()
    } else {
        line
    }
}

/// The first complete lines of `b`, at most `limit` of them, without their line ends.
pub open spec fn lines_up_to(b: Seq<u8>, limit: nat) -> Seq<Seq<u8>>
    decreases limit,
{
    let k = newline_at(b);
    if limit == 0 || k >= b.len() {
        seq![]
    } else {
        seq![chomped(b.take(k))] + lines_up_to(b.skip(k + 1), (limit - 1) as nat)
    }
}

/// How many bytes the lines of `lines_up_to` take, line ends and all.
pub open spec fn len_up_to(b: Seq<u8>, limit: nat) -> int
    decreases limit,
{
    let k = newline_at(b);
    if limit == 0 || k >= b.len() {
        0
    } else {
        k + 1 + len_up_to(b.skip(k + 1), (limit - 1) as nat)
    }
}

/// Every complete line of `b`, without its line end.
pub open spec fn complete_lines(b: Seq<u8>) -> Seq<Seq<u8>> {
    lines_up_to(b, b.len())
}

/// How many bytes the complete lines of `b` take; what follows is an unfinished line.
pub open spec fn complete_len(b: Seq<u8>) -> int {
    len_up_to(b, b.len())
}

/// Lines of bytes read as text.
pub open spec fn decoded(lines: Seq<Seq<u8>>) -> Seq<Seq<char>> {
    lines.map_values(|l: Seq<u8>| utf8_lossy(l))
}

/// Every line that is valid UTF-8 is read as it stands.
pub open spec fn faithful(lines: Seq<Seq<u8>>, read: Seq<Seq<char>>) -> bool {
    forall|i: int|
        0 <= i < lines.len() && valid_utf8(#[trigger] lines[i]) ==> read[i] == decode_utf8(lines[i])
}

proof fn newline_at_is(b: Seq<u8>, k: int)
    requires
        0 <= k <= b.len(),
        forall|j: int| 0 <= j < k ==> b[j] != 10,
        k < b.len() ==> b[k] == 10,
    ensures
        newline_at(b) == k,
    decreases b.len(),
{
    if b.len() > 0 && k > 0 {
        newline_at_is(b.drop_first(), k - 1);
    }
}

/// The first line feed lies within the bytes, or at their end where there is none.
pub proof fn newline_at_range(b: Seq<u8>)
    ensures
        0 <= newline_at(b) <= b.len(),
        newline_at(b) < b.len() ==> b[newline_at(b)] == 10,
        forall|j: int| 0 <= j < newline_at(b) ==> b[j] != 10,
    decreases b.len(),
{
    if b.len() > 0 && b[0] != 10 {
        let t = b.drop_first();
        newline_at_range(t);
        assert forall|j: int| 0 <= j < newline_at(b) implies b[j] != 10 by {
            if j > 0 {
                assert(t[j - 1] != 10);
            }
        }
    }
}

proof fn lines_up_to_enough(b: Seq<u8>, m: nat)
    requires
        m >= b.len(),
    ensures
        lines_up_to(b, m) == complete_lines(b),
        len_up_to(b, m) == complete_len(b),
    decreases b.len(),
{
    newline_at_range(b);
    let k = newline_at(b);
    if k < b.len() {
        let t = b.skip(k + 1);
        lines_up_to_enough(t, (m - 1) as nat);
        lines_up_to_enough(t, (b.len() - 1) as nat);
    }
}

/// At most `limit` lines are taken up, and bytes are taken up exactly where lines are.
pub proof fn len_up_to_range(b: Seq<u8>, limit: nat)
    ensures
        0 <= len_up_to(b, limit) <= b.len(),
        lines_up_to(b, limit).len() <= limit,
        len_up_to(b, limit) == 0 <==> lines_up_to(b, limit).len() == 0,
    decreases limit,
{
    newline_at_range(b);
    let k = newline_at(b);
    if limit > 0 && k < b.len() {
        len_up_to_range(b.skip(k + 1), (limit - 1) as nat);
    }
}

/// What is taken up as complete lines ends just past a line feed.
pub proof fn lines_end_at_newline(b: Seq<u8>, limit: nat)
    ensures
        0 <= len_up_to(b, limit) <= b.len(),
        len_up_to(b, limit) > 0 ==> b[len_up_to(b, limit) - 1] == 10,
    decreases limit,
{
    newline_at_range(b);
    let k = newline_at(b);
    if limit > 0 && k < b.len() {
        let t = b.skip(k + 1);
        lines_end_at_newline(t, (limit - 1) as nat);
        let n = len_up_to(t, (limit - 1) as nat);
        if n > 0 {
            assert(t[n - 1] == b[k + 1 + n - 1]);
        }
    }
}

/// What is left after the complete lines holds no line feed.
pub proof fn rest_is_unfinished(b: Seq<u8>)
    ensures
        0 <= complete_len(b) <= b.len(),
        newline_at(b.skip(complete_len(b))) == b.len() - complete_len(b),
    decreases b.len(),
{
    newline_at_range(b);
    len_up_to_range(b, b.len());
    let k = newline_at(b);
    if k < b.len() {
        let t = b.skip(k + 1);
        lines_up_to_enough(t, (b.len() - 1) as nat);
        rest_is_unfinished(t);
        assert(t.skip(complete_len(t)) =~= b.skip(complete_len(b)));
    } else {
        assert(b.skip(0) =~= b);
    }
}

/// Taking lines a few at a time gives the same lines as taking them all at once.
pub proof fn lines_resume(b: Seq<u8>, limit: nat)
    ensures
        0 <= len_up_to(b, limit) <= b.len(),
        complete_lines(b) == lines_up_to(b, limit) + complete_lines(
            b.skip(len_up_to(b, limit)),
        ),
        complete_len(b) == len_up_to(b, limit) + complete_len(b.skip(len_up_to(b, limit))),
    decreases limit,
{
    newline_at_range(b);
    let k = newline_at(b);
    if limit == 0 || k >= b.len() {
        assert(b.skip(0) =~= b);
        assert(seq![] + complete_lines(b) =~= complete_lines(b));
    } else {
        let t = b.skip(k + 1);
        let l = (limit - 1) as nat;
        lines_resume(t, l);
        lines_up_to_enough(t, (b.len() - 1) as nat);
        assert(t.skip(len_up_to(t, l)) =~= b.skip(len_up_to(b, limit)));
        assert(complete_lines(b) =~= lines_up_to(b, limit) + complete_lines(
            b.skip(len_up_to(b, limit)),
        ));
    }
}

/// Bytes that end with a line feed leave nothing unfinished.
pub proof fn ended_is_complete(b: Seq<u8>)
    requires
        b.len() == 0 || b.last() == 10,
    ensures
        complete_len(b) == b.len(),
{
    rest_is_unfinished(b);
    let rest = b.skip(complete_len(b));
    newline_at_range(rest);
    if rest.len() > 0 {
        assert(rest[rest.len() - 1] == b.last());
    }
}

/// The lines that are taken up are the complete lines of the bytes that they take.
pub proof fn lines_of_what_is_taken(b: Seq<u8>, limit: nat)
    ensures
        0 <= len_up_to(b, limit) <= b.len(),
        complete_lines(b.take(len_up_to(b, limit))) == lines_up_to(b, limit),
    decreases limit,
{
    newline_at_range(b);
    len_up_to_range(b, limit);
    let k = newline_at(b);
    let x = b.take(len_up_to(b, limit));
    if limit > 0 && k < b.len() {
        let t = b.skip(k + 1);
        let l = (limit - 1) as nat;
        lines_of_what_is_taken(t, l);
        newline_at_is(x, k);
        assert(x.skip(k + 1) =~= t.take(len_up_to(t, l)));
        assert(x.take(k) =~= b.take(k));
        lines_up_to_enough(x.skip(k + 1), (x.len() - 1) as nat);
    }
}

/// Where the first part ends with a line feed, the lines of the two parts follow one another.
pub proof fn lines_of_ended_parts(a: Seq<u8>, b: Seq<u8>)
    requires
        a.len() == 0 || a.last() == 10,
    ensures
        complete_lines(a + b) == complete_lines(a) + complete_lines(b),
{
    ended_is_complete(a);
    lines_of_parts(a, b);
    assert(a.skip(a.len() as int) + b =~= b);
}

/// A stream cut anywhere gives the lines of its first part, then those of what was
/// left unfinished together with the second part.
pub proof fn lines_of_parts(a: Seq<u8>, b: Seq<u8>)
    ensures
        0 <= complete_len(a) <= a.len(),
        complete_lines(a + b) == complete_lines(a) + complete_lines(a.skip(complete_len(a)) + b),
        complete_len(a + b) == complete_len(a) + complete_len(a.skip(complete_len(a)) + b),
    decreases a.len(),
{
    newline_at_range(a);
    let k = newline_at(a);
    let ab = a + b;
    if k < a.len() {
        newline_at_is(ab, k);
        let t = a.skip(k + 1);
        lines_of_parts(t, b);
        lines_up_to_enough(t, (a.len() - 1) as nat);
        lines_up_to_enough(ab.skip(k + 1), (ab.len() - 1) as nat);
        assert(ab.skip(k + 1) =~= t + b);
        assert(ab.take(k) =~= a.take(k));
        assert(t.skip(complete_len(t)) =~= a.skip(complete_len(a)));
        assert(complete_lines(ab) =~= complete_lines(a) + complete_lines(
            a.skip(complete_len(a)) + b,
        ));
    } else {
        assert(a.skip(0) =~= a);
        assert(seq![] + complete_lines(ab) =~= complete_lines(ab));
    }
}

/// Splits off the complete lines at the start of `buf`, at most `limit` of them, and
/// counts the bytes they take.
pub fn split_lines(buf: &[u8], limit: usize) -> (r: (Vec<String>, usize))
    ensures
        texts(r.0@) == decoded(lines_up_to(buf@, limit as nat)),
        faithful(lines_up_to(buf@, limit as nat), texts(r.0@)),
        r.1 == len_up_to(buf@, limit as nat),
        r.1 <= buf@.len(),
{
    let n: usize = buf.len();
    let mut lines: Vec<String> = Vec::new();
    let mut start: usize = 0;
    let mut i: usize = 0;
    let ghost mut taken_lines = Seq::<Seq<u8>>::empty();
    let ghost wanted = lines_up_to(buf@, limit as nat);
    let ghost all = decoded(wanted);
    proof {
        assert(buf@.skip(0) =~= buf@);
        assert(texts(lines@) + all =~= all);
        assert(taken_lines + wanted =~= wanted);
    }
    while i < n && lines.len() < limit
        invariant
            n == buf@.len(),
            start <= i <= n,
            lines@.len() <= limit,
            i > start ==> lines@.len() < limit,
            forall|j: int| start <= j < i ==> buf@[j] != 10,
            all == decoded(wanted),
            all == texts(lines@) + decoded(
                lines_up_to(buf@.skip(start as int), (limit - lines@.len()) as nat),
            ),
            forall|j: int|
                0 <= j < lines@.len() && valid_utf8(#[trigger] wanted[j]) ==> lines@[j]@
                    == decode_utf8(wanted[j]),
            wanted == taken_lines + lines_up_to(
                buf@.skip(start as int),
                (limit - lines@.len()) as nat,
            ),
            taken_lines.len() == lines@.len(),
            len_up_to(buf@, limit as nat) == start + len_up_to(
                buf@.skip(start as int),
                (limit - lines@.len()) as nat,
            ),
        decreases n - i,
    {
        if buf[i] == 10 {
            let mut end: usize = i;
            if end > start && buf[end - 1] == 13 {
                end = end - 1;
            }
            let line = decode_lossy(slice_subrange(buf, start, end));
            let ghost before = lines@;
            let ghost left = (limit - lines@.len()) as nat;
            lines.push(line);
            proof {
                let rest = buf@.skip(start as int);
                let k = i - start;
                assert forall|j: int| 0 <= j < k implies rest[j] != 10 by {
                    assert(buf@[start + j] != 10);
                }
                newline_at_is(rest, k);
                assert(chomped(rest.take(k)) =~= buf@.subrange(start as int, end as int));
                assert(rest.skip(k + 1) =~= buf@.skip(i + 1));
                let tail = lines_up_to(buf@.skip(i + 1), (left - 1) as nat);
                assert(lines_up_to(rest, left) =~= seq![chomped(rest.take(k))] + tail);
                assert(texts(before) + decoded(seq![chomped(rest.take(k))] + tail) =~= texts(lines@)
                    + decoded(tail));
                let line_bytes = chomped(rest.take(k));
                assert(taken_lines + (seq![line_bytes] + tail) =~= taken_lines.push(line_bytes)
                    + tail);
                assert(wanted[before.len() as int] == line_bytes);
                taken_lines = taken_lines.push(line_bytes);
            }
            start = i + 1;
        }
        i = i + 1;
    }
    proof {
        let rest = buf@.skip(start as int);
        let left = (limit - lines@.len()) as nat;
        if left > 0 {
            newline_at_is(rest, rest.len() as int);
        }
        assert(texts(lines@) + decoded(seq![]) =~= texts(lines@));
        assert(wanted.len() == lines@.len());
        assert forall|j: int| 0 <= j < wanted.len() && valid_utf8(#[trigger] wanted[j]) implies texts(
            lines@,
        )[j] == decode_utf8(wanted[j]) by {
            assert(texts(lines@)[j] == lines@[j]@);
        }
    }
    (lines, start)
}

/// Reassembles lines from a byte stream that arrives in pieces.
pub struct LineBuffer {
    pub pending: Vec<u8>,
}

impl LineBuffer {
    /// A buffer that has seen nothing yet.
    pub fn new() -> (r: LineBuffer)
        ensures
            r.pending@ == Seq::<u8>::empty(),
    {
        LineBuffer { pending: Vec::new() }
    }

    /// Takes in the next piece and hands out the lines that it completes, without their
    /// line ends. An unfinished line waits for the piece that ends it.
    pub fn feed(&mut self, piece: &[u8]) -> (r: Vec<String>)
        ensures
            texts(r@) == decoded(complete_lines(old(self).pending@ + piece@)),
            faithful(complete_lines(old(self).pending@ + piece@), texts(r@)),
            final(self).pending@ == (old(self).pending@ + piece@).skip(
                complete_len(old(self).pending@ + piece@),
            ),
    {
        let mut all: Vec<u8> = Vec::new();
        std::mem::swap(&mut all, &mut self.pending);
        extend_bytes(&mut all, piece);
        let (lines, used) = split_lines(all.as_slice(), all.len());
        let rest = slice_subrange(all.as_slice(), used, all.len());
        extend_bytes(&mut self.pending, rest);
        proof {
            assert(self.pending@ =~= all@.skip(used as int));
        }
        lines
    }
}

/// A stream read in pieces: what the pieces gave so far, and what is still unfinished.
pub open spec fn fed(pieces: Seq<Seq<u8>>) -> (Seq<Seq<u8>>, Seq<u8>)
    decreases pieces.len(),
{
    if pieces.len() == 0 {
        (seq![], seq![])
    } else {
        let (lines, rest) = fed(pieces.drop_last());
        let all = rest + pieces.last();
        (lines + complete_lines(all), all.skip(complete_len(all)))
    }
}

/// However a stream is cut into pieces, the buffer hands out the same lines in the same
/// order, and nothing but the last unfinished line is held back.
pub proof fn pieces_do_not_matter(pieces: Seq<Seq<u8>>)
    ensures
        fed(pieces).0 == complete_lines(pieces.flatten()),
        fed(pieces).1 == pieces.flatten().skip(complete_len(pieces.flatten())),
    decreases pieces.len(),
{
    if pieces.len() == 0 {
        let none = Seq::<u8>::empty();
        assert(pieces.flatten() =~= none);
        assert(complete_lines(none) =~= seq![]);
        assert(none.skip(0) =~= none);
    } else {
        let front = pieces.drop_last().flatten();
        let last = pieces.last();
        pieces_do_not_matter(pieces.drop_last());
        pieces.drop_last().lemma_flatten_push(last);
        assert(pieces.drop_last().push(last) =~= pieces);
        lines_of_parts(front, last);
        let all = front.skip(complete_len(front)) + last;
        rest_is_unfinished(all);
        assert(all.skip(complete_len(all)) =~= (front + last).skip(complete_len(front + last)));
    }
}

/// Appends `more`.
pub fn extend_bytes(out: &mut Vec<u8>, more: &[u8])
    ensures
        final(out)@ == old(out)@ + more@,
{
    out.extend_from_slice(more);
    proof {
        assert(out@ =~= old(out)@ + more@);
    }
}

/// The position of the first line feed of a text, or its length where there is none.
pub open spec fn newline_in(s: Seq<char>) -> nat
    decreases s.len(),
{
    if s.len() == 0 || s[0] == '\n' {
        0
    } else {
        1 + newline_in(s.drop_first())
    }
}

/// A line of text without the carriage return at its end, if it has one.
pub open spec fn chomped_text(line: Seq<char>) -> Seq<char> {
    if line.len() > 0 && line.last() == '\r' {
        line.drop_last()
    } else {
        line
    }
}

/// The lines of a text. A line ends in a line feed, or in a carriage return and a line
/// feed; the last one may end with the text.
pub open spec fn text_lines(s: Seq<char>) -> Seq<Seq<char>>
    decreases s.len(),
{
    let k = newline_in(s) as int;
    if s.len() == 0 {
        seq![]
    } else if k >= s.len() {
        seq![s]
    } else {
        seq![chomped_text(s.take(k))] + text_lines(s.skip(k + 1))
    }
}

proof fn newline_in_is(s: Seq<char>, k: int)
    requires
        0 <= k <= s.len(),
        forall|j: int| 0 <= j < k ==> s[j] != '\n',
        k < s.len() ==> s[k] == '\n',
    ensures
        newline_in(s) == k,
    decreases s.len(),
{
    if s.len() > 0 && k > 0 {
        newline_in_is(s.drop_first(), k - 1);
    }
}

/// The line under construction: what was copied, and a carriage return held back.
spec fn held(cur: Seq<char>, cr: bool) -> Seq<char> {
    if cr {
        cur.push('\r')
    } else {
        cur
    }
}

/// Splits a text into its lines, without their line ends.
pub fn lines_of_text(raw: &str) -> (r: Vec<String>)
    ensures
        texts(r@) == text_lines(raw@),
{
    let mut lines: Vec<String> = Vec::new();
    let mut cur = String::new();
    let mut cr = false;
    let ghost s = raw@;
    proof {
        assert(texts(lines@) =~= seq![]);
        assert(held(cur@, cr) + s.skip(0) =~= s);
        assert(texts(lines@) + text_lines(s) =~= text_lines(s));
    }
    for c in it: raw.chars()
        invariant
            it.seq() == s,
            forall|j: int| 0 <= j < held(cur@, cr).len() ==> held(cur@, cr)[j] != '\n',
            !cr ==> cur@.len() == 0 || cur@.last() != '\r',
            text_lines(s) == texts(lines@) + text_lines(held(cur@, cr) + s.skip(it.index() as int)),
    {
        let ghost i = it.index() as int;
        let ghost line = held(cur@, cr);
        let ghost here = line + s.skip(i);
        let ghost before = lines@;
        proof {
            assert(s.skip(i) =~= seq![c] + s.skip(i + 1));
            assert forall|j: int| 0 <= j < line.len() implies here[j] != '\n' by {
                assert(line[j] != '\n');
            }
        }
        if c == '\n' {
            let mut done = String::new();
            std::mem::swap(&mut done, &mut cur);
            let ghost text = done@;
            lines.push(done);
            cr = false;
            proof {
                newline_in_is(here, line.len() as int);
                assert(here.take(line.len() as int) =~= line);
                assert(here.skip(line.len() as int + 1) =~= s.skip(i + 1));
                assert(chomped_text(line) =~= text);
                assert(held(cur@, cr) + s.skip(i + 1) =~= s.skip(i + 1));
                assert(texts(before) + (seq![chomped_text(line)] + text_lines(s.skip(i + 1)))
                    =~= texts(lines@) + text_lines(s.skip(i + 1)));
            }
        } else {
            if cr {
                cur.push('\r');
            }
            if c == '\r' {
                cr = true;
            } else {
                cr = false;
                cur.push(c);
            }
            proof {
                assert(held(cur@, cr) =~= line.push(c));
                assert(held(cur@, cr) + s.skip(i + 1) =~= here);
            }
        }
    }
    if cr {
        cur.push('\r');
    }
    proof {
        let line = cur@;
        assert(line + s.skip(s.len() as int) =~= line);
        newline_in_is(line, line.len() as int);
    }
    let ghost before = lines@;
    if !cur.as_str().is_empty() {
        lines.push(cur);
        proof {
            assert(texts(lines@) =~= texts(before) + seq![cur@]);
        }
    }
    lines
}

} // verus!
