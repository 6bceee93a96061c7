//! Reading a growing log a piece at a time.
use vstd::prelude::*;
use vstd::string::*;

use crate::lines::complete_len;
use crate::lines::complete_lines;
use crate::lines::decoded;
use crate::lines::faithful;
use crate::lines::len_up_to;
use crate::lines::len_up_to_range;
use crate::lines::lines_end_at_newline;
use crate::lines::lines_of_parts;
use crate::lines::lines_resume;
use crate::lines::lines_up_to;
use crate::lines::newline_at;
use crate::lines::newline_at_range;
use crate::lines::split_lines;
use crate::text::texts;

verus! {

/// The most lines that are taken up at a time.
pub const MAX_CHUNK_LINES: usize = 5_000;

/// The most bytes that are read at a time.
pub const MAX_CHUNK_BYTES: u64 = 8_388_608;

/// A piece of a log.
pub struct Chunk {
    /// Its complete lines.
    pub lines: Vec<String>,
    /// Where to go on.
    pub new_offset: u64,
    /// How large the file was; less than the offset where it was truncated.
    pub file_size: u64,
}

/// How many bytes to read of a file of this size, from this offset on.
pub open spec fn wanted(offset: int, size: int) -> int {
    if size <= offset {
        0
    } else if size - offset <= MAX_CHUNK_BYTES {
        size - offset
    } else {
        MAX_CHUNK_BYTES as int
    }
}

/// How many bytes to read of a file of this size, from this offset on.
pub fn bytes_to_read(offset: u64, size: u64) -> (r: u32)
    ensures
        r == wanted(offset as int, size as int),
{
    if size <= offset {
        0
    } else if size - offset <= MAX_CHUNK_BYTES {
        (size - offset) as u32
    } else {
        MAX_CHUNK_BYTES as u32
    }
}

/// The complete lines among the bytes that were read at `offset` of a file of this size; an
/// unfinished line at the end is left for the next time.
pub fn chunk_of(buf: &[u8], offset: u64, size: u64) -> (r: Chunk)
    requires
        buf@.len() <= wanted(offset as int, size as int),
    ensures
        texts(r.lines@) == decoded(lines_up_to(buf@, MAX_CHUNK_LINES as nat)),
        faithful(lines_up_to(buf@, MAX_CHUNK_LINES as nat), texts(r.lines@)),
        r.new_offset == offset + len_up_to(buf@, MAX_CHUNK_LINES as nat),
        r.file_size == size,
        offset <= r.new_offset <= offset + buf@.len(),
        r.lines@.len() <= MAX_CHUNK_LINES,
        r.lines@.len() == 0 <==> r.new_offset == offset,
{
    let (lines, used): (Vec<String>, usize) = split_lines(buf, MAX_CHUNK_LINES);
    proof {
        len_up_to_range(buf@, MAX_CHUNK_LINES as nat);
        assert(texts(lines@).len() == lines@.len());
    }
    Chunk { lines, new_offset: offset + used as u64, file_size: size }
}

/// The `n` bytes of a file at an offset.
pub open spec fn window(file: Seq<u8>, offset: int, n: int) -> Seq<u8> {
    file.subrange(offset, offset + n)
}

/// After a piece was taken up, the file goes on at the offset where it began or just past a
/// line feed.
pub proof fn chunks_end_at_newline(file: Seq<u8>, offset: int, n: int)
    requires
        0 <= offset,
        0 <= n,
        offset + n <= file.len(),
    ensures
        ({
            let next = offset + len_up_to(window(file, offset, n), MAX_CHUNK_LINES as nat);
            offset <= next <= offset + n && (next == offset || file[next - 1] == 10)
        }),
{
    lines_end_at_newline(window(file, offset, n), MAX_CHUNK_LINES as nat);
}

/// Taking up a piece moves on whenever the bytes that were read hold a line feed.
pub proof fn chunks_make_progress(file: Seq<u8>, offset: int, n: int, at: int)
    requires
        0 <= offset <= at < offset + n <= file.len(),
        file[at] == 10,
    ensures
        len_up_to(window(file, offset, n), MAX_CHUNK_LINES as nat) > 0,
{
    let w = window(file, offset, n);
    assert(w[at - offset] == 10);
    newline_at_range(w);
    let k = newline_at(w);
    lines_end_at_newline(w.skip(k + 1), (MAX_CHUNK_LINES - 1) as nat);
}

/// What is taken up while pieces of these lengths are read one after the other, and where the
/// reading then goes on.
pub open spec fn taken(file: Seq<u8>, offset: int, reads: Seq<int>) -> (Seq<Seq<u8>>, int)
    decreases reads.len(),
{
    if reads.len() == 0 {
        (seq![], offset)
    } else {
        let (before, at) = taken(file, offset, reads.drop_last());
        let w = window(file, at, reads.last());
        (
            before + lines_up_to(w, MAX_CHUNK_LINES as nat),
            at + len_up_to(w, MAX_CHUNK_LINES as nat),
        )
    }
}

/// Every read stays within the file.
pub open spec fn reads_within(file: Seq<u8>, offset: int, reads: Seq<int>) -> bool
    decreases reads.len(),
{
    reads.len() == 0 || (reads_within(file, offset, reads.drop_last()) && 0 <= reads.last()
        && taken(file, offset, reads.drop_last()).1 + reads.last() <= file.len())
}

/// Reading a log in pieces loses no line, changes none and reads none twice: however the reads
/// fall, the lines taken up so far, followed by the lines of what is not read yet, are the
/// lines of the log.
pub proof fn reading_in_pieces(file: Seq<u8>, offset: int, reads: Seq<int>)
    requires
        0 <= offset <= file.len(),
        reads_within(file, offset, reads),
    ensures
        ({
            let (got, at) = taken(file, offset, reads);
            &&& offset <= at <= file.len()
            &&& complete_lines(file.skip(offset)) == got + complete_lines(file.skip(at))
        }),
    decreases reads.len(),
{
    if reads.len() == 0 {
        assert(Seq::<Seq<u8>>::empty() + complete_lines(file.skip(offset)) =~= complete_lines(
            file.skip(offset),
        ));
    } else {
        reading_in_pieces(file, offset, reads.drop_last());
        let (got, at) = taken(file, offset, reads.drop_last());
        let n = reads.last();
        one_piece(file, at, n);
        let w = window(file, at, n);
        let more = lines_up_to(w, MAX_CHUNK_LINES as nat);
        let next = at + len_up_to(w, MAX_CHUNK_LINES as nat);
        assert(got + (more + complete_lines(file.skip(next))) =~= (got + more) + complete_lines(
            file.skip(next),
        ));
    }
}

proof fn one_piece(file: Seq<u8>, at: int, n: int)
    requires
        0 <= at,
        0 <= n,
        at + n <= file.len(),
    ensures
        ({
            let w = window(file, at, n);
            let used = len_up_to(w, MAX_CHUNK_LINES as nat);
            &&& 0 <= used <= n
            &&& complete_lines(file.skip(at)) == lines_up_to(w, MAX_CHUNK_LINES as nat)
                + complete_lines(file.skip(at + used))
        }),
{
    let limit = MAX_CHUNK_LINES as nat;
    let w = window(file, at, n);
    let rest = file.skip(at + n);
    lines_resume(w, limit);
    let used = len_up_to(w, limit);
    let head = lines_up_to(w, limit);
    let v = w.skip(used);
    // `w` and what follows it, then `v` and what follows it.
    lines_of_parts(w, rest);
    lines_of_parts(v, rest);
    assert(w + rest =~= file.skip(at));
    assert(v + rest =~= file.skip(at + used));
    let u = complete_len(v);
    assert(v.skip(u) =~= w.skip(complete_len(w)));
    let tail = complete_lines(v.skip(u) + rest);
    assert((head + complete_lines(v)) + tail =~= head + (complete_lines(v) + tail));
}

} // verus!
