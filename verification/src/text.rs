//! Text building blocks: comparing, shortening and trimming.
use vstd::prelude::*;
use vstd::string::*;
use vstd::utf8::*;

verus! {

/// `a` and `b` hold the same characters.
pub fn same_text(a: &str, b: &str) -> (r: bool)
    ensures
        r == (a@ == b@),
{
    let x = a.as_bytes();
    let y = b.as_bytes();
    if x.len() != y.len() {
        return false;
    }
    let n: usize = x.len();
    let mut i: usize = 0;
    while i < n
        invariant
            n == x@.len(),
            n == y@.len(),
            i <= n,
            x@ == encode_utf8(a@),
            y@ == encode_utf8(b@),
            forall|j: int| 0 <= j < i ==> x@[j] == y@[j],
        decreases n - i,
    {
        if x[i] != y[i] {
            return false;
        }
        i = i + 1;
    }
    proof {
        assert(x@ =~= y@);
        encode_utf8_decode_utf8(a@);
        encode_utf8_decode_utf8(b@);
    }
    true
}

/// How many leading characters of `s` fit into `n` bytes of UTF-8.
pub open spec fn prefix_len(s: Seq<char>, n: int) -> nat
    decreases s.len(),
{
    if s.len() == 0 || encode_scalar(s[0] as u32).len() > n {
        0
    } else {
        1 + prefix_len(s.drop_first(), n - encode_scalar(s[0] as u32).len())
    }
}

/// `s` where it fits into `n` bytes of UTF-8; else the longest prefix of whole
/// characters that does, followed by an ellipsis.
pub open spec fn truncated(s: Seq<char>, n: int) -> Seq<char> {
    if encode_utf8(s).len() <= n {
        s
    } else {
        s.take(prefix_len(s, n) as int).push('\u{2026}')
    }
}

/// Encoding two texts one after the other is encoding their concatenation.
pub proof fn encode_concat(a: Seq<char>, b: Seq<char>)
    ensures
        encode_utf8(a + b) == encode_utf8(a) + encode_utf8(b),
    decreases a.len(),
{
    if a.len() == 0 {
        assert(a + b =~= b);
        assert(encode_utf8(a) + encode_utf8(b) =~= encode_utf8(b));
    } else {
        encode_concat(a.drop_first(), b);
        assert((a + b).drop_first() =~= a.drop_first() + b);
        assert((a + b)[0] == a[0]);
        assert(encode_utf8(a + b) =~= encode_utf8(a) + encode_utf8(b));
    }
}

/// Where a text is split after `k` characters, the byte position is a character boundary.
proof fn prefix_is_boundary(s: Seq<char>, k: int)
    requires
        0 <= k <= s.len(),
    ensures
        is_char_boundary(encode_utf8(s), encode_utf8(s.take(k)).len() as int),
        encode_utf8(s.take(k)).len() <= encode_utf8(s).len(),
    decreases k,
{
    let bytes = encode_utf8(s);
    encode_utf8_valid_utf8(s);
    encode_concat(s.take(k), s.skip(k));
    assert(s.take(k) + s.skip(k) =~= s);
    if k == 0 {
        assert(s.take(0) =~= Seq::<char>::empty());
    } else {
        encode_utf8_first_scalar(s);
        assert(pop_first_scalar(bytes) =~= encode_utf8(s.drop_first()));
        prefix_is_boundary(s.drop_first(), k - 1);
        assert(s.take(k).drop_first() =~= s.drop_first().take(k - 1));
        assert(s.take(k)[0] == s[0]);
    }
}

/// The length of an encoded prefix, its first character apart.
proof fn first_apart(s: Seq<char>, k: int)
    requires
        0 < k <= s.len(),
    ensures
        encode_utf8(s.take(k)).len() == encode_scalar(s[0] as u32).len() + encode_utf8(
            s.drop_first().take(k - 1),
        ).len(),
{
    assert(s.take(k).drop_first() =~= s.drop_first().take(k - 1));
    assert(s.take(k)[0] == s[0]);
}

/// A prefix that fits and that one more character would overflow is the longest one.
proof fn prefix_len_is(s: Seq<char>, n: int, k: int)
    requires
        0 <= k < s.len(),
        encode_utf8(s.take(k)).len() <= n,
        encode_utf8(s.take(k + 1)).len() > n,
    ensures
        prefix_len(s, n) == k,
    decreases s.len(),
{
    let w = encode_scalar(s[0] as u32).len() as int;
    let t = s.drop_first();
    first_apart(s, k + 1);
    if k == 0 {
        assert(t.take(0) =~= Seq::<char>::empty());
        assert(encode_utf8(t.take(0)).len() == 0);
    } else {
        first_apart(s, k);
        prefix_len_is(t, n - w, k - 1);
        assert(prefix_len(t, n - w) == k - 1);
        assert(w <= n);
    }
}

/// Shortens `s` to at most `n` bytes, marking the cut with an ellipsis.
pub fn truncate(s: &str, n: usize) -> (r: String)
    ensures
        r@ == truncated(s@, n as int),
{
    let total: usize = s.as_bytes().len();
    if total <= n {
        return s.to_owned();
    }
    let ghost bytes = encode_utf8(s@);
    let mut end: usize = n;
    proof {
        encode_utf8_valid_utf8(s@);
        is_char_boundary_start_end_of_seq(bytes);
    }
    while !s.is_char_boundary(end)
        invariant
            end <= n,
            n < bytes.len(),
            bytes == encode_utf8(s@),
            is_char_boundary(bytes, 0),
            forall|j: int| end < j <= n ==> !is_char_boundary(bytes, j),
        decreases end,
    {
        end = end - 1;
    }
    let (head, tail) = s.split_at(end);
    proof {
        let k = head@.len() as int;
        decode_utf8_split(bytes, end as int);
        encode_utf8_decode_utf8(s@);
        encode_utf8_decode_utf8(head@);
        encode_utf8_decode_utf8(tail@);
        assert(s@ =~= head@ + tail@);
        assert(head@ =~= s@.take(k));
        assert(k < s@.len()) by {
            if k == s@.len() {
                assert(s@.take(k) =~= s@);
            }
        }
        prefix_is_boundary(s@, k + 1);
        let next = encode_utf8(s@.take(k + 1)).len() as int;
        assert(next > end) by {
            assert(s@.take(k + 1) =~= s@.take(k) + seq![s@[k]]);
            encode_concat(s@.take(k), seq![s@[k]]);
        }
        prefix_len_is(s@, n as int, k);
    }
    let mut out = head.to_owned();
    out.push('\u{2026}');
    out
}

/// A character with the Unicode White_Space property.
pub open spec fn is_white(c: char) -> bool {
    let u = c as u32;
    ||| 0x09 <= u <= 0x0d
    ||| u == 0x20
    ||| u == 0x85
    ||| u == 0xa0
    ||| u == 0x1680
    ||| 0x2000 <= u <= 0x200a
    ||| u == 0x2028
    ||| u == 0x2029
    ||| u == 0x202f
    ||| u == 0x205f
    ||| u == 0x3000
}

fn white(c: char) -> (r: bool)
    ensures
        r == is_white(c),
{
    let u: u32 = c as u32;
    (0x09 <= u && u <= 0x0d) || u == 0x20 || u == 0x85 || u == 0xa0 || u == 0x1680 || (0x2000 <= u
        && u <= 0x200a) || u == 0x2028 || u == 0x2029 || u == 0x202f || u == 0x205f || u == 0x3000
}

/// `s` without the white space at its start.
pub open spec fn trimmed_start(s: Seq<char>) -> Seq<char>
    decreases s.len(),
{
    if s.len() > 0 && is_white(s[0]) {
        trimmed_start(s.drop_first())
    } else {
        s
    }
}

/// `s` without the white space at its end.
pub open spec fn trimmed_end(s: Seq<char>) -> Seq<char>
    decreases s.len(),
{
    if s.len() > 0 && is_white(s.last()) {
        trimmed_end(s.drop_last())
    } else {
        s
    }
}

/// `s` without the white space at either end.
pub open spec fn trimmed(s: Seq<char>) -> Seq<char> {
    trimmed_end(trimmed_start(s))
}

/// The characters of `s`.
pub fn chars_of(s: &str) -> (r: Vec<char>)
    ensures
        r@ == s@,
{
    let mut v: Vec<char> = Vec::new();
    for c in it: s.chars()
        invariant
            it.seq() == s@,
            v@ == s@.take(it.index() as int),
    {
        v.push(c);
        proof {
            assert(v@ =~= s@.take(it.index() + 1));
        }
    }
    proof {
        assert(s@.take(s@.len() as int) =~= s@);
    }
    v
}

/// The characters from `from` up to `to` as a text.
pub fn text_of(v: &Vec<char>, from: usize, to: usize) -> (r: String)
    requires
        from <= to <= v@.len(),
    ensures
        r@ == v@.subrange(from as int, to as int),
{
    let mut out = String::new();
    let mut i: usize = from;
    proof {
        assert(out@ =~= v@.subrange(from as int, i as int));
    }
    while i < to
        invariant
            from <= i <= to,
            to <= v@.len(),
            out@ == v@.subrange(from as int, i as int),
        decreases to - i,
    {
        out.push(v[i]);
        i = i + 1;
        proof {
            assert(out@ =~= v@.subrange(from as int, i as int));
        }
    }
    out
}

/// `s` without the white space at either end.
pub fn trim(s: &str) -> (r: String)
    ensures
        r@ == trimmed(s@),
{
    let v = chars_of(s);
    let n: usize = v.len();
    let mut i: usize = 0;
    proof {
        assert(s@.skip(0) =~= s@);
    }
    while i < n && white(v[i])
        invariant
            n == v@.len(),
            v@ == s@,
            i <= n,
            trimmed_start(s@.skip(i as int)) == trimmed_start(s@),
        decreases n - i,
    {
        proof {
            assert(s@.skip(i as int).drop_first() =~= s@.skip(i + 1));
        }
        i = i + 1;
    }
    let ghost rest = s@.skip(i as int);
    let mut j: usize = n;
    proof {
        assert(rest =~= s@.subrange(i as int, j as int));
    }
    while j > i && white(v[j - 1])
        invariant
            n == v@.len(),
            v@ == s@,
            i <= j <= n,
            trimmed_end(s@.subrange(i as int, j as int)) == trimmed_end(rest),
        decreases j,
    {
        proof {
            assert(s@.subrange(i as int, j as int).drop_last() =~= s@.subrange(i as int, j - 1));
        }
        j = j - 1;
    }
    text_of(&v, i, j)
}

/// `s` holds nothing but white space.
pub fn is_blank(s: &str) -> (r: bool)
    ensures
        r == (trimmed(s@).len() == 0),
{
    let t = trim(s);
    t.as_str().is_empty()
}

/// `s` without the line feeds at its end.
pub open spec fn without_final_newlines(s: Seq<char>) -> Seq<char>
    decreases s.len(),
{
    if s.len() > 0 && s.last() == '\n' {
        without_final_newlines(s.drop_last())
    } else {
        s
    }
}

/// `s` without the line feeds at its end.
pub fn trim_final_newlines(s: &str) -> (r: String)
    ensures
        r@ == without_final_newlines(s@),
{
    let v = chars_of(s);
    let mut j: usize = v.len();
    proof {
        assert(s@.take(j as int) =~= s@);
    }
    while j > 0 && v[j - 1] == '\n'
        invariant
            v@ == s@,
            j <= v@.len(),
            without_final_newlines(s@.take(j as int)) == without_final_newlines(s@),
        decreases j,
    {
        proof {
            assert(s@.take(j as int).drop_last() =~= s@.take(j - 1));
        }
        j = j - 1;
    }
    text_of(&v, 0, j)
}

/// The texts that a list of strings holds.
pub open spec fn texts(v: Seq<String>) -> Seq<Seq<char>> {
    v.map_values(|s: String| s@)
}

/// The text that an option holds.
pub open spec fn text_option(s: Option<String>) -> Option<Seq<char>> {
    match s {
        Some(t) => Some(t@),
        None => None,
    }
}

/// A copy of the text, if there is one.
pub fn copy_option(s: &Option<String>) -> (r: Option<String>)
    ensures
        text_option(r) == text_option(*s),
{
    match s {
        Some(t) => Some(t.clone()),
        None => None,
    }
}

proof fn prefix_fits(s: Seq<char>, n: int)
    requires
        0 <= n,
    ensures
        prefix_len(s, n) <= s.len(),
        encode_utf8(s.take(prefix_len(s, n) as int)).len() <= n,
    decreases s.len(),
{
    let k = prefix_len(s, n) as int;
    if k == 0 {
        assert(s.take(0) =~= Seq::<char>::empty());
        assert(encode_utf8(s.take(0)).len() == 0);
    } else {
        prefix_fits(s.drop_first(), n - encode_scalar(s[0] as u32).len());
        first_apart(s, k);
    }
}

/// A text that is cut is a prefix of the original within the limit, marked with an ellipsis,
/// and one more character would not have fitted; a text that fits is left alone.
pub proof fn cut_where_needed(s: Seq<char>, n: int)
    requires
        0 <= n,
    ensures
        encode_utf8(s).len() <= n ==> truncated(s, n) == s,
        encode_utf8(s).len() > n ==> {
            let head = truncated(s, n).drop_last();
            let k = head.len() as int;
            &&& truncated(s, n).last() == '\u{2026}'
            &&& k < s.len()
            &&& head == s.take(k)
            &&& encode_utf8(head).len() <= n < encode_utf8(s.take(k + 1)).len()
        },
{
    if encode_utf8(s).len() > n {
        prefix_fits(s, n);
        let k = prefix_len(s, n) as int;
        if k == s.len() {
            assert(s.take(k) =~= s);
        }
        assert(truncated(s, n).drop_last() =~= s.take(k));
        one_more_overflows(s, n);
    }
}

proof fn one_more_overflows(s: Seq<char>, n: int)
    requires
        0 <= n,
        prefix_len(s, n) < s.len(),
    ensures
        encode_utf8(s.take(prefix_len(s, n) as int + 1)).len() > n,
    decreases s.len(),
{
    let k = prefix_len(s, n) as int;
    first_apart(s, k + 1);
    if k > 0 {
        one_more_overflows(s.drop_first(), n - encode_scalar(s[0] as u32).len());
    }
}

} // verus!
