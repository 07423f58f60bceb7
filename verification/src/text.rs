//! Character-level helpers on which the rest of the crate is built.

use vstd::prelude::*;

verus! {

broadcast use vstd::string::group_string_axioms;

/// The character sequences of a list of strings.
pub open spec fn texts(v: Seq<String>) -> Seq<Seq<char>> {
    v.map_values(|s: String| s@)
}

/// The character sequence of an optional string.
pub open spec fn opt_text(o: Option<String>) -> Option<Seq<char>> {
    match o {
        Some(s) => Some(s@),
        None => None,
    }
}

/// Appends one character to a string, as `String::push` does.
#[verifier::external_body]
pub(crate) fn push_char(s: &mut String, c: char)
    ensures
        final(s)@ == old(s)@.push(c),
{
    s.push(c)
}

/// The characters of `s`, in order.
pub fn chars_of(s: &str) -> (out: Vec<char>)
    ensures
        out@ == s@,
{
    let mut out: Vec<char> = Vec::new();
    for c in it: s.chars()
        invariant
            it.seq() == s@,
            out@ == it.seq().take(it.index()),
    {
        out.push(c);
    }
    out
}

/// The string made of the characters `v[from..to]`.
pub fn text_of(v: &Vec<char>, from: usize, to: usize) -> (out: String)
    requires
        from <= to <= v.len(),
    ensures
        out@ == v@.subrange(from as int, to as int),
{
    let mut out = String::new();
    let mut i: usize = from;
    while i < to
        invariant
            from <= i <= to <= v.len(),
            out@ == v@.subrange(from as int, i as int),
        decreases to - i,
    {
        push_char(&mut out, v[i]);
        i += 1;
    }
    out
}

/// The string made of all the characters of `v`.
pub fn string_of(v: &Vec<char>) -> (out: String)
    ensures
        out@ == v@,
{
    let out = text_of(v, 0, v.len());
    assert(v@.subrange(0, v.len() as int) == v@);
    out
}

/// Whether two strings hold the same characters.
pub fn same_text(a: &str, b: &str) -> (same: bool)
    ensures
        same == (a@ == b@),
{
    let x = a.to_owned();
    let y = b.to_owned();
    x == y
}

/// Whether `s` ends with `suffix`.
pub fn has_suffix(s: &str, suffix: &str) -> (found: bool)
    ensures
        found == suffix@.is_suffix_of(s@),
{
    let text = chars_of(s);
    let tail = chars_of(suffix);
    if tail.len() > text.len() {
        return false;
    }
    let offset: usize = text.len() - tail.len();
    let mut i: usize = 0;
    while i < tail.len()
        invariant
            i <= tail.len(),
            offset + tail.len() == text.len(),
            text@ == s@,
            tail@ == suffix@,
            forall|k: int| 0 <= k < i ==> text@[offset + k] == tail@[k],
        decreases tail.len() - i,
    {
        if text[offset + i] != tail[i] {
            assert(text@.subrange(offset as int, text.len() as int)[i as int] != tail@[i as int]);
            return false;
        }
        i += 1;
    }
    assert(text@.subrange(offset as int, text.len() as int) =~= tail@);
    true
}

/// Whether `s` starts with `prefix`.
pub fn has_prefix(s: &str, prefix: &str) -> (found: bool)
    ensures
        found == prefix@.is_prefix_of(s@),
{
    let text = chars_of(s);
    let head = chars_of(prefix);
    if head.len() > text.len() {
        return false;
    }
    let mut i: usize = 0;
    while i < head.len()
        invariant
            i <= head.len() <= text.len(),
            text@ == s@,
            head@ == prefix@,
            forall|k: int| 0 <= k < i ==> text@[k] == head@[k],
        decreases head.len() - i,
    {
        if text[i] != head[i] {
            assert(text@.subrange(0, head.len() as int)[i as int] != head@[i as int]);
            return false;
        }
        i += 1;
    }
    assert(text@.subrange(0, head.len() as int) =~= head@);
    true
}

/// Whether `c` is whitespace: one of the twenty-five characters with the
/// Unicode property White_Space.
pub open spec fn white_space(c: char) -> bool {
    let n = c as u32;
    ||| 0x09 <= n <= 0x0d
    ||| n == 0x20
    ||| n == 0x85
    ||| n == 0xa0
    ||| n == 0x1680
    ||| 0x2000 <= n <= 0x200a
    ||| n == 0x2028
    ||| n == 0x2029
    ||| n == 0x202f
    ||| n == 0x205f
    ||| n == 0x3000
}

/// Whether `c` is whitespace.
pub fn is_white_space(c: char) -> (r: bool)
    ensures
        r == white_space(c),
{
    let n: u32 = c as u32;
    (0x09 <= n && n <= 0x0d) || n == 0x20 || n == 0x85 || n == 0xa0 || n == 0x1680 || (0x2000 <= n
        && n <= 0x200a) || n == 0x2028 || n == 0x2029 || n == 0x202f || n == 0x205f || n == 0x3000
}

/// Whether `s` holds nothing but whitespace.
pub open spec fn blank(s: Seq<char>) -> bool {
    forall|i: int| 0 <= i < s.len() ==> white_space(#[trigger] s[i])
}

/// Whether `s` holds nothing but whitespace.
pub fn is_blank(s: &str) -> (r: bool)
    ensures
        r == blank(s@),
{
    let v = chars_of(s);
    let mut i: usize = 0;
    while i < v.len()
        invariant
            i <= v.len(),
            v@ == s@,
            forall|k: int| 0 <= k < i ==> white_space(#[trigger] v@[k]),
        decreases v.len() - i,
    {
        if !is_white_space(v[i]) {
            return false;
        }
        i += 1;
    }
    true
}

/// `s` without its leading whitespace.
pub open spec fn trim_start(s: Seq<char>) -> Seq<char>
    decreases s.len(),
{
    if s.len() > 0 && white_space(s.first()) {
        trim_start(s.drop_first())
    } else {
        s
    }
}

/// `s` without its trailing whitespace.
pub open spec fn trim_end(s: Seq<char>) -> Seq<char>
    decreases s.len(),
{
    if s.len() > 0 && white_space(s.last()) {
        trim_end(s.drop_last())
    } else {
        s
    }
}

/// `s` without its leading and trailing whitespace.
pub open spec fn trimmed(s: Seq<char>) -> Seq<char> {
    trim_end(trim_start(s))
}

/// Trimming leaves nothing exactly when there was only whitespace, and
/// what it leaves neither starts nor ends with whitespace.
pub proof fn lemma_trimmed(s: Seq<char>)
    ensures
        trimmed(s).len() == 0 <==> blank(s),
        trimmed(s).len() > 0 ==> !white_space(trimmed(s).first()) && !white_space(
            trimmed(s).last(),
        ),
        trimmed(s).len() > 0 ==> !blank(trimmed(s)),
{
    lemma_trim_start(s);
    lemma_trim_end(trim_start(s));
    let t = trimmed(s);
    if t.len() > 0 {
        assert(!white_space(t[t.len() - 1]));
    }
}

proof fn lemma_trim_start(s: Seq<char>)
    ensures
        trim_start(s).len() == 0 <==> blank(s),
        trim_start(s).len() > 0 ==> !white_space(trim_start(s).first()),
    decreases s.len(),
{
    if s.len() > 0 && white_space(s.first()) {
        let rest = s.drop_first();
        lemma_trim_start(rest);
        if blank(rest) {
            assert forall|i: int| 0 <= i < s.len() implies white_space(#[trigger] s[i]) by {
                if i > 0 {
                    assert(rest[i - 1] == s[i]);
                }
            }
        } else {
            let k = choose|k: int| 0 <= k < rest.len() && !white_space(rest[k]);
            assert(!white_space(s[k + 1]));
        }
    } else if s.len() > 0 {
        assert(!white_space(s[0]));
    }
}

proof fn lemma_trim_end(s: Seq<char>)
    ensures
        trim_end(s).len() == 0 <==> blank(s),
        trim_end(s).len() > 0 ==> !white_space(trim_end(s).last()),
        trim_end(s).len() > 0 ==> trim_end(s).first() == s.first(),
    decreases s.len(),
{
    if s.len() > 0 && white_space(s.last()) {
        let rest = s.drop_last();
        lemma_trim_end(rest);
        if blank(rest) {
            assert forall|i: int| 0 <= i < s.len() implies white_space(#[trigger] s[i]) by {
                if i < s.len() - 1 {
                    assert(rest[i] == s[i]);
                }
            }
        } else {
            let k = choose|k: int| 0 <= k < rest.len() && !white_space(rest[k]);
            assert(!white_space(s[k]));
        }
    } else if s.len() > 0 {
        assert(!white_space(s[s.len() - 1]));
    }
}

/// `s` without its leading and trailing whitespace.
pub fn trim(s: &str) -> (out: String)
    ensures
        out@ == trimmed(s@),
{
    let v = chars_of(s);
    let n: usize = v.len();
    let mut a: usize = 0;
    assert(v@.subrange(0, n as int) =~= v@);
    while a < n && is_white_space(v[a])
        invariant
            a <= n == v.len(),
            trim_start(v@) == trim_start(v@.subrange(a as int, n as int)),
        decreases n - a,
    {
        assert(v@.subrange(a as int, n as int).drop_first() =~= v@.subrange(a + 1, n as int));
        a += 1;
    }
    assert(trim_start(v@) == v@.subrange(a as int, n as int));
    let mut b: usize = n;
    while b > a && is_white_space(v[b - 1])
        invariant
            a <= b <= n == v.len(),
            trimmed(v@) == trim_end(v@.subrange(a as int, b as int)),
        decreases b,
    {
        assert(v@.subrange(a as int, b as int).drop_last() =~= v@.subrange(a as int, b - 1));
        b -= 1;
    }
    text_of(&v, a, b)
}

/// The start of `s` up to its first `sep`: all of `s` if it holds none.
pub open spec fn first_piece(s: Seq<char>, sep: char) -> Seq<char>
    decreases s.len(),
{
    if s.len() == 0 || s.first() == sep {
        Seq::empty()
    } else {
        seq![s.first()] + first_piece(s.drop_first(), sep)
    }
}

/// The pieces into which the occurrences of `sep` cut `s`, in order, the
/// empty pieces left out.
pub open spec fn pieces(s: Seq<char>, sep: char) -> Seq<Seq<char>>
    decreases s.len(),
{
    let head = first_piece(s, sep);
    if s.len() == 0 {
        Seq::empty()
    } else if head.len() >= s.len() {
        seq![head]
    } else if head.len() == 0 {
        pieces(s.skip(1), sep)
    } else {
        seq![head] + pieces(s.skip(head.len() as int + 1), sep)
    }
}

proof fn lemma_first_piece(cur: Seq<char>, rest: Seq<char>, sep: char)
    requires
        !cur.contains(sep),
    ensures
        first_piece(cur + rest, sep) == cur + first_piece(rest, sep),
        first_piece(cur + rest, sep).len() <= (cur + rest).len(),
    decreases cur.len(),
{
    lemma_first_piece_len(rest, sep);
    if cur.len() == 0 {
        assert(cur + rest =~= rest);
        assert(cur + first_piece(rest, sep) =~= first_piece(rest, sep));
    } else {
        let tail = cur.drop_first();
        assert(cur[0] != sep) by {
            if cur[0] == sep {
                assert(cur.contains(sep));
            }
        }
        assert(!tail.contains(sep)) by {
            if tail.contains(sep) {
                let k = choose|k: int| 0 <= k < tail.len() && tail[k] == sep;
                assert(cur[k + 1] == sep);
            }
        }
        lemma_first_piece(tail, rest, sep);
        assert((cur + rest).drop_first() =~= tail + rest);
        assert(seq![cur[0]] + (tail + first_piece(rest, sep)) =~= cur + first_piece(rest, sep));
    }
}

proof fn lemma_first_piece_len(s: Seq<char>, sep: char)
    ensures
        first_piece(s, sep).len() <= s.len(),
        first_piece(s, sep).len() < s.len() ==> s[first_piece(s, sep).len() as int] == sep,
    decreases s.len(),
{
    if s.len() > 0 && s.first() != sep {
        lemma_first_piece_len(s.drop_first(), sep);
    }
}

/// Cuts `s` at every `sep` and keeps the pieces that are not empty.
pub fn split_nonempty(s: &str, sep: char) -> (out: Vec<String>)
    ensures
        texts(out@) == pieces(s@, sep),
{
    let v = chars_of(s);
    let n: usize = v.len();
    let mut out: Vec<String> = Vec::new();
    let mut start: usize = 0;
    let mut i: usize = 0;
    assert(v@.subrange(0, 0) + v@.skip(0) =~= v@);
    assert(texts(out@) + pieces(v@, sep) =~= pieces(v@, sep));
    while i < n
        invariant
            start <= i <= n == v.len(),
            v@ == s@,
            !v@.subrange(start as int, i as int).contains(sep),
            pieces(s@, sep) == texts(out@) + pieces(
                v@.subrange(start as int, i as int) + v@.skip(i as int),
                sep,
            ),
        decreases n - i,
    {
        let ghost cur = v@.subrange(start as int, i as int);
        let ghost rest = v@.skip(i as int);
        if v[i] == sep {
            proof {
                lemma_first_piece(cur, rest, sep);
                assert(first_piece(rest, sep) =~= Seq::<char>::empty());
                assert(cur + Seq::<char>::empty() =~= cur);
                assert((cur + rest).skip(cur.len() as int + 1) =~= v@.skip(i + 1));
                assert(v@.subrange(i + 1, i + 1) + v@.skip(i + 1) =~= v@.skip(i + 1));
            }
            if start < i {
                let ghost before = texts(out@);
                out.push(text_of(&v, start, i));
                assert(texts(out@) =~= before + seq![cur]);
                assert(texts(out@) + pieces(v@.skip(i + 1), sep) =~= before + (seq![cur] + pieces(
                    v@.skip(i + 1),
                    sep,
                )));
            } else {
                assert((cur + rest).skip(1) =~= v@.skip(i + 1));
            }
            start = i + 1;
        } else {
            proof {
                let next = v@.subrange(start as int, i + 1);
                assert(next + v@.skip(i + 1) =~= cur + rest);
                assert(!next.contains(sep)) by {
                    if next.contains(sep) {
                        let k = choose|k: int| 0 <= k < next.len() && next[k] == sep;
                        if k < cur.len() {
                            assert(cur[k] == sep);
                        }
                    }
                }
            }
        }
        i += 1;
    }
    let ghost cur = v@.subrange(start as int, n as int);
    proof {
        assert(cur + v@.skip(n as int) =~= cur);
        lemma_first_piece(cur, Seq::<char>::empty(), sep);
        assert(cur + Seq::<char>::empty() =~= cur);
    }
    if start < n {
        let ghost before = texts(out@);
        out.push(text_of(&v, start, n));
        assert(texts(out@) =~= before + seq![cur]);
    } else {
        assert(texts(out@) + Seq::<Seq<char>>::empty() =~= texts(out@));
    }
    out
}

/// Whether `a` comes no later than `b` when strings are ordered as std
/// orders them: character by character from the left by code point, a
/// string before any longer one that starts with it.
pub open spec fn lex_le(a: Seq<char>, b: Seq<char>) -> bool
    decreases a.len(),
{
    if a.len() == 0 {
        true
    } else if b.len() == 0 {
        false
    } else if a.first() == b.first() {
        lex_le(a.drop_first(), b.drop_first())
    } else {
        (a.first() as u32) < (b.first() as u32)
    }
}

/// Whether the strings of `t` stand in ascending order.
pub open spec fn ascending(t: Seq<Seq<char>>) -> bool {
    forall|i: int, j: int| 0 <= i < j < t.len() ==> lex_le(#[trigger] t[i], #[trigger] t[j])
}

/// Sorts strings with `Itertools::sorted`, which collects them and calls
/// `slice::sort`: the result holds the same strings, each as often as
/// before, in the ascending order of `Ord` for `String`.
#[verifier::external_body]
pub(crate) fn sorted(v: Vec<String>) -> (out: Vec<String>)
    ensures
        ascending(texts(out@)),
        texts(out@).to_multiset() == texts(v@).to_multiset(),
{
    itertools::Itertools::sorted(v.into_iter()).collect()
}

/// How `{:?}` prints an optional string.
pub uninterp spec fn option_debug(o: Option<Seq<char>>) -> Seq<char>;

/// Formats an optional string with `{:?}`, the `Debug` of `Option<String>`.
#[verifier::external_body]
pub(crate) fn debug_text(o: &Option<String>) -> (out: String)
    ensures
        out@ == option_debug(opt_text(*o)),
{
    format!("{:?}", o)
}

/// A copy of an optional string.
pub fn clone_opt_text(o: &Option<String>) -> (out: Option<String>)
    ensures
        opt_text(out) == opt_text(*o),
{
    match o {
        Some(s) => Some(s.clone()),
        None => None,
    }
}

/// A copy of a list of strings.
pub fn clone_texts(v: &Vec<String>) -> (out: Vec<String>)
    ensures
        texts(out@) == texts(v@),
{
    let mut out: Vec<String> = Vec::new();
    let mut i: usize = 0;
    while i < v.len()
        invariant
            i <= v.len(),
            out.len() == i,
            forall|k: int| 0 <= k < i ==> out@[k]@ == v@[k]@,
        decreases v.len() - i,
    {
        out.push(v[i].clone());
        i += 1;
    }
    assert(texts(out@) =~= texts(v@));
    out
}

} // verus!
