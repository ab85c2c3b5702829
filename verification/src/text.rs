//! Text as sequences of characters: the splitting, trimming and number rules
//! that the rest of the library is stated in.

use vstd::prelude::*;

verus! {

/// `String::push` appends one character.
pub assume_specification[ String::push ](s: &mut String, c: char)
    ensures
        final(s)@ == old(s)@.push(c),
;

// ---------------------------------------------------------------------------
// lists of texts
// ---------------------------------------------------------------------------
/// The texts that a list of strings holds.
pub open spec fn texts(list: Seq<String>) -> Seq<Seq<char>> {
    Seq::new(list.len(), |i: int| list[i]@)
}

pub broadcast proof fn lemma_texts_push(list: Seq<String>, s: String)
    ensures
        #[trigger] texts(list.push(s)) == texts(list).push(s@),
{
    assert(texts(list.push(s)) =~= texts(list).push(s@));
}

/// The texts that a list of string slices holds.
pub open spec fn words_of(list: Seq<&str>) -> Seq<Seq<char>> {
    Seq::new(list.len(), |i: int| list[i]@)
}

/// Strings of their own for a list of string slices.
pub fn words(list: &[&str]) -> (r: Vec<String>)
    ensures
        texts(r@) == words_of(list@),
{
    let mut r: Vec<String> = Vec::new();
    let mut i: usize = 0;
    while i < list.len()
        invariant
            i <= list@.len(),
            texts(r@) == words_of(list@.take(i as int)),
        decreases list@.len() - i,
    {
        let word = list[i].to_owned();
        proof {
            lemma_texts_push(r@, word);
        }
        r.push(word);
        i += 1;
        assert(words_of(list@.take(i as int)) =~= words_of(list@.take(i - 1)).push(list@[i - 1]@));
    }
    assert(list@.take(i as int) =~= list@);
    r
}

/// Appends the strings of `more` to `list`.
pub fn extend(list: &mut Vec<String>, more: &Vec<String>)
    ensures
        texts(final(list)@) == texts(old(list)@) + texts(more@),
{
    let ghost before = texts(list@);
    let mut i: usize = 0;
    assert(before + texts(more@).take(0) =~= before);
    while i < more.len()
        invariant
            i <= more@.len(),
            texts(list@) == before + texts(more@).take(i as int),
        decreases more@.len() - i,
    {
        proof {
            lemma_texts_push(list@, more@[i as int]);
            assert(texts(more@).take(i + 1) =~= texts(more@).take(i as int).push(more@[i as int]@));
        }
        list.push(more[i].clone());
        i += 1;
        assert(texts(list@) =~= before + texts(more@).take(i as int));
    }
    assert(texts(more@).take(i as int) =~= texts(more@));
}

/// The characters of a string, as a vector that can be indexed.
pub fn to_chars(s: &str) -> (r: Vec<char>)
    ensures
        r@ == s@,
{
    let mut r: Vec<char> = Vec::new();
    for c in it: s.chars()
        invariant
            r@ == it.seq().take(it.index()),
            it.seq() == s@,
    {
        r.push(c);
        assert(it.seq().take(it.index() + 1) =~= it.seq().take(it.index()).push(c));
    }
    assert(s@.take(s@.len() as int) =~= s@);
    r
}

/// The string made of the characters `lo..hi`.
pub fn from_chars(v: &Vec<char>, lo: usize, hi: usize) -> (r: String)
    requires
        lo <= hi <= v@.len(),
    ensures
        r@ == v@.subrange(lo as int, hi as int),
{
    let mut r = String::new();
    let mut i: usize = lo;
    while i < hi
        invariant
            lo <= i <= hi <= v@.len(),
            r@ == v@.subrange(lo as int, i as int),
        decreases hi - i,
    {
        r.push(v[i]);
        i += 1;
        assert(v@.subrange(lo as int, i as int) =~= v@.subrange(lo as int, i - 1).push(v@[i - 1]));
    }
    r
}

/// Whether two texts are the same.
pub fn same(a: &str, b: &str) -> (r: bool)
    ensures
        r == (a@ == b@),
{
    let x = to_chars(a);
    let y = to_chars(b);
    if x.len() != y.len() {
        return false;
    }
    let mut i: usize = 0;
    while i < x.len()
        invariant
            i <= x@.len(),
            x@.len() == y@.len(),
            x@.take(i as int) == y@.take(i as int),
            x@ == a@,
            y@ == b@,
        decreases x@.len() - i,
    {
        if x[i] != y[i] {
            return false;
        }
        i += 1;
        assert(x@.take(i as int) =~= x@.take(i - 1).push(x@[i - 1]));
        assert(y@.take(i as int) =~= y@.take(i - 1).push(y@[i - 1]));
    }
    assert(x@.take(i as int) =~= x@);
    assert(y@.take(i as int) =~= y@);
    true
}

/// Whether two lists hold the same texts in the same order.
pub fn same_list(a: &Vec<String>, b: &Vec<String>) -> (r: bool)
    ensures
        r == (texts(a@) == texts(b@)),
{
    if a.len() != b.len() {
        assert(texts(a@).len() != texts(b@).len());
        return false;
    }
    let mut i: usize = 0;
    while i < a.len()
        invariant
            i <= a@.len(),
            a@.len() == b@.len(),
            forall|k: int| 0 <= k < i ==> #[trigger] a@[k]@ == b@[k]@,
        decreases a@.len() - i,
    {
        if !same(a[i].as_str(), b[i].as_str()) {
            assert(texts(a@)[i as int] != texts(b@)[i as int]);
            return false;
        }
        i += 1;
    }
    assert(texts(a@) =~= texts(b@));
    true
}

/// Whether `s` begins with `prefix`.
pub open spec fn begins(s: Seq<char>, prefix: Seq<char>) -> bool {
    prefix.len() <= s.len() && s.take(prefix.len() as int) == prefix
}

/// What follows `prefix` in a text that begins with it.
pub open spec fn strip(s: Seq<char>, prefix: Seq<char>) -> Option<Seq<char>> {
    if begins(s, prefix) {
        Some(s.skip(prefix.len() as int))
    } else {
        None
    }
}

pub fn strip_prefix(s: &str, prefix: &str) -> (r: Option<String>)
    ensures
        match r {
            Some(rest) => strip(s@, prefix@) == Some(rest@),
            None => strip(s@, prefix@) is None,
        },
{
    let x = to_chars(s);
    let p = to_chars(prefix);
    if p.len() > x.len() {
        return None;
    }
    let mut i: usize = 0;
    while i < p.len()
        invariant
            i <= p@.len() <= x@.len(),
            x@.take(i as int) == p@.take(i as int),
            x@ == s@,
            p@ == prefix@,
        decreases p@.len() - i,
    {
        if x[i] != p[i] {
            proof {
                assert(x@.take(p@.len() as int)[i as int] != p@[i as int]);
            }
            return None;
        }
        i += 1;
        assert(x@.take(i as int) =~= x@.take(i - 1).push(x@[i - 1]));
        assert(p@.take(i as int) =~= p@.take(i - 1).push(p@[i - 1]));
    }
    assert(p@.take(i as int) =~= p@);
    assert(x@.skip(i as int) =~= x@.subrange(i as int, x@.len() as int));
    Some(from_chars(&x, i, x.len()))
}

pub fn starts_with(s: &str, prefix: &str) -> (r: bool)
    ensures
        r == begins(s@, prefix@),
{
    strip_prefix(s, prefix).is_some()
}

/// Where `c` first occurs in `s`, or the length of `s` where it does not.
pub open spec fn position(s: Seq<char>, c: char) -> int
    decreases s.len(),
{
    if s.len() == 0 || s[0] == c {
        0
    } else {
        1 + position(s.drop_first(), c)
    }
}

/// `position` is the first place that holds `c`.
pub proof fn lemma_position(s: Seq<char>, c: char)
    ensures
        0 <= position(s, c) <= s.len(),
        forall|i: int| 0 <= i < position(s, c) ==> s[i] != c,
        position(s, c) < s.len() ==> s[position(s, c)] == c,
    decreases s.len(),
{
    if s.len() > 0 && s[0] != c {
        lemma_position(s.drop_first(), c);
        assert forall|i: int| 0 <= i < position(s, c) implies s[i] != c by {
            if i > 0 {
                assert(s[i] == s.drop_first()[i - 1]);
            }
        }
    }
}

/// The first place that holds `c` is `position`.
pub proof fn lemma_position_is(s: Seq<char>, c: char, k: int)
    requires
        0 <= k <= s.len(),
        forall|i: int| 0 <= i < k ==> s[i] != c,
        k < s.len() ==> s[k] == c,
    ensures
        position(s, c) == k,
{
    lemma_position(s, c);
    let p = position(s, c);
    if p < k {
        assert(s[p] != c);
    }
    if k < p {
        assert(s[k] != c);
    }
}

pub fn find_char(v: &Vec<char>, from: usize, c: char) -> (r: usize)
    requires
        from <= v@.len(),
    ensures
        from <= r <= v@.len(),
        r - from == position(v@.skip(from as int), c),
        forall|i: int| from <= i < r ==> v@[i] != c,
        r < v@.len() ==> v@[r as int] == c,
{
    let mut i: usize = from;
    while i < v.len() && v[i] != c
        invariant
            from <= i <= v@.len(),
            forall|j: int| from <= j < i ==> v@[j] != c,
        decreases v@.len() - i,
    {
        i += 1;
    }
    proof {
        lemma_position_is(v@.skip(from as int), c, i - from);
    }
    i
}

// ---------------------------------------------------------------------------
// lines and pieces
// ---------------------------------------------------------------------------
/// A line without the carriage return before its line feed.
pub open spec fn chomp(line: Seq<char>) -> Seq<char> {
    if line.len() > 0 && line.last() == '\r' {
        line.drop_last()
    } else {
        line
    }
}

/// The lines of a text: each ends in a line feed or in a carriage return and a
/// line feed, and the last may have no end.
pub open spec fn lines_of(s: Seq<char>) -> Seq<Seq<char>>
    decreases s.len(),
{
    proof {
        lemma_position(s, '\n');
    }
    let k = position(s, '\n');
    if s.len() == 0 {
        Seq::empty()
    } else if k == s.len() {
        seq![s]
    } else {
        seq![chomp(s.take(k))] + lines_of(s.skip(k + 1))
    }
}

/// The pieces of a text between the places that hold `c`: one more than there
/// are such places.
pub open spec fn pieces_of(s: Seq<char>, c: char) -> Seq<Seq<char>>
    decreases s.len(),
{
    proof {
        lemma_position(s, c);
    }
    let k = position(s, c);
    if k == s.len() {
        seq![s]
    } else {
        seq![s.take(k)] + pieces_of(s.skip(k + 1), c)
    }
}

pub fn lines(s: &str) -> (r: Vec<String>)
    ensures
        texts(r@) == lines_of(s@),
{
    let v = to_chars(s);
    let mut r: Vec<String> = Vec::new();
    let mut from: usize = 0;
    assert(v@.skip(0) =~= v@);
    assert(texts(r@) + lines_of(v@.skip(0)) =~= lines_of(v@));
    while from < v.len()
        invariant
            from <= v@.len(),
            v@ == s@,
            texts(r@) + lines_of(v@.skip(from as int)) == lines_of(v@),
        decreases v@.len() - from,
    {
        let to = find_char(&v, from, '\n');
        let ghost rest = v@.skip(from as int);
        let ghost before = texts(r@);
        proof {
            lemma_position(rest, '\n');
        }
        if to == v.len() {
            let last = from_chars(&v, from, to);
            assert(last@ =~= rest);
            proof {
                lemma_texts_push(r@, last);
            }
            r.push(last);
            assert(texts(r@) =~= before + lines_of(rest));
            return r;
        }
        let end: usize = if from < to && v[to - 1] == '\r' {
            to - 1
        } else {
            to
        };
        let line = from_chars(&v, from, end);
        proof {
            let raw = rest.take(to - from);
            assert(line@ =~= chomp(raw));
            assert(rest.skip(to - from + 1) =~= v@.skip(to + 1));
            lemma_texts_push(r@, line);
            assert(lines_of(rest) == seq![line@] + lines_of(v@.skip(to + 1)));
            assert(before + lines_of(rest) =~= before.push(line@) + lines_of(v@.skip(to + 1)));
        }
        r.push(line);
        from = to + 1;
    }
    assert(v@.skip(from as int).len() == 0);
    assert(texts(r@) + lines_of(v@.skip(from as int)) =~= texts(r@));
    r
}

pub fn pieces(s: &str, c: char) -> (r: Vec<String>)
    ensures
        texts(r@) == pieces_of(s@, c),
{
    let v = to_chars(s);
    let mut r: Vec<String> = Vec::new();
    let mut from: usize = 0;
    assert(v@.skip(0) =~= v@);
    assert(texts(r@) + pieces_of(v@.skip(0), c) =~= pieces_of(v@, c));
    loop
        invariant
            from <= v@.len(),
            v@ == s@,
            texts(r@) + pieces_of(v@.skip(from as int), c) == pieces_of(v@, c),
        decreases v@.len() - from,
    {
        let to = find_char(&v, from, c);
        let ghost rest = v@.skip(from as int);
        let ghost before = texts(r@);
        proof {
            lemma_position(rest, c);
        }
        let piece = from_chars(&v, from, to);
        proof {
            lemma_texts_push(r@, piece);
            assert(piece@ =~= rest.take(to - from));
        }
        r.push(piece);
        if to == v.len() {
            assert(rest.take(to - from) =~= rest);
            assert(texts(r@) =~= before + pieces_of(rest, c));
            return r;
        }
        proof {
            assert(rest.skip(to - from + 1) =~= v@.skip(to + 1));
            assert(pieces_of(rest, c) == seq![piece@] + pieces_of(v@.skip(to + 1), c));
            assert(before + pieces_of(rest, c) =~= texts(r@) + pieces_of(v@.skip(to + 1), c));
        }
        from = to + 1;
    }
}

/// The parts with `sep` between each two.
pub open spec fn joined(parts: Seq<Seq<char>>, sep: Seq<char>) -> Seq<char>
    decreases parts.len(),
{
    if parts.len() == 0 {
        Seq::empty()
    } else if parts.len() == 1 {
        parts[0]
    } else {
        joined(parts.drop_last(), sep) + sep + parts.last()
    }
}

pub fn join(parts: &Vec<String>, sep: &str) -> (r: String)
    ensures
        r@ == joined(texts(parts@), sep@),
{
    let mut r = String::new();
    let ghost all = texts(parts@);
    let mut i: usize = 0;
    assert(all.take(0) =~= Seq::empty());
    while i < parts.len()
        invariant
            i <= parts@.len(),
            all == texts(parts@),
            r@ == joined(all.take(i as int), sep@),
        decreases parts@.len() - i,
    {
        proof {
            assert(all.take(i + 1).drop_last() =~= all.take(i as int));
            assert(all.take(i + 1).last() == parts@[i as int]@);
        }
        if i > 0 {
            r.append(sep);
        }
        r.append(parts[i].as_str());
        if i == 0 {
            assert(r@ =~= parts@[0]@);
        }
        i += 1;
    }
    assert(all.take(i as int) =~= all);
    r
}

// ---------------------------------------------------------------------------
// trimming
// ---------------------------------------------------------------------------
/// The characters of Unicode's `White_Space` property.
pub open spec fn white(c: char) -> bool {
    ||| '\u{9}' <= c <= '\u{d}'
    ||| c == ' '
    ||| c == '\u{85}'
    ||| c == '\u{a0}'
    ||| c == '\u{1680}'
    ||| '\u{2000}' <= c <= '\u{200a}'
    ||| c == '\u{2028}'
    ||| c == '\u{2029}'
    ||| c == '\u{202f}'
    ||| c == '\u{205f}'
    ||| c == '\u{3000}'
}

pub fn is_white(c: char) -> (r: bool)
    ensures
        r == white(c),
{
    ('\u{9}' <= c && c <= '\u{d}') || c == ' ' || c == '\u{85}' || c == '\u{a0}' || c == '\u{1680}'
        || ('\u{2000}' <= c && c <= '\u{200a}') || c == '\u{2028}' || c == '\u{2029}' || c
        == '\u{202f}' || c == '\u{205f}' || c == '\u{3000}'
}

/// `s` without the characters at its start that satisfy `p`.
pub open spec fn left_trimmed(s: Seq<char>, p: spec_fn(char) -> bool) -> Seq<char>
    decreases s.len(),
{
    if s.len() > 0 && p(s[0]) {
        left_trimmed(s.drop_first(), p)
    } else {
        s
    }
}

/// `s` without the characters at its end that satisfy `p`.
pub open spec fn right_trimmed(s: Seq<char>, p: spec_fn(char) -> bool) -> Seq<char>
    decreases s.len(),
{
    if s.len() > 0 && p(s.last()) {
        right_trimmed(s.drop_last(), p)
    } else {
        s
    }
}

/// `s` without the white space at both ends.
pub open spec fn trimmed(s: Seq<char>) -> Seq<char> {
    right_trimmed(left_trimmed(s, |c: char| white(c)), |c: char| white(c))
}

pub proof fn lemma_left_trimmed(s: Seq<char>, p: spec_fn(char) -> bool, k: int)
    requires
        0 <= k <= s.len(),
        forall|i: int| 0 <= i < k ==> p(s[i]),
        k < s.len() ==> !p(s[k]),
    ensures
        left_trimmed(s, p) == s.skip(k),
    decreases k,
{
    if k > 0 {
        assert forall|i: int| 0 <= i < k - 1 implies p(s.drop_first()[i]) by {
            assert(s.drop_first()[i] == s[i + 1]);
        }
        lemma_left_trimmed(s.drop_first(), p, k - 1);
        assert(s.drop_first().skip(k - 1) =~= s.skip(k));
    } else {
        assert(s.skip(0) =~= s);
    }
}

pub proof fn lemma_right_trimmed(s: Seq<char>, p: spec_fn(char) -> bool, k: int)
    requires
        0 <= k <= s.len(),
        forall|i: int| k <= i < s.len() ==> p(s[i]),
        k > 0 ==> !p(s[k - 1]),
    ensures
        right_trimmed(s, p) == s.take(k),
    decreases s.len() - k,
{
    if k < s.len() {
        lemma_right_trimmed(s.drop_last(), p, k);
        assert(s.drop_last().take(k) =~= s.take(k));
    } else {
        assert(s.take(k) =~= s);
    }
}

/// What trimming leaves is a part of the text, and it is never longer.
pub proof fn lemma_right_trimmed_prefix(s: Seq<char>, p: spec_fn(char) -> bool)
    ensures
        right_trimmed(s, p).len() <= s.len(),
        right_trimmed(s, p) == s.take(right_trimmed(s, p).len() as int),
        right_trimmed(s, p).len() > 0 ==> !p(right_trimmed(s, p).last()),
    decreases s.len(),
{
    if s.len() > 0 && p(s.last()) {
        lemma_right_trimmed_prefix(s.drop_last(), p);
        let n = right_trimmed(s, p).len() as int;
        assert(s.drop_last().take(n) =~= s.take(n));
    } else {
        assert(s.take(s.len() as int) =~= s);
    }
}

pub proof fn lemma_left_trimmed_suffix(s: Seq<char>, p: spec_fn(char) -> bool)
    ensures
        left_trimmed(s, p).len() <= s.len(),
        left_trimmed(s, p) == s.skip(s.len() - left_trimmed(s, p).len()),
        left_trimmed(s, p).len() > 0 ==> !p(left_trimmed(s, p)[0]),
    decreases s.len(),
{
    if s.len() > 0 && p(s[0]) {
        lemma_left_trimmed_suffix(s.drop_first(), p);
        let n = left_trimmed(s, p).len() as int;
        assert(s.drop_first().skip(s.len() - 1 - n) =~= s.skip(s.len() - n));
    } else {
        assert(s.skip(0) =~= s);
    }
}

pub fn trim(s: &str) -> (r: String)
    ensures
        r@ == trimmed(s@),
{
    let v = to_chars(s);
    let mut lo: usize = 0;
    while lo < v.len() && is_white(v[lo])
        invariant
            lo <= v@.len(),
            forall|i: int| 0 <= i < lo ==> white(v@[i]),
        decreases v@.len() - lo,
    {
        lo += 1;
    }
    let mut hi: usize = v.len();
    while hi > lo && is_white(v[hi - 1])
        invariant
            lo <= hi <= v@.len(),
            forall|i: int| hi <= i < v@.len() ==> white(v@[i]),
        decreases hi,
    {
        hi -= 1;
    }
    proof {
        let p = |c: char| white(c);
        lemma_left_trimmed(v@, p, lo as int);
        let rest = v@.skip(lo as int);
        lemma_right_trimmed(rest, p, hi - lo);
        assert(rest.take(hi - lo) =~= v@.subrange(lo as int, hi as int));
    }
    from_chars(&v, lo, hi)
}

/// `s` without the `a` and `b` characters at its start.
pub fn trim_start_of(s: &str, a: char, b: char) -> (r: String)
    ensures
        r@ == left_trimmed(s@, |c: char| c == a || c == b),
{
    let v = to_chars(s);
    let mut lo: usize = 0;
    while lo < v.len() && (v[lo] == a || v[lo] == b)
        invariant
            lo <= v@.len(),
            forall|i: int| 0 <= i < lo ==> v@[i] == a || v@[i] == b,
        decreases v@.len() - lo,
    {
        lo += 1;
    }
    proof {
        lemma_left_trimmed(v@, |c: char| c == a || c == b, lo as int);
        assert(v@.skip(lo as int) =~= v@.subrange(lo as int, v@.len() as int));
    }
    from_chars(&v, lo, v.len())
}

/// `s` without the `a` characters at its start.
pub fn trim_start_char(s: &str, a: char) -> (r: String)
    ensures
        r@ == left_trimmed(s@, |c: char| c == a),
{
    let v = to_chars(s);
    let mut lo: usize = 0;
    while lo < v.len() && v[lo] == a
        invariant
            lo <= v@.len(),
            forall|i: int| 0 <= i < lo ==> v@[i] == a,
        decreases v@.len() - lo,
    {
        lo += 1;
    }
    proof {
        lemma_left_trimmed(v@, |c: char| c == a, lo as int);
        assert(v@.skip(lo as int) =~= v@.subrange(lo as int, v@.len() as int));
    }
    from_chars(&v, lo, v.len())
}

/// `s` without the `a` characters at its end.
pub fn trim_end_of(s: &str, a: char) -> (r: String)
    ensures
        r@ == right_trimmed(s@, |c: char| c == a),
{
    let v = to_chars(s);
    let mut hi: usize = v.len();
    while hi > 0 && v[hi - 1] == a
        invariant
            hi <= v@.len(),
            forall|i: int| hi <= i < v@.len() ==> v@[i] == a,
        decreases hi,
    {
        hi -= 1;
    }
    proof {
        lemma_right_trimmed(v@, |c: char| c == a, hi as int);
        assert(v@.take(hi as int) =~= v@.subrange(0, hi as int));
    }
    from_chars(&v, 0, hi)
}

// ---------------------------------------------------------------------------
// letter case
// ---------------------------------------------------------------------------
/// The lower-case letter of an ASCII capital; every other character as it is.
pub open spec fn lower(c: char) -> char {
    if 'A' <= c <= 'Z' {
        ((c as u32 + 32) as u32) as char
    } else {
        c
    }
}

/// Whether a text has ASCII characters only.
pub open spec fn ascii(s: Seq<char>) -> bool {
    forall|i: int| 0 <= i < s.len() ==> (#[trigger] s[i]) <= '\u{7f}'
}

/// `s` with its ASCII capitals in lower case.
pub open spec fn lowered(s: Seq<char>) -> Seq<char> {
    Seq::new(s.len(), |i: int| lower(s[i]))
}

pub fn lower_char(c: char) -> (r: char)
    ensures
        r == lower(c),
{
    if 'A' <= c && c <= 'Z' {
        (c as u8 + 32) as char
    } else {
        c
    }
}

pub fn to_lower(s: &str) -> (r: String)
    ensures
        r@ == lowered(s@),
{
    let v = to_chars(s);
    let mut r = String::new();
    let mut i: usize = 0;
    while i < v.len()
        invariant
            i <= v@.len(),
            r@ == lowered(v@.take(i as int)),
        decreases v@.len() - i,
    {
        r.push(lower_char(v[i]));
        i += 1;
        assert(lowered(v@.take(i as int)) =~= lowered(v@.take(i - 1)).push(lower(v@[i - 1])));
    }
    assert(v@.take(i as int) =~= v@);
    r
}

// ---------------------------------------------------------------------------
// numbers
// ---------------------------------------------------------------------------
/// The decimal digit of a number below ten.
pub open spec fn digit(d: nat) -> char {
    ((48 + d) as u32) as char
}

/// A number in decimal, without leading zeros.
pub open spec fn decimal(n: nat) -> Seq<char>
    decreases n,
{
    if n < 10 {
        seq![digit(n)]
    } else {
        decimal(n / 10).push(digit(n % 10))
    }
}

pub fn to_decimal(n: u64) -> (r: String)
    ensures
        r@ == decimal(n as nat),
    decreases n,
{
    if n < 10 {
        let mut r = String::new();
        r.push((48 + n as u8) as char);
        assert(r@ =~= seq![digit(n as nat)]);
        r
    } else {
        let mut r = to_decimal(n / 10);
        r.push((48 + (n % 10) as u8) as char);
        r
    }
}

pub open spec fn all_digits(s: Seq<char>) -> bool {
    forall|i: int| 0 <= i < s.len() ==> '0' <= #[trigger] s[i] <= '9'
}

/// The number that a run of decimal digits writes.
pub open spec fn digits_value(s: Seq<char>) -> nat
    decreases s.len(),
{
    if s.len() == 0 {
        0
    } else {
        (10 * digits_value(s.drop_last()) + (s.last() as u32 - 48)) as nat
    }
}

/// A 16-bit number as `u16` is read from text: digits, after at most one plus
/// sign, of a value that fits.
pub open spec fn parsed_u16(s: Seq<char>) -> Option<u16> {
    let body = if s.len() > 0 && s[0] == '+' {
        s.drop_first()
    } else {
        s
    };
    if body.len() > 0 && all_digits(body) && digits_value(body) <= u16::MAX {
        Some(digits_value(body) as u16)
    } else {
        None
    }
}

pub fn parse_u16(s: &str) -> (r: Option<u16>)
    ensures
        r == parsed_u16(s@),
{
    let v = to_chars(s);
    let from: usize = if v.len() > 0 && v[0] == '+' {
        1
    } else {
        0
    };
    let ghost body = v@.skip(from as int);
    proof {
        if from == 0 {
            assert(body =~= v@);
        } else {
            assert(body =~= v@.drop_first());
        }
    }
    if from == v.len() {
        return None;
    }
    let mut i: usize = from;
    let mut value: u32 = 0;
    assert(body.take(0) =~= Seq::empty());
    while i < v.len()
        invariant
            from <= i <= v@.len(),
            body == v@.skip(from as int),
            v@ == s@,
            from == (if v@.len() > 0 && v@[0] == '+' {
                1int
            } else {
                0
            }),
            from == 0 ==> body == v@,
            from == 1 ==> body == v@.drop_first(),
            forall|j: int| 0 <= j < i - from ==> '0' <= #[trigger] body[j] <= '9',
            value <= 65536,
            value <= 65535 ==> value == digits_value(body.take(i - from)),
            value == 65536 ==> digits_value(body.take(i - from)) > 65535,
        decreases v@.len() - i,
    {
        let c = v[i];
        assert(c == body[i - from]);
        if c < '0' || c > '9' {
            return None;
        }
        let d: u32 = c as u32 - 48;
        proof {
            assert(body.take(i + 1 - from).drop_last() =~= body.take(i - from));
        }
        value = if value > 65535 || value * 10 + d > 65535 {
            65536
        } else {
            value * 10 + d
        };
        i += 1;
    }
    assert(body.take(i - from) =~= body);
    if value > 65535 {
        None
    } else {
        Some(value as u16)
    }
}

/// A number in decimal is made of digits, and reads back as the number.
pub proof fn lemma_decimal(n: nat)
    ensures
        decimal(n).len() > 0,
        all_digits(decimal(n)),
        digits_value(decimal(n)) == n,
    decreases n,
{
    if n < 10 {
        reveal_with_fuel(digits_value, 2);
        assert(decimal(n).drop_last() =~= Seq::<char>::empty());
    } else {
        lemma_decimal(n / 10);
        assert(decimal(n).drop_last() =~= decimal(n / 10));
        assert forall|i: int| 0 <= i < decimal(n).len() implies '0' <= #[trigger] decimal(n)[i]
            <= '9' by {
            if i < decimal(n / 10).len() {
                assert(decimal(n)[i] == decimal(n / 10)[i]);
            }
        }
    }
}

/// A port that was written in decimal is read back as it was.
pub proof fn law_port_reads_back(port: u16)
    ensures
        parsed_u16(decimal(port as nat)) == Some(port),
{
    lemma_decimal(port as nat);
    assert('0' <= decimal(port as nat)[0]);
}

// ---------------------------------------------------------------------------
// searching
// ---------------------------------------------------------------------------
/// Where `t` first occurs in `s`.
pub open spec fn found(s: Seq<char>, t: Seq<char>) -> Option<int>
    decreases s.len(),
{
    if begins(s, t) {
        Some(0)
    } else if s.len() == 0 {
        None
    } else {
        match found(s.drop_first(), t) {
            Some(k) => Some(k + 1),
            None => None,
        }
    }
}

pub proof fn lemma_found(s: Seq<char>, t: Seq<char>)
    ensures
        found(s, t) matches Some(k) ==> 0 <= k <= s.len() - t.len() && begins(s.skip(k), t),
    decreases s.len(),
{
    if begins(s, t) {
        assert(s.skip(0) =~= s);
    } else if s.len() > 0 {
        lemma_found(s.drop_first(), t);
        if let Some(k) = found(s.drop_first(), t) {
            assert(s.drop_first().skip(k) =~= s.skip(k + 1));
        }
    }
}

/// A text that stands somewhere is found.
pub proof fn lemma_found_at(s: Seq<char>, t: Seq<char>, k: int)
    requires
        0 <= k <= s.len(),
        begins(s.skip(k), t),
    ensures
        found(s, t) is Some,
    decreases k,
{
    if k == 0 {
        assert(s.skip(0) =~= s);
    } else if !begins(s, t) {
        assert(s.drop_first().skip(k - 1) =~= s.skip(k));
        lemma_found_at(s.drop_first(), t, k - 1);
    }
}

/// A text is found between any two others.
pub proof fn lemma_found_between(a: Seq<char>, t: Seq<char>, b: Seq<char>)
    ensures
        found(a + t + b, t) is Some,
{
    let s = a + t + b;
    let k = a.len() as int;
    assert(s.skip(k).take(t.len() as int) =~= t);
    lemma_found_at(s, t, k);
}

fn begins_at(v: &Vec<char>, from: usize, t: &Vec<char>) -> (r: bool)
    requires
        from <= v@.len(),
    ensures
        r == begins(v@.skip(from as int), t@),
{
    let ghost s = v@.skip(from as int);
    let n: usize = v.len();
    if t.len() > n - from {
        return false;
    }
    let mut i: usize = 0;
    while i < t.len()
        invariant
            n == v@.len(),
            i <= t@.len() <= n - from,
            s == v@.skip(from as int),
            s.take(i as int) == t@.take(i as int),
        decreases t@.len() - i,
    {
        if v[from + i] != t[i] {
            proof {
                assert(s.take(t@.len() as int)[i as int] != t@[i as int]);
            }
            return false;
        }
        i += 1;
        assert(s.take(i as int) =~= s.take(i - 1).push(s[i - 1]));
        assert(t@.take(i as int) =~= t@.take(i - 1).push(t@[i - 1]));
    }
    assert(t@.take(i as int) =~= t@);
    true
}

pub fn find_text(v: &Vec<char>, from: usize, t: &Vec<char>) -> (r: Option<usize>)
    requires
        from <= v@.len(),
    ensures
        match r {
            Some(k) => from <= k <= v@.len() - t@.len() && found(v@.skip(from as int), t@) == Some(
                k - from,
            ),
            None => found(v@.skip(from as int), t@) is None,
        },
{
    let ghost s = v@.skip(from as int);
    let mut i: usize = from;
    proof {
        lemma_found(s, t@);
    }
    while i < v.len() && !begins_at(v, i, t)
        invariant
            from <= i <= v@.len(),
            s == v@.skip(from as int),
            found(s, t@) == (match found(v@.skip(i as int), t@) {
                Some(k) => Some(k + (i - from)),
                None => None,
            }),
        decreases v@.len() - i,
    {
        assert(v@.skip(i as int).drop_first() =~= v@.skip(i + 1));
        i += 1;
    }
    if begins_at(v, i, t) {
        Some(i)
    } else {
        None
    }
}

pub fn contains(s: &str, t: &str) -> (r: bool)
    ensures
        r == (found(s@, t@) is Some),
{
    let v = to_chars(s);
    let w = to_chars(t);
    assert(v@.skip(0) =~= v@);
    find_text(&v, 0, &w).is_some()
}

/// The part of `s` between the first `sep` and the next one, or the end.
pub open spec fn after_first(s: Seq<char>, sep: Seq<char>) -> Option<Seq<char>> {
    match found(s, sep) {
        None => None,
        Some(k) => {
            let rest = s.skip(k + sep.len());
            match found(rest, sep) {
                Some(m) => Some(rest.take(m)),
                None => Some(rest),
            }
        },
    }
}

pub fn second_piece(s: &str, sep: &str) -> (r: Option<String>)
    ensures
        match r {
            Some(piece) => after_first(s@, sep@) == Some(piece@),
            None => after_first(s@, sep@) is None,
        },
{
    let v = to_chars(s);
    let w = to_chars(sep);
    assert(v@.skip(0) =~= v@);
    match find_text(&v, 0, &w) {
        None => None,
        Some(k) => {
            let n: usize = v.len();
            assert(k + w@.len() <= n);
            let from: usize = k + w.len();
            match find_text(&v, from, &w) {
                Some(m) => {
                    assert(v@.skip(from as int).take(m - from) =~= v@.subrange(
                        from as int,
                        m as int,
                    ));
                    Some(from_chars(&v, from, m))
                },
                None => {
                    assert(v@.skip(from as int) =~= v@.subrange(from as int, v@.len() as int));
                    Some(from_chars(&v, from, v.len()))
                },
            }
        },
    }
}

/// The length of the run without white space at the start of `s`.
pub open spec fn word_length(s: Seq<char>) -> int
    decreases s.len(),
{
    if s.len() == 0 || white(s[0]) {
        0
    } else {
        1 + word_length(s.drop_first())
    }
}

/// The first word of a text and what follows it.
pub open spec fn first_word(s: Seq<char>) -> Option<(Seq<char>, Seq<char>)> {
    let t = left_trimmed(s, |c: char| white(c));
    if t.len() == 0 {
        None
    } else {
        Some((t.take(word_length(t)), t.skip(word_length(t))))
    }
}

pub proof fn lemma_word_bounds(s: Seq<char>)
    ensures
        0 <= word_length(s) <= s.len(),
    decreases s.len(),
{
    if s.len() > 0 && !white(s[0]) {
        lemma_word_bounds(s.drop_first());
    }
}

pub proof fn lemma_word_length(s: Seq<char>, k: int)
    requires
        0 <= k <= s.len(),
        forall|i: int| 0 <= i < k ==> !white(s[i]),
        k < s.len() ==> white(s[k]),
    ensures
        word_length(s) == k,
    decreases k,
{
    if k > 0 {
        assert forall|i: int| 0 <= i < k - 1 implies !white(s.drop_first()[i]) by {
            assert(s.drop_first()[i] == s[i + 1]);
        }
        lemma_word_length(s.drop_first(), k - 1);
    }
}

pub fn split_word(s: &str) -> (r: Option<(String, String)>)
    ensures
        match r {
            Some(pair) => first_word(s@) == Some((pair.0@, pair.1@)),
            None => first_word(s@) is None,
        },
{
    let v = to_chars(s);
    let mut lo: usize = 0;
    while lo < v.len() && is_white(v[lo])
        invariant
            lo <= v@.len(),
            forall|i: int| 0 <= i < lo ==> white(v@[i]),
        decreases v@.len() - lo,
    {
        lo += 1;
    }
    let ghost t = v@.skip(lo as int);
    proof {
        lemma_left_trimmed(v@, |c: char| white(c), lo as int);
    }
    if lo == v.len() {
        return None;
    }
    let mut hi: usize = lo;
    while hi < v.len() && !is_white(v[hi])
        invariant
            lo <= hi <= v@.len(),
            forall|i: int| lo <= i < hi ==> !white(v@[i]),
        decreases v@.len() - hi,
    {
        hi += 1;
    }
    proof {
        lemma_word_length(t, hi - lo);
        assert(t.take(hi - lo) =~= v@.subrange(lo as int, hi as int));
        assert(t.skip(hi - lo) =~= v@.subrange(hi as int, v@.len() as int));
    }
    Some((from_chars(&v, lo, hi), from_chars(&v, hi, v.len())))
}

// ---------------------------------------------------------------------------
// optional texts
// ---------------------------------------------------------------------------
/// The text that an optional string slice holds.
pub open spec fn opt_str(value: Option<&str>) -> Option<Seq<char>> {
    match value {
        Some(s) => Some(s@),
        None => None,
    }
}

/// The text that an optional string holds.
pub open spec fn opt(value: Option<String>) -> Option<Seq<char>> {
    match value {
        Some(s) => Some(s@),
        None => None,
    }
}

/// The text of an option, empty where there is none.
pub open spec fn or_empty(value: Option<String>) -> Seq<char> {
    match value {
        Some(text) => text@,
        None => Seq::empty(),
    }
}

/// The text of an option, or another where there is none.
pub open spec fn or_text(value: Option<String>, default: Seq<char>) -> Seq<char> {
    match value {
        Some(text) => text@,
        None => default,
    }
}

pub fn text_or(value: &Option<String>, default: &str) -> (r: String)
    ensures
        r@ == or_text(*value, default@),
{
    match value {
        Some(text) => text.clone(),
        None => default.to_owned(),
    }
}

pub fn text_or_empty(value: &Option<String>) -> (r: String)
    ensures
        r@ == or_empty(*value),
{
    match value {
        Some(text) => text.clone(),
        None => String::new(),
    }
}

// ---------------------------------------------------------------------------
// laws of splitting, trimming and numbers
// ---------------------------------------------------------------------------
proof fn lemma_joined_front(first: Seq<char>, rest: Seq<Seq<char>>, sep: Seq<char>)
    requires
        rest.len() > 0,
    ensures
        joined(seq![first] + rest, sep) == first + sep + joined(rest, sep),
    decreases rest.len(),
{
    reveal_with_fuel(joined, 2);
    let all = seq![first] + rest;
    if rest.len() == 1 {
        assert(all.drop_last() =~= seq![first]);
    } else {
        lemma_joined_front(first, rest.drop_last(), sep);
        assert(all.drop_last() =~= seq![first] + rest.drop_last());
        assert(joined(all, sep) =~= first + sep + joined(rest, sep));
    }
}

pub proof fn lemma_pieces_rejoin(s: Seq<char>, c: char)
    ensures
        pieces_of(s, c).len() > 0,
        joined(pieces_of(s, c), seq![c]) == s,
        forall|i: int| 0 <= i < pieces_of(s, c).len() ==> !(#[trigger] pieces_of(s, c)[i]).contains(c),
    decreases s.len(),
{
    lemma_position(s, c);
    let k = position(s, c);
    if k < s.len() {
        let rest = s.skip(k + 1);
        lemma_pieces_rejoin(rest, c);
        lemma_joined_front(s.take(k), pieces_of(rest, c), seq![c]);
        assert(s =~= s.take(k) + seq![c] + rest);
        assert forall|i: int| 0 <= i < pieces_of(s, c).len() implies !(#[trigger] pieces_of(
            s,
            c,
        )[i]).contains(c) by {
            if i > 0 {
                assert(pieces_of(s, c)[i] == pieces_of(rest, c)[i - 1]);
            }
        }
    }
}

/// The pieces of a text hold no separator, and the text is the pieces with one
/// between each two: joining undoes splitting.
pub proof fn law_pieces_rejoin(s: &str, c: char, parts: Vec<String>, sep: &str, whole: String)
    requires
        call_ensures(pieces, (s, c), parts),
        sep@ == seq![c],
        call_ensures(join, (&parts, sep), whole),
    ensures
        whole@ == s@,
        parts@.len() > 0,
        forall|i: int| 0 <= i < parts@.len() ==> !(#[trigger] parts@[i]@).contains(c),
{
    lemma_pieces_rejoin(s@, c);
    assert forall|i: int| 0 <= i < parts@.len() implies !(#[trigger] parts@[i]@).contains(c) by {
        assert(texts(parts@)[i] == parts@[i]@);
    }
    assert(texts(parts@).len() == parts@.len());
}

/// The pieces of two texts with the separator between them are those of the one
/// and then those of the other.
pub proof fn lemma_pieces_concat(a: Seq<char>, c: char, b: Seq<char>)
    ensures
        pieces_of(a + seq![c] + b, c) == pieces_of(a, c) + pieces_of(b, c),
    decreases a.len(),
{
    let s = a + seq![c] + b;
    lemma_position(a, c);
    let k = position(a, c);
    assert forall|i: int| 0 <= i < k implies s[i] != c by {
        assert(s[i] == a[i]);
    }
    lemma_position_is(s, c, k);
    assert(s.take(k) =~= a.take(k));
    if k == a.len() {
        assert(s.take(k) =~= a);
        assert(s.skip(k + 1) =~= b);
    } else {
        assert(s.skip(k + 1) =~= a.skip(k + 1) + seq![c] + b);
        lemma_pieces_concat(a.skip(k + 1), c, b);
        assert(pieces_of(s, c) =~= pieces_of(a, c) + pieces_of(b, c));
    }
}

/// A text ends each of its lines with a line feed or a carriage return and a
/// line feed, neither of which belongs to the line. The last line need not be
/// ended, and an empty text has no line.
pub proof fn law_lines_are_ended(line: Seq<char>, rest: Seq<char>)
    requires
        !line.contains('\n'),
    ensures
        lines_of(Seq::empty()).len() == 0,
        line.len() > 0 ==> lines_of(line) == seq![line],
        !(line.len() > 0 && line.last() == '\r') ==> lines_of(line + seq!['\n'] + rest)
            == seq![line] + lines_of(rest),
        lines_of(line + seq!['\r', '\n'] + rest) == seq![line] + lines_of(rest),
{
    let n = line.len() as int;
    lemma_position_is(line, '\n', n);
    let one = line + seq!['\n'] + rest;
    assert forall|i: int| 0 <= i < n implies one[i] != '\n' by {
        assert(one[i] == line[i]);
    }
    lemma_position_is(one, '\n', n);
    assert(one.take(n) =~= line);
    assert(one.skip(n + 1) =~= rest);
    let two = line + seq!['\r', '\n'] + rest;
    assert forall|i: int| 0 <= i < n + 1 implies two[i] != '\n' by {
        if i < n {
            assert(two[i] == line[i]);
        }
    }
    lemma_position_is(two, '\n', n + 1);
    assert(two.take(n + 1).drop_last() =~= line);
    assert(two.skip(n + 2) =~= rest);
}

/// Spaces, tabs and line ends are white space; what ASCII prints is not.
pub proof fn law_white_space(c: char, r: bool)
    requires
        call_ensures(is_white, (c,), r),
    ensures
        c == ' ' || c == '\t' || c == '\n' || c == '\r' ==> r,
        '!' <= c <= '~' ==> !r,
        r ==> c <= ' ' || c >= '\u{85}',
{
}

/// Trimming takes white space off both ends, all of it, and nothing else.
pub proof fn law_trimming(s: &str, r: String)
    requires
        call_ensures(trim, (s,), r),
    ensures
        exists|k: int|
            #![trigger s@.skip(k)]
            {
                &&& 0 <= k && k + r@.len() <= s@.len()
                &&& s@.skip(k).take(r@.len() as int) == r@
                &&& forall|i: int| 0 <= i < k ==> white(#[trigger] s@[i])
                &&& forall|i: int| k + r@.len() <= i < s@.len() ==> white(#[trigger] s@[i])
            },
        r@.len() > 0 ==> !white(r@[0]) && !white(r@.last()),
{
    let p = |c: char| white(c);
    let left = left_trimmed(s@, p);
    lemma_left_trimmed_suffix(s@, p);
    lemma_right_trimmed_prefix(left, p);
    lemma_trimmed_off(s@, p);
    let k = s@.len() - left.len();
    lemma_trimmed_end(left, p);
    assert(s@.skip(k).take(r@.len() as int) == r@);
    assert forall|i: int| k + r@.len() <= i < s@.len() implies white(#[trigger] s@[i]) by {
        assert(left[i - k] == s@[i]);
        assert(p(left[i - k]));
    }
    assert forall|i: int| 0 <= i < k implies white(#[trigger] s@[i]) by {
        assert(p(s@[i]));
    }
    if r@.len() > 0 {
        assert(r@[0] == left[0]);
    }
}

proof fn lemma_trimmed_off(s: Seq<char>, p: spec_fn(char) -> bool)
    ensures
        forall|i: int| 0 <= i < s.len() - left_trimmed(s, p).len() ==> p(#[trigger] s[i]),
    decreases s.len(),
{
    if s.len() > 0 && p(s[0]) {
        lemma_trimmed_off(s.drop_first(), p);
        assert forall|i: int| 0 <= i < s.len() - left_trimmed(s, p).len() implies p(
            #[trigger] s[i],
        ) by {
            if i > 0 {
                assert(s[i] == s.drop_first()[i - 1]);
            }
        }
    }
}

proof fn lemma_trimmed_end(s: Seq<char>, p: spec_fn(char) -> bool)
    ensures
        forall|i: int| right_trimmed(s, p).len() <= i < s.len() ==> p(#[trigger] s[i]),
    decreases s.len(),
{
    if s.len() > 0 && p(s.last()) {
        lemma_trimmed_end(s.drop_last(), p);
        assert forall|i: int| right_trimmed(s, p).len() <= i < s.len() implies p(
            #[trigger] s[i],
        ) by {
            if i < s.len() - 1 {
                assert(s[i] == s.drop_last()[i]);
            }
        }
    }
}

/// Lowering a text replaces each of its capitals by the letter that stands
/// thirty-two places further on, and nothing else.
pub proof fn law_lowering(s: &str, r: String)
    requires
        call_ensures(to_lower, (s,), r),
    ensures
        r@.len() == s@.len(),
        forall|i: int|
            0 <= i < s@.len() && 'A' <= #[trigger] s@[i] <= 'Z' ==> r@[i] as int == s@[i] as int
                + 32,
        forall|i: int|
            0 <= i < s@.len() && !('A' <= #[trigger] s@[i] <= 'Z') ==> r@[i] == s@[i],
{
}

/// A number is written with the digit of its last place at the end and, where
/// it has more than one, the rest of it before that.
pub proof fn law_decimal_places(n: u64, r: String, rest: u64, s: String)
    requires
        call_ensures(to_decimal, (n,), r),
        rest == n / 10,
        call_ensures(to_decimal, (rest,), s),
    ensures
        r@.len() > 0,
        r@.last() as int - '0' as int == n % 10,
        n < 10 ==> r@.len() == 1,
        n >= 10 ==> r@.drop_last() == s@,
{
    lemma_decimal(n as nat);
    if n >= 10 {
        assert(r@.drop_last() =~= s@);
    }
}

/// A number that was written in decimal is read back where sixteen bits hold it
/// and refused where they do not. A plus sign before it changes nothing, and
/// whatever is read has nothing but digits behind one.
pub proof fn law_numbers_read_back(s: &str, n: nat, r: Option<u16>)
    requires
        call_ensures(parse_u16, (s,), r),
    ensures
        s@ == decimal(n) || s@ == seq!['+'] + decimal(n) ==> (r is Some <==> n <= 65535),
        s@ == decimal(n) || s@ == seq!['+'] + decimal(n) ==> (r matches Some(v) ==> v == n),
        r is Some ==> s@.len() > 0 && forall|i: int|
            0 < i < s@.len() ==> '0' <= #[trigger] s@[i] <= '9',
        r is Some ==> s@[0] == '+' || '0' <= s@[0] <= '9',
        r is Some && s@[0] == '+' ==> s@.len() > 1,
{
    lemma_decimal(n);
    let d = decimal(n);
    assert('0' <= d[0]);
    if s@ == seq!['+'] + d {
        assert(s@.drop_first() =~= d);
    }
    if r is Some {
        if s@[0] == '+' {
            assert forall|i: int| 0 < i < s@.len() implies '0' <= #[trigger] s@[i] <= '9' by {
                assert(s@.drop_first()[i - 1] == s@[i]);
            }
        }
    }
}

/// A text is found in another exactly where it stands somewhere in it.
pub proof fn law_found_where_it_stands(s: &str, t: &str, r: bool)
    requires
        call_ensures(contains, (s, t), r),
    ensures
        forall|before: Seq<char>, after: Seq<char>|
            s@ == #[trigger] (before + t@ + after) ==> r,
        r ==> exists|before: Seq<char>, after: Seq<char>|
            s@ == #[trigger] (before + t@ + after),
{
    assert forall|before: Seq<char>, after: Seq<char>|
        s@ == #[trigger] (before + t@ + after) implies r by {
        lemma_found_between(before, t@, after);
    }
    if r {
        lemma_found(s@, t@);
        let k = found(s@, t@)->0;
        let (before, after) = (s@.take(k), s@.skip(k + t@.len()));
        assert(s@ =~= before + t@ + after) by {
            assert forall|i: int| 0 <= i < s@.len() implies s@[i] == (before + t@ + after)[i] by {
                if k <= i < k + t@.len() {
                    assert(s@.skip(k).take(t@.len() as int)[i - k] == t@[i - k]);
                }
            }
        }
    }
}

/// A prefix is taken off exactly where the text is the prefix and what is left.
pub proof fn law_prefix_and_rest(s: &str, prefix: &str, r: Option<String>, rest: Seq<char>)
    requires
        call_ensures(strip_prefix, (s, prefix), r),
    ensures
        r matches Some(left) ==> s@ == prefix@ + left@,
        s@ == prefix@ + rest ==> r is Some && r->0@ == rest,
{
    if let Some(left) = r {
        assert(s@ =~= prefix@ + left@);
    }
    if s@ == prefix@ + rest {
        assert(s@.take(prefix@.len() as int) =~= prefix@);
        assert(s@.skip(prefix@.len() as int) =~= rest);
    }
}

/// Each of the parts is found in the text that they are joined to.
pub proof fn lemma_found_joined(parts: Seq<Seq<char>>, sep: Seq<char>, i: int)
    requires
        0 <= i < parts.len(),
    ensures
        exists|before: Seq<char>, after: Seq<char>|
            joined(parts, sep) == #[trigger] (before + parts[i] + after),
        found(joined(parts, sep), parts[i]) is Some,
    decreases parts.len(),
{
    let whole = joined(parts, sep);
    if parts.len() == 1 {
        assert(whole =~= Seq::<char>::empty() + parts[i] + Seq::<char>::empty());
        lemma_found_between(Seq::empty(), parts[i], Seq::empty());
    } else if i == parts.len() - 1 {
        let before = joined(parts.drop_last(), sep) + sep;
        assert(whole =~= before + parts[i] + Seq::<char>::empty());
        lemma_found_between(before, parts[i], Seq::empty());
    } else {
        lemma_found_joined(parts.drop_last(), sep, i);
        let rest = joined(parts.drop_last(), sep);
        let (before, after) = choose|before: Seq<char>, after: Seq<char>|
            rest == #[trigger] (before + parts.drop_last()[i] + after);
        let behind = after + sep + parts.last();
        assert(whole =~= before + parts[i] + behind);
        lemma_found_between(before, parts[i], behind);
    }
}

/// What stands in a part of a text is found in the text.
pub proof fn lemma_found_in_part(
    before: Seq<char>,
    part: Seq<char>,
    after: Seq<char>,
    t: Seq<char>,
    k: int,
)
    requires
        0 <= k && k + t.len() <= part.len(),
        part.subrange(k, k + t.len()) == t,
    ensures
        found(before + part + after, t) is Some,
{
    let s = before + part + after;
    let m = before.len() + k;
    assert(s.skip(m).take(t.len() as int) =~= part.subrange(k, k + t.len()));
    lemma_found_at(s, t, m);
}

/// What is trimmed off one end is the character that was named, all of it that
/// stands there, and the rest stays.
pub proof fn law_trimming_one_end(
    s: &str,
    a: char,
    b: char,
    start: String,
    either: String,
    end: String,
)
    requires
        call_ensures(trim_start_char, (s, a), start),
        call_ensures(trim_start_of, (s, a, b), either),
        call_ensures(trim_end_of, (s, a), end),
    ensures
        start@.len() <= s@.len() && start@ == s@.skip(s@.len() - start@.len()),
        start@.len() > 0 ==> start@[0] != a,
        forall|i: int| 0 <= i < s@.len() - start@.len() ==> #[trigger] s@[i] == a,
        either@.len() <= s@.len() && either@ == s@.skip(s@.len() - either@.len()),
        either@.len() > 0 ==> either@[0] != a && either@[0] != b,
        forall|i: int|
            0 <= i < s@.len() - either@.len() ==> #[trigger] s@[i] == a || s@[i] == b,
        end@.len() <= s@.len() && end@ == s@.take(end@.len() as int),
        end@.len() > 0 ==> end@.last() != a,
        forall|i: int| end@.len() <= i < s@.len() ==> #[trigger] s@[i] == a,
{
    let p = |c: char| c == a;
    let q = |c: char| c == a || c == b;
    lemma_left_trimmed_suffix(s@, p);
    lemma_left_trimmed_suffix(s@, q);
    lemma_right_trimmed_prefix(s@, p);
    lemma_trimmed_off(s@, p);
    lemma_trimmed_off(s@, q);
    lemma_trimmed_end(s@, p);
    assert(start@ == left_trimmed(s@, p));
    assert(either@ == left_trimmed(s@, q));
    assert(end@ == right_trimmed(s@, p));
    assert forall|i: int| 0 <= i < s@.len() - start@.len() implies #[trigger] s@[i] == a by {
        assert(p(s@[i]));
    }
    assert forall|i: int| 0 <= i < s@.len() - either@.len() implies #[trigger] s@[i] == a || s@[i]
        == b by {
        assert(q(s@[i]));
    }
    assert forall|i: int| end@.len() <= i < s@.len() implies #[trigger] s@[i] == a by {
        assert(p(s@[i]));
    }
}

/// The first word of a text has no white space in it and stands behind nothing
/// else; what follows it begins with white space, or there is nothing.
pub proof fn law_first_word(
    before: Seq<char>,
    word: Seq<char>,
    after: Seq<char>,
    s: &str,
    r: Option<(String, String)>,
)
    requires
        call_ensures(split_word, (s,), r),
        s@ == before + word + after,
        forall|i: int| 0 <= i < before.len() ==> white(#[trigger] before[i]),
        forall|i: int| 0 <= i < word.len() ==> !white(#[trigger] word[i]),
        after.len() > 0 ==> white(after[0]),
    ensures
        word.len() > 0 ==> r is Some,
        r matches Some((first, rest)) ==> (word.len() > 0 ==> first@ == word && rest@ == after),
        word.len() == 0 && after.len() == 0 ==> r is None,
{
    let p = |c: char| white(c);
    if word.len() > 0 || after.len() == 0 {
        let n = before.len() as int;
        assert forall|i: int| 0 <= i < n implies p(s@[i]) by {
            assert(s@[i] == before[i]);
        }
        if word.len() > 0 {
            assert(s@[n] == word[0]);
        }
        lemma_left_trimmed(s@, p, n);
        let t = s@.skip(n);
        assert(t =~= word + after);
        let m = word.len() as int;
        assert forall|i: int| 0 <= i < m implies !white(t[i]) by {
            assert(t[i] == word[i]);
        }
        if m < t.len() {
            assert(t[m] == after[0]);
        }
        lemma_word_length(t, m);
        assert(t.take(m) =~= word);
        assert(t.skip(m) =~= after);
    }
}

/// White space is what Unicode has as such, in ASCII and beyond, by number.
pub proof fn law_white_space_by_number(c: char, r: bool)
    requires
        call_ensures(is_white, (c,), r),
    ensures
        ({
            let n = c as u32 as int;
            r <==> 9 <= n <= 13 || n == 32 || n == 133 || n == 160 || n == 5760 || 8192 <= n <= 8202
                || n == 8232 || n == 8233 || n == 8239 || n == 8287 || n == 12288
        }),
{
}

} // verus!
