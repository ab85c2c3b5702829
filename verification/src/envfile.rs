//! The `.env` file of an installation.
//!
//! A key's value is the raw text after the first `=` of the LAST line for the
//! key. Setting a key drops every line for it and appends one at the end.
//! There is no quoting and no escaping, because docker compose reads the same
//! file by the same rules. Comments and unrelated lines are kept.

use crate::text;
use crate::text::{find_char, from_chars, join, lines, strip_prefix, to_chars};
use vstd::prelude::*;

verus! {

/// How every line for `key` begins.
pub open spec fn entry(key: Seq<char>) -> Seq<char> {
    key.push('=')
}

/// The value of `key`: that of its last line.
pub open spec fn last_value(env: Seq<Seq<char>>, key: Seq<char>) -> Option<Seq<char>>
    decreases env.len(),
{
    if env.len() == 0 {
        None
    } else if text::begins(env.last(), entry(key)) {
        text::strip(env.last(), entry(key))
    } else {
        last_value(env.drop_last(), key)
    }
}

/// The lines that are not for `key`, in their order.
pub open spec fn without(env: Seq<Seq<char>>, key: Seq<char>) -> Seq<Seq<char>> {
    env.filter(|line: Seq<char>| !text::begins(line, entry(key)))
}

/// The file after `key` was set to `value`.
pub open spec fn with_entry(
    env: Seq<Seq<char>>,
    key: Seq<char>,
    value: Seq<char>,
) -> Seq<Seq<char>> {
    without(env, key).push(entry(key) + value)
}

/// The key that a line sets: what stands before its first `=`, unless the line
/// is a comment or has no `=`.
pub open spec fn key_of(line: Seq<char>) -> Option<Seq<char>> {
    let k = text::position(line, '=');
    if k == line.len() || (k > 0 && line[0] == '#') {
        None
    } else {
        Some(line.take(k))
    }
}

/// The keys that the file sets, one for each line that sets one.
pub open spec fn keys_of(env: Seq<Seq<char>>) -> Seq<Seq<char>> {
    env.filter_map(|line: Seq<char>| key_of(line))
}

/// The text of a file with these lines.
pub open spec fn body_of(env: Seq<Seq<char>>) -> Seq<char> {
    text::joined(env, seq!['\n']).push('\n')
}

/// A line that a file gives back as it was written.
pub open spec fn plain_line(line: Seq<char>) -> bool {
    !line.contains('\n') && (line.len() > 0 ==> line.last() != '\r')
}

pub struct EnvFile {
    path: String,
    lines: Vec<String>,
}

/// The lines of the file.
impl View for EnvFile {
    type V = Seq<Seq<char>>;

    closed spec fn view(&self) -> Seq<Seq<char>> {
        text::texts(self.lines@)
    }
}

impl EnvFile {
    /// Where the file is.
    pub closed spec fn location(&self) -> Seq<char> {
        self.path@
    }

    /// The file at `path`, which holds `raw`.
    pub fn load(path: &str, raw: &str) -> (r: Self)
        ensures
            r@ == text::lines_of(raw@),
            r.location() == path@,
    {
        EnvFile { path: path.to_owned(), lines: lines(raw) }
    }

    pub fn path(&self) -> (r: String)
        ensures
            r@ == self.location(),
    {
        self.path.clone()
    }

    pub fn get(&self, key: &str) -> (r: Option<String>)
        ensures
            match r {
                Some(value) => last_value(self@, key@) == Some(value@),
                None => last_value(self@, key@) is None,
            },
    {
        let mut prefix = key.to_owned();
        prefix.push('=');
        let mut i: usize = self.lines.len();
        assert(self@.take(i as int) =~= self@);
        while i > 0
            invariant
                i <= self.lines@.len(),
                prefix@ == entry(key@),
                last_value(self@, key@) == last_value(self@.take(i as int), key@),
            decreases i,
        {
            i -= 1;
            proof {
                assert(self@.take(i + 1).last() == self.lines@[i as int]@);
                assert(self@.take(i + 1).drop_last() =~= self@.take(i as int));
            }
            let rest = strip_prefix(self.lines[i].as_str(), prefix.as_str());
            if rest.is_some() {
                return rest;
            }
        }
        None
    }

    pub fn set(&mut self, key: &str, value: &str)
        ensures
            final(self)@ == with_entry(old(self)@, key@, value@),
            final(self).location() == old(self).location(),
    {
        let ghost env = self@;
        let mut prefix = key.to_owned();
        prefix.push('=');
        let ghost keep = |line: Seq<char>| !text::begins(line, entry(key@));
        let mut kept: Vec<String> = Vec::new();
        let mut i: usize = 0;
        proof {
            reveal(Seq::filter);
            assert(env.take(0).filter(keep) =~= text::texts(kept@));
        }
        while i < self.lines.len()
            invariant
                i <= self.lines@.len(),
                env == text::texts(self.lines@),
                self.path == old(self).path,
                prefix@ == entry(key@),
                keep == (|line: Seq<char>| !text::begins(line, entry(key@))),
                text::texts(kept@) == env.take(i as int).filter(keep),
            decreases self.lines@.len() - i,
        {
            proof {
                reveal(Seq::filter);
                assert(env.take(i + 1).last() == self.lines@[i as int]@);
                assert(env.take(i + 1).drop_last() =~= env.take(i as int));
            }
            if strip_prefix(self.lines[i].as_str(), prefix.as_str()).is_none() {
                proof {
                    text::lemma_texts_push(kept@, self.lines@[i as int]);
                }
                kept.push(self.lines[i].clone());
            }
            i += 1;
        }
        assert(env.take(i as int) =~= env);
        prefix.append(value);
        proof {
            text::lemma_texts_push(kept@, prefix);
        }
        kept.push(prefix);
        self.lines = kept;
    }

    pub fn keys(&self) -> (r: Vec<String>)
        ensures
            text::texts(r@) == keys_of(self@),
    {
        let ghost f = |line: Seq<char>| key_of(line);
        let mut r: Vec<String> = Vec::new();
        let mut i: usize = 0;
        assert(self@.take(0).filter_map(f) =~= text::texts(r@));
        while i < self.lines.len()
            invariant
                i <= self.lines@.len(),
                f == (|line: Seq<char>| key_of(line)),
                text::texts(r@) == self@.take(i as int).filter_map(f),
            decreases self.lines@.len() - i,
        {
            let line = to_chars(self.lines[i].as_str());
            assert(line@.skip(0) =~= line@);
            let k = find_char(&line, 0, '=');
            proof {
                assert(self@.take(i + 1).last() == self.lines@[i as int]@);
                assert(self@.take(i + 1).drop_last() =~= self@.take(i as int));
            }
            if k < line.len() && !(k > 0 && line[0] == '#') {
                let key = from_chars(&line, 0, k);
                proof {
                    assert(key@ =~= line@.take(k as int));
                    text::lemma_texts_push(r@, key);
                    assert(self@.take(i as int).filter_map(f) + seq![key@] =~= text::texts(r@).push(key@));
                }
                r.push(key);
            }
            i += 1;
        }
        assert(self@.take(i as int) =~= self@);
        r
    }

    /// What to write back, and with which mode: that of the file as it stands,
    /// and private where there is none.
    pub fn save(&self, current_mode: Option<u32>) -> (r: (String, u32))
        ensures
            r.0@ == body_of(self@),
            r.1 == (match current_mode {
                Some(mode) => mode & 0o777,
                None => 0o600,
            }),
    {
        let mut body = join(&self.lines, "\n");
        proof {
            reveal_strlit("\n");
            assert("\n"@ =~= seq!['\n']);
        }
        body.push('\n');
        let mode: u32 = match current_mode {
            Some(mode) => mode,
            None => 0o600,
        };
        assert(0o600u32 & 0o777u32 == 0o600u32) by (bit_vector);
        (body, mode & 0o777)
    }
}

// ---------------------------------------------------------------------------
// laws
// ---------------------------------------------------------------------------
/// Keys whose lines cannot be mistaken for one another: neither, followed by
/// `=`, begins the other.
pub open spec fn apart(a: Seq<char>, b: Seq<char>) -> bool {
    !text::begins(entry(a), entry(b)) && !text::begins(entry(b), entry(a))
}

/// Different keys without `=` in them are apart.
pub proof fn lemma_plain_keys_apart(a: Seq<char>, b: Seq<char>)
    requires
        a != b,
        !a.contains('='),
        !b.contains('='),
    ensures
        apart(a, b),
{
    lemma_not_begun(a, b);
    lemma_not_begun(b, a);
}

proof fn lemma_not_begun(a: Seq<char>, b: Seq<char>)
    requires
        a != b,
        !a.contains('='),
    ensures
        !text::begins(entry(a), entry(b)),
{
    if text::begins(entry(a), entry(b)) {
        let n = b.len() as int;
        assert(entry(a).take(n + 1)[n] == '=');
        if n < a.len() {
            assert(a[n] == '=');
        } else {
            assert(a =~= b) by {
                assert forall|i: int| 0 <= i < n implies a[i] == b[i] by {
                    assert(entry(a).take(n + 1)[i] == entry(b)[i]);
                }
            }
        }
    }
}

/// No line begins with both of two keys that are apart.
proof fn lemma_begins_one(line: Seq<char>, a: Seq<char>, b: Seq<char>)
    requires
        apart(a, b),
        text::begins(line, entry(a)),
    ensures
        !text::begins(line, entry(b)),
{
    if text::begins(line, entry(b)) {
        let (m, n) = (entry(a).len() as int, entry(b).len() as int);
        if m <= n {
            assert(entry(b).take(m) =~= line.take(m)) by {
                assert(line.take(n).take(m) =~= line.take(m));
            }
        } else {
            assert(entry(a).take(n) =~= line.take(n)) by {
                assert(line.take(m).take(n) =~= line.take(n));
            }
        }
    }
}

/// A line that begins with an entry.
proof fn lemma_entry_begins(key: Seq<char>, value: Seq<char>)
    ensures
        text::begins(entry(key) + value, entry(key)),
        text::strip(entry(key) + value, entry(key)) == Some(value),
{
    let n = entry(key).len() as int;
    assert((entry(key) + value).take(n) =~= entry(key));
    assert((entry(key) + value).skip(n) =~= value);
}

/// Reading a key gives back what was set, whatever stood in the file.
pub proof fn law_get_after_set(env: Seq<Seq<char>>, key: Seq<char>, value: Seq<char>)
    ensures
        last_value(with_entry(env, key, value), key) == Some(value),
{
    lemma_entry_begins(key, value);
}

/// Setting a key leaves the value of every key that is apart from it.
pub proof fn law_set_keeps_other_keys(
    env: Seq<Seq<char>>,
    key: Seq<char>,
    value: Seq<char>,
    other: Seq<char>,
)
    requires
        apart(key, other),
    ensures
        last_value(with_entry(env, key, value), other) == last_value(env, other),
{
    lemma_entry_begins(key, value);
    lemma_begins_one(entry(key) + value, key, other);
    let next = with_entry(env, key, value);
    assert(next.drop_last() =~= without(env, key));
    lemma_without_keeps_other(env, key, other);
}

proof fn lemma_without_keeps_other(env: Seq<Seq<char>>, key: Seq<char>, other: Seq<char>)
    requires
        apart(key, other),
    ensures
        last_value(without(env, key), other) == last_value(env, other),
    decreases env.len(),
{
    reveal(Seq::filter);
    if env.len() > 0 {
        lemma_without_keeps_other(env.drop_last(), key, other);
        if text::begins(env.last(), entry(key)) {
            lemma_begins_one(env.last(), key, other);
        } else {
            assert(without(env, key).drop_last() =~= without(env.drop_last(), key));
        }
    }
}

/// After a key was set, exactly one line is for it: the last.
pub proof fn law_set_leaves_one_line(env: Seq<Seq<char>>, key: Seq<char>, value: Seq<char>)
    ensures
        with_entry(env, key, value).last() == entry(key) + value,
        forall|i: int|
            0 <= i < with_entry(env, key, value).len() - 1 ==> !text::begins(
                #[trigger] with_entry(env, key, value)[i],
                entry(key),
            ),
{
    let keep = |line: Seq<char>| !text::begins(line, entry(key));
    assert forall|i: int| 0 <= i < with_entry(env, key, value).len() - 1 implies !text::begins(
        #[trigger] with_entry(env, key, value)[i],
        entry(key),
    ) by {
        env.lemma_filter_pred(keep, i);
    }
}

/// Setting a key a second time is as if the first had not been.
pub proof fn law_set_twice(
    env: Seq<Seq<char>>,
    key: Seq<char>,
    first: Seq<char>,
    second: Seq<char>,
)
    ensures
        with_entry(with_entry(env, key, first), key, second) == with_entry(env, key, second),
{
    reveal(Seq::filter);
    let once = with_entry(env, key, first);
    lemma_entry_begins(key, first);
    assert(once.drop_last() =~= without(env, key));
    lemma_without_idempotent(env, key);
}

proof fn lemma_without_idempotent(env: Seq<Seq<char>>, key: Seq<char>)
    ensures
        without(without(env, key), key) == without(env, key),
    decreases env.len(),
{
    reveal(Seq::filter);
    if env.len() > 0 {
        lemma_without_idempotent(env.drop_last(), key);
        if !text::begins(env.last(), entry(key)) {
            assert(without(env, key).drop_last() =~= without(env.drop_last(), key));
        }
    }
}

/// One more line is kept unless it is for the key.
pub proof fn lemma_without_push(env: Seq<Seq<char>>, line: Seq<char>, key: Seq<char>)
    ensures
        without(env.push(line), key) == (if text::begins(line, entry(key)) {
            without(env, key)
        } else {
            without(env, key).push(line)
        }),
{
    reveal(Seq::filter);
    assert(env.push(line).drop_last() =~= env);
}

/// It does not matter which of two keys is dropped first.
pub proof fn lemma_without_commutes(env: Seq<Seq<char>>, a: Seq<char>, b: Seq<char>)
    ensures
        without(without(env, a), b) == without(without(env, b), a),
    decreases env.len(),
{
    reveal(Seq::filter);
    if env.len() > 0 {
        let (rest, line) = (env.drop_last(), env.last());
        lemma_without_commutes(rest, a, b);
        assert(env =~= rest.push(line));
        lemma_without_push(rest, line, a);
        lemma_without_push(rest, line, b);
        lemma_without_push(without(rest, a), line, b);
        lemma_without_push(without(rest, b), line, a);
    }
}

/// Setting a key moves its line to the end and leaves all other lines, comments
/// among them, as they were and in their order.
pub proof fn law_set_keeps_other_lines(env: Seq<Seq<char>>, key: Seq<char>, value: Seq<char>)
    ensures
        without(with_entry(env, key, value), key) == without(env, key),
{
    lemma_entry_begins(key, value);
    lemma_without_push(without(env, key), entry(key) + value, key);
    lemma_without_idempotent(env, key);
}

/// Each line with its line feed, one after another.
pub open spec fn terminated(env: Seq<Seq<char>>) -> Seq<char>
    decreases env.len(),
{
    if env.len() == 0 {
        Seq::empty()
    } else {
        env[0].push('\n') + terminated(env.drop_first())
    }
}

pub proof fn lemma_terminated_push(env: Seq<Seq<char>>, line: Seq<char>)
    ensures
        terminated(env.push(line)) == terminated(env) + line.push('\n'),
    decreases env.len(),
{
    if env.len() == 0 {
        reveal_with_fuel(terminated, 2);
        assert(env.push(line).drop_first() =~= Seq::<Seq<char>>::empty());
        assert(terminated(env.push(line)) =~= terminated(env) + line.push('\n'));
    } else {
        lemma_terminated_push(env.drop_first(), line);
        assert(env.push(line).drop_first() =~= env.drop_first().push(line));
        assert(terminated(env.push(line)) =~= terminated(env) + line.push('\n'));
    }
}

proof fn lemma_body_terminated(env: Seq<Seq<char>>)
    requires
        env.len() > 0,
    ensures
        body_of(env) == terminated(env),
    decreases env.len(),
{
    let rest = env.drop_last();
    assert(env =~= rest.push(env.last()));
    lemma_terminated_push(rest, env.last());
    if env.len() == 1 {
        assert(rest =~= Seq::<Seq<char>>::empty());
        assert(body_of(env) =~= terminated(env));
    } else {
        lemma_body_terminated(rest);
        assert(body_of(env) =~= terminated(env));
    }
}

pub proof fn lemma_lines_of_terminated(env: Seq<Seq<char>>)
    requires
        forall|i: int| 0 <= i < env.len() ==> plain_line(#[trigger] env[i]),
    ensures
        text::lines_of(terminated(env)) == env,
    decreases env.len(),
{
    let s = terminated(env);
    if env.len() == 0 {
        assert(text::lines_of(s) =~= env);
    } else {
        let line = env[0];
        let k = line.len() as int;
        assert(plain_line(line));
        assert forall|i: int| 0 <= i < k implies s[i] != '\n' by {
            assert(line.contains(line[i]));
        }
        text::lemma_position_is(s, '\n', k);
        assert(s.take(k) =~= line);
        assert(s.skip(k + 1) =~= terminated(env.drop_first()));
        assert forall|i: int| 0 <= i < env.drop_first().len() implies plain_line(
            #[trigger] env.drop_first()[i],
        ) by {
            assert(plain_line(env[i + 1]));
        }
        lemma_lines_of_terminated(env.drop_first());
        assert(text::lines_of(s) =~= env);
    }
}

/// A saved file reads back as it was: its lines are the lines that were
/// written. The empty file is left out, since it is saved as one empty line.
pub proof fn law_saved_reads_back(env: Seq<Seq<char>>)
    requires
        env.len() > 0,
        forall|i: int| 0 <= i < env.len() ==> plain_line(#[trigger] env[i]),
    ensures
        text::lines_of(body_of(env)) == env,
{
    lemma_body_terminated(env);
    lemma_lines_of_terminated(env);
}

/// Setting a key to a plain value keeps a file of plain lines plain.
pub proof fn lemma_plain_with_entry(env: Seq<Seq<char>>, key: Seq<char>, value: Seq<char>)
    requires
        forall|i: int| 0 <= i < env.len() ==> plain_line(#[trigger] env[i]),
        plain_line(entry(key) + value),
    ensures
        forall|i: int|
            0 <= i < with_entry(env, key, value).len() ==> plain_line(
                #[trigger] with_entry(env, key, value)[i],
            ),
{
    let next = with_entry(env, key, value);
    let keep = |line: Seq<char>| !text::begins(line, entry(key));
    assert forall|i: int| 0 <= i < next.len() implies plain_line(#[trigger] next[i]) by {
        if i < next.len() - 1 {
            assert(without(env, key).contains(next[i])) by {
                assert(without(env, key)[i] == next[i]);
            }
            env.lemma_filter_contains_rev(keep, next[i]);
            let j = choose|j: int| 0 <= j < env.len() && env[j] == next[i];
            assert(plain_line(env[j]));
        }
    }
}

/// A key that was set to a plain value, in a file of plain lines, still has
/// that value after the file was saved and read again, and the keys apart from
/// it have theirs.
pub proof fn law_set_save_load(
    env: Seq<Seq<char>>,
    key: Seq<char>,
    value: Seq<char>,
    other: Seq<char>,
)
    requires
        forall|i: int| 0 <= i < env.len() ==> plain_line(#[trigger] env[i]),
        plain_line(entry(key) + value),
        apart(key, other),
    ensures
        last_value(text::lines_of(body_of(with_entry(env, key, value))), key) == Some(value),
        last_value(text::lines_of(body_of(with_entry(env, key, value))), other) == last_value(
            env,
            other,
        ),
{
    let next = with_entry(env, key, value);
    lemma_plain_with_entry(env, key, value);
    law_saved_reads_back(next);
    law_get_after_set(env, key, value);
    law_set_keeps_other_keys(env, key, value, other);
}

/// Every key that has a value is among the keys of the file, unless it looks
/// like a comment or has an `=` in it.
pub proof fn law_keys_cover_values(env: Seq<Seq<char>>, key: Seq<char>)
    requires
        last_value(env, key) is Some,
        !key.contains('='),
        key.len() > 0 ==> key[0] != '#',
    ensures
        keys_of(env).contains(key),
    decreases env.len(),
{
    let f = |line: Seq<char>| key_of(line);
    let rest = env.drop_last();
    if text::begins(env.last(), entry(key)) {
        let line = env.last();
        let n = key.len() as int;
        assert(line.take(n + 1) == entry(key));
        assert(line[n] == line.take(n + 1)[n]);
        assert forall|i: int| 0 <= i < n implies line[i] != '=' by {
            assert(line[i] == line.take(n + 1)[i]);
            assert(key.contains(key[i]));
        }
        text::lemma_position_is(line, '=', n);
        assert(line.take(n) =~= key) by {
            assert(line.take(n) =~= line.take(n + 1).take(n));
        }
        if n > 0 {
            assert(line[0] == line.take(n)[0]);
        }
        assert(keys_of(env) == rest.filter_map(f) + seq![key]);
        assert(keys_of(env)[keys_of(env).len() - 1] == key);
    } else {
        law_keys_cover_values(rest, key);
        let i = choose|i: int| 0 <= i < keys_of(rest).len() && keys_of(rest)[i] == key;
        assert(keys_of(env)[i] == key);
    }
}

// ---------------------------------------------------------------------------
// writing a file from scratch
// ---------------------------------------------------------------------------
/// The line that sets `key` to `value`.
pub fn entry_line(key: &str, value: &str) -> (r: String)
    ensures
        r@ == entry(key@) + value@,
{
    let mut line = key.to_owned();
    line.push('=');
    line.concat(value)
}

/// The text of a file with these lines, each with its line feed.
pub fn terminate(env: &Vec<String>) -> (r: String)
    ensures
        r@ == terminated(text::texts(env@)),
{
    let ghost all = text::texts(env@);
    let mut body = String::new();
    let mut i: usize = 0;
    assert(all.take(0) =~= Seq::<Seq<char>>::empty());
    while i < env.len()
        invariant
            i <= env@.len(),
            all == text::texts(env@),
            body@ == terminated(all.take(i as int)),
        decreases env@.len() - i,
    {
        proof {
            lemma_terminated_push(all.take(i as int), all[i as int]);
            assert(all.take(i + 1) =~= all.take(i as int).push(all[i as int]));
        }
        let ghost before = body@;
        body.append(env[i].as_str());
        body.push('\n');
        assert(body@ =~= before + all[i as int].push('\n'));
        i += 1;
    }
    assert(all.take(i as int) =~= all);
    body
}

/// A later line for another key does not change a key's value.
pub proof fn lemma_last_value_other(
    env: Seq<Seq<char>>,
    key: Seq<char>,
    value: Seq<char>,
    other: Seq<char>,
)
    requires
        apart(key, other),
    ensures
        last_value(env.push(entry(key) + value), other) == last_value(env, other),
{
    lemma_entry_begins(key, value);
    lemma_begins_one(entry(key) + value, key, other);
    assert(env.push(entry(key) + value).drop_last() =~= env);
}

/// The last line for a key gives it its value.
pub proof fn lemma_last_value_own(env: Seq<Seq<char>>, key: Seq<char>, value: Seq<char>)
    ensures
        last_value(env.push(entry(key) + value), key) == Some(value),
{
    lemma_entry_begins(key, value);
}

/// A comment gives no key a value.
pub proof fn lemma_last_value_comment(env: Seq<Seq<char>>, line: Seq<char>, key: Seq<char>)
    requires
        line.len() > 0,
        line[0] == '#',
        key.len() > 0,
        key[0] != '#',
    ensures
        last_value(env.push(line), key) == last_value(env, key),
{
    if text::begins(line, entry(key)) {
        assert(line.take(entry(key).len() as int)[0] == entry(key)[0]);
    }
    assert(env.push(line).drop_last() =~= env);
}

/// What comes later in a file wins.
pub proof fn lemma_last_value_append(a: Seq<Seq<char>>, b: Seq<Seq<char>>, key: Seq<char>)
    ensures
        last_value(a + b, key) == (match last_value(b, key) {
            Some(value) => Some(value),
            None => last_value(a, key),
        }),
    decreases b.len(),
{
    if b.len() == 0 {
        assert(a + b =~= a);
    } else {
        assert((a + b).drop_last() =~= a + b.drop_last());
        lemma_last_value_append(a, b.drop_last(), key);
    }
}

/// The line for a plain key with a plain value is plain.
pub proof fn lemma_plain_entry(key: Seq<char>, value: Seq<char>)
    requires
        !key.contains('\n'),
        plain_line(value),
    ensures
        plain_line(entry(key) + value),
{
    let line = entry(key) + value;
    if line.contains('\n') {
        let i = choose|i: int| 0 <= i < line.len() && line[i] == '\n';
        if i < key.len() {
            assert(key.contains(key[i]));
        } else if i > key.len() {
            assert(value.contains(value[i - key.len() - 1]));
        }
    }
    if value.len() > 0 {
        assert(line.last() == value.last());
    } else {
        assert(line.last() == '=');
    }
}

// ---------------------------------------------------------------------------
// laws of reading
// ---------------------------------------------------------------------------
/// Of the lines that begin with a key and `=`, the last gives the value:
/// whatever follows the sign. A key has no value exactly where no line is its.
pub proof fn law_last_line_gives_the_value(
    env: EnvFile,
    key: &str,
    r: Option<String>,
    i: int,
    value: Seq<char>,
)
    requires
        call_ensures(EnvFile::get, (&env, key), r),
    ensures
        0 <= i < env@.len() && env@[i] == key@ + seq!['='] + value && (forall|k: int|
            i < k < env@.len() ==> !text::begins(#[trigger] env@[k], key@ + seq!['='])) ==> r is Some
            && r->0@ == value,
        (forall|k: int|
            0 <= k < env@.len() ==> !text::begins(#[trigger] env@[k], key@ + seq!['='])) ==> r
            is None,
        r is None ==> forall|k: int|
            0 <= k < env@.len() ==> !text::begins(#[trigger] env@[k], key@ + seq!['=']),
{
    assert(entry(key@) =~= key@ + seq!['=']);
    lemma_valueless(env@, key@);
    if 0 <= i < env@.len() && env@[i] == key@ + seq!['='] + value && (forall|k: int|
        i < k < env@.len() ==> !text::begins(#[trigger] env@[k], key@ + seq!['='])) {
        let upto = env@.take(i + 1);
        let rest = env@.skip(i + 1);
        assert(env@ =~= upto + rest);
        assert forall|k: int| 0 <= k < rest.len() implies !text::begins(
            #[trigger] rest[k],
            entry(key@),
        ) by {
            assert(rest[k] == env@[i + 1 + k]);
        }
        lemma_valueless(rest, key@);
        lemma_last_value_append(upto, rest, key@);
        assert(upto =~= env@.take(i).push(entry(key@) + value));
        lemma_last_value_own(env@.take(i), key@, value);
    }
}

proof fn lemma_valueless(env: Seq<Seq<char>>, key: Seq<char>)
    ensures
        last_value(env, key) is None <==> forall|k: int|
            0 <= k < env.len() ==> !text::begins(#[trigger] env[k], entry(key)),
    decreases env.len(),
{
    if env.len() > 0 {
        lemma_valueless(env.drop_last(), key);
        if text::begins(env.last(), entry(key)) {
            assert(text::begins(env[env.len() - 1], entry(key)));
        } else {
            assert forall|k: int|
                (forall|j: int|
                    0 <= j < env.drop_last().len() ==> !text::begins(
                        #[trigger] env.drop_last()[j],
                        entry(key),
                    )) && 0 <= k < env.len() implies !text::begins(#[trigger] env[k], entry(key)) by {
                if k < env.len() - 1 {
                    assert(env.drop_last()[k] == env[k]);
                }
            }
            if forall|k: int| 0 <= k < env.len() ==> !text::begins(#[trigger] env[k], entry(key)) {
                assert forall|k: int| 0 <= k < env.drop_last().len() implies !text::begins(
                    #[trigger] env.drop_last()[k],
                    entry(key),
                ) by {
                    assert(env.drop_last()[k] == env[k]);
                }
            }
        }
    }
}

/// A file is written as its lines, each ended, and with the mode that it has; a
/// new one only its owner can read.
pub proof fn law_saving(env: EnvFile, mode: Option<u32>, r: (String, u32), one: Seq<char>)
    requires
        call_ensures(EnvFile::save, (&env, mode), r),
    ensures
        env@ == seq![one] ==> r.0@ == one + seq!['\n'],
        r.0@.len() > 0 && r.0@.last() == '\n',
        mode is None ==> r.1 == 384,
        mode matches Some(m) ==> (m <= 511 ==> r.1 == m),
{
    if env@ == seq![one] {
        assert(r.0@ =~= one + seq!['\n']);
    }
    if let Some(m) = mode {
        if m <= 511 {
            assert(m & 0o777u32 == m) by (bit_vector)
                requires
                    m <= 511,
            ;
        }
    }
}

/// A line for a key is the key, the sign and the value, and a comment is no
/// line for any.
pub proof fn law_what_a_line_sets(key: &str, value: &str, r: String)
    requires
        call_ensures(entry_line, (key, value), r),
    ensures
        r@ == key@ + seq!['='] + value@,
        !key@.contains('=') && (key@.len() > 0 ==> key@[0] != '#') ==> key_of(r@) == Some(key@),
        key@.len() > 0 && key@[0] == '#' && !key@.contains('=') ==> key_of(r@) is None,
        forall|line: Seq<char>| !line.contains('=') ==> #[trigger] key_of(line) is None,
{
    assert(r@ =~= key@ + seq!['='] + value@);
    if !key@.contains('=') {
        assert forall|i: int| 0 <= i < key@.len() implies r@[i] != '=' by {
            assert(r@[i] == key@[i]);
        }
        text::lemma_position_is(r@, '=', key@.len() as int);
        assert(r@.take(key@.len() as int) =~= key@);
    }
    assert forall|line: Seq<char>| !line.contains('=') implies #[trigger] key_of(line) is None by {
        text::lemma_position_is(line, '=', line.len() as int);
    }
}

} // verus!
