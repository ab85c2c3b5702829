//! File paths as text: components separated by `/`.

use crate::text;
use vstd::prelude::*;

verus! {

pub open spec fn absolute(path: Seq<char>) -> bool {
    path.len() > 0 && path[0] == '/'
}

/// `rel` below `base`; an absolute `rel` stands for itself.
pub open spec fn below(base: Seq<char>, rel: Seq<char>) -> Seq<char> {
    if absolute(rel) {
        rel
    } else if base.len() == 0 || base.last() == '/' {
        base + rel
    } else {
        base.push('/') + rel
    }
}

/// The last component that is neither empty nor the current directory.
pub open spec fn last_component(components: Seq<Seq<char>>) -> Option<Seq<char>>
    decreases components.len(),
{
    if components.len() == 0 {
        None
    } else if components.last().len() == 0 || components.last() == seq!['.'] {
        last_component(components.drop_last())
    } else {
        Some(components.last())
    }
}

/// The name of the file or directory that a path leads to: none for the root,
/// for the current directory, and where the path ends in `..`.
pub open spec fn name_of(path: Seq<char>) -> Option<Seq<char>> {
    match last_component(text::pieces_of(path, '/')) {
        Some(name) => if name == seq!['.', '.'] {
            None
        } else {
            Some(name)
        },
        None => None,
    }
}

pub fn is_absolute(path: &str) -> (r: bool)
    ensures
        r == absolute(path@),
{
    let v = text::to_chars(path);
    v.len() > 0 && v[0] == '/'
}

pub fn join(base: &str, rel: &str) -> (r: String)
    ensures
        r@ == below(base@, rel@),
{
    if is_absolute(rel) {
        return rel.to_owned();
    }
    let v = text::to_chars(base);
    let mut r = base.to_owned();
    if v.len() > 0 && v[v.len() - 1] != '/' {
        r.push('/');
    }
    r.append(rel);
    r
}

pub fn file_name(path: &str) -> (r: Option<String>)
    ensures
        match r {
            Some(name) => name_of(path@) == Some(name@),
            None => name_of(path@) is None,
        },
{
    let parts = text::pieces(path, '/');
    let ghost all = text::texts(parts@);
    let mut i: usize = parts.len();
    assert(all.take(i as int) =~= all);
    proof {
        reveal_strlit(".");
        reveal_strlit("..");
        assert("."@ =~= seq!['.']);
        assert(".."@ =~= seq!['.', '.']);
    }
    while i > 0
        invariant
            i <= parts@.len(),
            all == text::texts(parts@),
            all == text::pieces_of(path@, '/'),
            "."@ == seq!['.'],
            ".."@ == seq!['.', '.'],
            last_component(all) == last_component(all.take(i as int)),
        decreases i,
    {
        i -= 1;
        proof {
            assert(all.take(i + 1).last() == parts@[i as int]@);
            assert(all.take(i + 1).drop_last() =~= all.take(i as int));
        }
        if !parts[i].as_str().is_empty() && !text::same(parts[i].as_str(), ".") {
            if text::same(parts[i].as_str(), "..") {
                return None;
            }
            return Some(parts[i].clone());
        }
    }
    None
}

/// `path` itself where it is absolute, and below `current` where it is not.
pub open spec fn against(path: Seq<char>, current: Seq<char>) -> Seq<char> {
    if absolute(path) {
        path
    } else {
        below(current, path)
    }
}

pub fn absolutize(path: &str, current: &str) -> (r: String)
    ensures
        r@ == against(path@, current@),
{
    join(current, path)
}

// ---------------------------------------------------------------------------
// equality
// ---------------------------------------------------------------------------
/// The components that lead somewhere: neither empty nor the current directory.
pub open spec fn named(components: Seq<Seq<char>>) -> Seq<Seq<char>>
    decreases components.len(),
{
    if components.len() == 0 {
        Seq::empty()
    } else if components.last().len() == 0 || components.last() == seq!['.'] {
        named(components.drop_last())
    } else {
        named(components.drop_last()).push(components.last())
    }
}

/// Whether a path starts at the current directory by name: `./a`, not `a`.
pub open spec fn starts_here(path: Seq<char>) -> bool {
    text::pieces_of(path, '/').first() == seq!['.']
}

/// Whether two paths have the same components. Repeated slashes, a slash at
/// the end and a `.` behind the first component make no difference.
pub open spec fn same_path(a: Seq<char>, b: Seq<char>) -> bool {
    &&& absolute(a) == absolute(b)
    &&& starts_here(a) == starts_here(b)
    &&& named(text::pieces_of(a, '/')) == named(text::pieces_of(b, '/'))
}

/// A slash at the end of a path makes no difference.
pub proof fn law_slash_at_the_end(path: Seq<char>)
    requires
        path.len() > 0,
    ensures
        same_path(path, path.push('/')),
{
    lemma_slash_at_the_end(path);
    let pieces = text::pieces_of(path, '/');
    assert(pieces.push(Seq::empty()).drop_last() =~= pieces);
}

proof fn lemma_slash_at_the_end(path: Seq<char>)
    ensures
        text::pieces_of(path, '/').len() > 0,
        text::pieces_of(path.push('/'), '/') == text::pieces_of(path, '/').push(Seq::empty()),
    decreases path.len(),
{
    let longer = path.push('/');
    text::lemma_position(path, '/');
    let k = text::position(path, '/');
    assert forall|i: int| 0 <= i < k implies longer[i] != '/' by {
        assert(longer[i] == path[i]);
    }
    text::lemma_position_is(longer, '/', k);
    assert(longer.take(k) =~= path.take(k));
    if k == path.len() {
        assert(longer.take(k) =~= path);
        assert(longer.skip(k + 1) =~= Seq::empty());
        text::lemma_position(Seq::empty(), '/');
        assert(text::pieces_of(Seq::empty(), '/') =~= seq![Seq::<char>::empty()]);
        assert(text::pieces_of(longer, '/') =~= seq![path] + seq![Seq::<char>::empty()]);
        assert(text::pieces_of(longer, '/') =~= text::pieces_of(path, '/').push(Seq::empty()));
    } else {
        assert(longer.skip(k + 1) =~= path.skip(k + 1).push('/'));
        lemma_slash_at_the_end(path.skip(k + 1));
        assert(text::pieces_of(longer, '/') =~= text::pieces_of(path, '/').push(Seq::empty()));
    }
}

fn names(pieces: &Vec<String>) -> (r: Vec<String>)
    ensures
        text::texts(r@) == named(text::texts(pieces@)),
{
    let ghost all = text::texts(pieces@);
    let mut r: Vec<String> = Vec::new();
    let mut i: usize = 0;
    assert(all.take(0) =~= Seq::empty());
    assert(text::texts(r@) =~= Seq::empty());
    proof {
        reveal_strlit(".");
        assert("."@ =~= seq!['.']);
    }
    while i < pieces.len()
        invariant
            i <= pieces@.len(),
            all == text::texts(pieces@),
            "."@ == seq!['.'],
            text::texts(r@) == named(all.take(i as int)),
        decreases pieces@.len() - i,
    {
        proof {
            assert(all.take(i + 1).last() == pieces@[i as int]@);
            assert(all.take(i + 1).drop_last() =~= all.take(i as int));
        }
        if !pieces[i].as_str().is_empty() && !text::same(pieces[i].as_str(), ".") {
            proof {
                text::lemma_texts_push(r@, pieces@[i as int]);
            }
            r.push(pieces[i].clone());
        }
        i += 1;
    }
    assert(all.take(i as int) =~= all);
    r
}

pub fn same(a: &str, b: &str) -> (r: bool)
    ensures
        r == same_path(a@, b@),
{
    let x = text::pieces(a, '/');
    let y = text::pieces(b, '/');
    proof {
        reveal_strlit(".");
        assert("."@ =~= seq!['.']);
        lemma_slash_at_the_end(a@);
        lemma_slash_at_the_end(b@);
        assert(text::texts(x@).first() == x@[0]@);
        assert(text::texts(y@).first() == y@[0]@);
    }
    if is_absolute(a) != is_absolute(b) {
        return false;
    }
    if text::same(x[0].as_str(), ".") != text::same(y[0].as_str(), ".") {
        return false;
    }
    let p = names(&x);
    let q = names(&y);
    text::same_list(&p, &q)
}

// ---------------------------------------------------------------------------
// laws of joining
// ---------------------------------------------------------------------------
/// A name that leads to a file in its directory: no separator in it, and
/// neither empty, `.` nor `..`.
pub open spec fn plain_name(name: Seq<char>) -> bool {
    &&& !name.contains('/')
    &&& name.len() > 0
    &&& name != seq!['.']
    &&& name != seq!['.', '.']
}

pub proof fn lemma_pieces_below(base: Seq<char>, name: Seq<char>)
    requires
        plain_name(name),
        base.len() > 0,
    ensures
        named(text::pieces_of(below(base, name), '/')) == named(text::pieces_of(base, '/')).push(
            name,
        ),
        last_component(text::pieces_of(below(base, name), '/')) == Some(name),
        text::pieces_of(base, '/').len() > 0,
        text::pieces_of(below(base, name), '/').first() == text::pieces_of(base, '/').first(),
        absolute(below(base, name)) == absolute(base),
{
    assert(name[0] != '/');
    let short = if base.last() == '/' {
        base.drop_last()
    } else {
        base
    };
    assert(below(base, name) =~= short + seq!['/'] + name);
    text::lemma_pieces_concat(short, '/', name);
    text::lemma_position_is(name, '/', name.len() as int);
    assert(text::pieces_of(name, '/') =~= seq![name]);
    let pieces = text::pieces_of(short, '/');
    let all = text::pieces_of(below(base, name), '/');
    assert(all =~= pieces.push(name));
    assert(all.drop_last() =~= pieces);
    lemma_slash_at_the_end(short);
    if base.last() == '/' {
        assert(base =~= short.push('/'));
        assert(text::pieces_of(base, '/').drop_last() =~= pieces);
    }
}

/// A file's path below a directory names the file, and starts where the
/// directory's path does. A slash is put between the two where there is none.
pub proof fn law_joined_path_names_the_file(
    base: &str,
    name: &str,
    joined: String,
    path: &str,
    r: Option<String>,
)
    requires
        call_ensures(join, (base, name), joined),
        path@ == joined@,
        base@.len() > 0,
        plain_name(name@),
        call_ensures(file_name, (path,), r),
    ensures
        r is Some && r->0@ == name@,
        absolute(path@) == absolute(base@),
        base@.last() != '/' ==> path@ == base@ + seq!['/'] + name@,
        base@.last() == '/' ==> path@ == base@ + name@,
{
    lemma_pieces_below(base@, name@);
    assert(name@[0] != '/');
    if base@.last() != '/' {
        assert(path@ =~= base@ + seq!['/'] + name@);
    }
}

/// A slash at the end of a directory's path does not change its name; the root,
/// the current directory and a parent have none.
pub proof fn law_nameless_paths(path: &str, r: Option<String>)
    requires
        call_ensures(file_name, (path,), r),
    ensures
        path@ == seq!['/'] || path@ == seq!['.'] || path@ == seq!['.', '.'] || path@.len() == 0
            ==> r is None,
        r matches Some(name) ==> plain_name(name@),
{
    reveal_with_fuel(last_component, 3);
    let s = path@;
    if s == seq!['/'] {
        lemma_slash_at_the_end(Seq::empty());
        text::lemma_position(Seq::empty(), '/');
        assert(s =~= Seq::<char>::empty().push('/'));
        let pieces = text::pieces_of(s, '/');
        assert(pieces.drop_last() =~= seq![Seq::<char>::empty()]);
        assert(pieces.drop_last().drop_last() =~= Seq::empty());
    } else if s.len() == 0 || s == seq!['.'] || s == seq!['.', '.'] {
        text::lemma_position_is(s, '/', s.len() as int);
        assert(text::pieces_of(s, '/') =~= seq![s]);
        assert(text::pieces_of(s, '/').drop_last() =~= Seq::empty());
    }
    if r is Some {
        text::lemma_pieces_rejoin(s, '/');
        lemma_component_is_one(text::pieces_of(s, '/'));
    }
}

proof fn lemma_component_is_one(components: Seq<Seq<char>>)
    ensures
        last_component(components) matches Some(name) ==> components.contains(name) && name.len()
            > 0 && name != seq!['.'],
    decreases components.len(),
{
    if components.len() > 0 {
        lemma_component_is_one(components.drop_last());
        if components.last().len() == 0 || components.last() == seq!['.'] {
            if let Some(name) = last_component(components) {
                let i = choose|i: int|
                    0 <= i < components.drop_last().len() && components.drop_last()[i] == name;
                assert(components[i] == name);
            }
        }
    }
}

/// Two files of one directory are the same file exactly where they have the
/// same name.
pub proof fn law_files_of_one_directory(base: Seq<char>, a: &str, b: &str, x: Seq<char>, y: Seq<char>, r: bool)
    requires
        base.len() > 0,
        plain_name(x),
        plain_name(y),
        a@ == below(base, x),
        b@ == below(base, y),
        call_ensures(same, (a, b), r),
    ensures
        r <==> x == y,
{
    lemma_pieces_below(base, x);
    lemma_pieces_below(base, y);
    let names = named(text::pieces_of(base, '/'));
    assert(names.push(x).last() == x);
    assert(names.push(y).last() == y);
}

/// An absolute path stays as it is, and every other becomes one below the
/// current directory.
pub proof fn law_absolute_paths(path: &str, current: &str, r: String)
    requires
        call_ensures(absolutize, (path, current), r),
        absolute(current@),
    ensures
        absolute(r@),
        absolute(path@) ==> r@ == path@,
        !absolute(path@) && current@.last() != '/' ==> r@ == current@ + seq!['/'] + path@,
        !absolute(path@) && current@.last() == '/' ==> r@ == current@ + path@,
{
    if !absolute(path@) && current@.last() != '/' {
        assert(r@ =~= current@ + seq!['/'] + path@);
    }
}

proof fn lemma_named_concat(x: Seq<Seq<char>>, y: Seq<Seq<char>>)
    ensures
        named(x + y) == named(x) + named(y),
    decreases y.len(),
{
    if y.len() == 0 {
        assert(x + y =~= x);
    } else {
        lemma_named_concat(x, y.drop_last());
        assert((x + y).drop_last() =~= x + y.drop_last());
        assert(named(x + y) =~= named(x) + named(y));
    }
}

/// A path is the same as itself, whichever comes first, and an absolute path is
/// the same as no other kind.
pub proof fn law_where_paths_start(a: &str, b: &str, r: bool, turned: bool, own: bool)
    requires
        call_ensures(same, (a, b), r),
        call_ensures(same, (b, a), turned),
        call_ensures(same, (a, a), own),
    ensures
        own,
        r == turned,
        absolute(a@) != absolute(b@) ==> !r,
        text::pieces_of(a@, '/')[0] == seq!['.'] && text::pieces_of(b@, '/')[0] != seq!['.'] ==> !r,
{
}

/// A second slash, or a dot between two, makes no difference within a path.
pub proof fn law_dots_and_slashes(
    head: Seq<char>,
    tail: Seq<char>,
    one: &str,
    two: &str,
    dot: &str,
    slashes: bool,
    dots: bool,
)
    requires
        head.len() > 0,
        one@ == head + seq!['/'] + tail,
        two@ == head + seq!['/', '/'] + tail,
        dot@ == head + seq!['/', '.', '/'] + tail,
        call_ensures(same, (one, two), slashes),
        call_ensures(same, (one, dot), dots),
    ensures
        slashes,
        dots,
{
    let none = Seq::<char>::empty();
    let here = seq!['.'];
    reveal_with_fuel(named, 2);
    let (x, y) = (text::pieces_of(head, '/'), text::pieces_of(tail, '/'));
    lemma_slash_at_the_end(head);
    text::lemma_pieces_concat(head, '/', tail);
    text::lemma_position_is(none, '/', 0);
    text::lemma_position_is(here, '/', 1);
    assert(text::pieces_of(none, '/') =~= seq![none]);
    assert(text::pieces_of(here, '/') =~= seq![here]);
    assert(two@ =~= head + seq!['/'] + (none + seq!['/'] + tail));
    assert(dot@ =~= head + seq!['/'] + (here + seq!['/'] + tail));
    text::lemma_pieces_concat(none, '/', tail);
    text::lemma_pieces_concat(here, '/', tail);
    text::lemma_pieces_concat(head, '/', none + seq!['/'] + tail);
    text::lemma_pieces_concat(head, '/', here + seq!['/'] + tail);
    lemma_named_concat(x, y);
    lemma_named_concat(x, seq![none] + y);
    lemma_named_concat(x, seq![here] + y);
    lemma_named_concat(seq![none], y);
    lemma_named_concat(seq![here], y);
    assert(seq![none].drop_last() =~= Seq::empty());
    assert(seq![here].drop_last() =~= Seq::empty());
    assert(named(seq![none]) =~= Seq::empty());
    assert(named(seq![here]) =~= Seq::empty());
    assert(named(text::pieces_of(two@, '/')) =~= named(text::pieces_of(one@, '/')));
    assert(named(text::pieces_of(dot@, '/')) =~= named(text::pieces_of(one@, '/')));
    assert(one@[0] == head[0] && two@[0] == head[0] && dot@[0] == head[0]);
}

} // verus!
