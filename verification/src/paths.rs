//! Paths and the names along them.
use vstd::prelude::*;
use vstd::string::*;

use crate::text::{chars_of, same_text};

verus! {

/// Whether `i` is the place of the first slash.
pub open spec fn first_slash(p: Seq<char>, i: int) -> bool {
    &&& 0 <= i < p.len()
    &&& p[i] == '/'
    &&& forall|j: int| 0 <= j < i ==> p[j] != '/'
}

/// What stands between the slashes of a path, empty pieces among it.
pub open spec fn segments(p: Seq<char>) -> Seq<Seq<char>>
    decreases p.len(),
{
    if exists|i: int| first_slash(p, i) {
        let i = choose|i: int| first_slash(p, i);
        seq![p.take(i)] + segments(p.skip(i + 1))
    } else {
        seq![p]
    }
}

/// A path that starts at the root.
pub open spec fn absolute(p: Seq<char>) -> bool {
    p.len() > 0 && p[0] == '/'
}

/// Whether a piece of a path names something: doubled slashes and lone dots name
/// nothing.
pub open spec fn naming() -> spec_fn(Seq<char>) -> bool {
    |s: Seq<char>| s.len() > 0 && s != "."@
}

/// The names along a path.
pub open spec fn names(p: Seq<char>) -> Seq<Seq<char>> {
    segments(p).filter(naming())
}

/// Whether a path steps up, or starts at the current directory.
pub open spec fn steps_back(p: Seq<char>) -> bool {
    segments(p).contains(".."@) || segments(p)[0] == "."@
}

/// An absolute path that never steps up. Doubled slashes and lone dots may stand in
/// it: they lead nowhere.
pub open spec fn downward(p: Seq<char>) -> bool {
    absolute(p) && !steps_back(p)
}

/// Whether a piece of a path is a name, and neither empty nor made of dots that
/// stand for a directory.
pub open spec fn proper_name(piece: Seq<char>) -> bool {
    piece.len() > 0 && piece != "."@ && piece != ".."@
}

/// An absolute path in its only form: every slash is followed by a name. The root
/// directory alone has none.
pub open spec fn canonical(p: Seq<char>) -> bool {
    absolute(p) && (p.len() == 1 || forall|i: int|
        1 <= i < segments(p).len() ==> proper_name(#[trigger] segments(p)[i]))
}

/// Whether a path lies in what the system itself installs.
pub open spec fn system_path(p: Seq<char>) -> bool {
    absolute(p) && names(p).len() > 0 && names(p)[0] == "usr"@
}

/// Whether a path lies below a directory.
pub open spec fn below(p: Seq<char>, root: Seq<char>) -> bool {
    &&& absolute(p)
    &&& absolute(root)
    &&& names(root).len() < names(p).len()
    &&& names(p).take(names(root).len() as int) == names(root)
}

proof fn lemma_slash_is_unique(p: Seq<char>, i: int, j: int)
    requires
        first_slash(p, i),
        first_slash(p, j),
    ensures
        i == j,
{
}

proof fn lemma_segments_not_empty(p: Seq<char>)
    ensures
        segments(p).len() > 0,
{
}

/// What stands between the slashes of a path.
fn segments_of(p: &str) -> (parts: Vec<String>)
    ensures
        parts@.len() == segments(p@).len(),
        forall|i: int| 0 <= i < parts@.len() ==> #[trigger] parts@[i]@ == segments(p@)[i],
{
    let v = chars_of(p);
    let n: usize = v.len();
    let mut parts: Vec<String> = Vec::new();
    let mut start: usize = 0;
    let mut i: usize = 0;
    let ghost mut texts: Seq<Seq<char>> = Seq::empty();
    assert(p@.skip(0) =~= p@);
    assert(texts + segments(p@) =~= segments(p@));
    while i < n
        invariant
            n == v@.len(),
            v@ == p@,
            start <= i <= n,
            forall|j: int| start <= j < i ==> p@[j] != '/',
            parts@.len() == texts.len(),
            forall|j: int| 0 <= j < parts@.len() ==> #[trigger] parts@[j]@ == texts[j],
            texts + segments(p@.skip(start as int)) == segments(p@),
        decreases n - i,
    {
        if v[i] == '/' {
            let ghost here = p@.skip(start as int);
            let ghost k: int = i - start;
            assert(first_slash(here, k));
            let ghost c = choose|c: int| first_slash(here, c);
            proof {
                lemma_slash_is_unique(here, k, c);
            }
            let part = p.substring_char(start, i).to_owned();
            assert(here.take(k) =~= part@);
            assert(here.skip(k + 1) =~= p@.skip(i + 1));
            parts.push(part);
            proof {
                assert(texts.push(part@) + segments(p@.skip(i + 1)) =~= texts + (seq![part@]
                    + segments(p@.skip(i + 1))));
                texts = texts.push(part@);
            }
            start = i + 1;
        }
        i = i + 1;
    }
    let ghost here = p@.skip(start as int);
    assert(!exists|c: int| first_slash(here, c)) by {
        if exists|c: int| first_slash(here, c) {
            let c = choose|c: int| first_slash(here, c);
            assert(p@[start + c] == '/');
        }
    }
    let part = p.substring_char(start, n).to_owned();
    assert(part@ =~= here);
    parts.push(part);
    assert(texts + seq![part@] =~= texts.push(part@));
    parts
}

/// Whether a path starts at the root.
pub fn is_absolute(p: &str) -> (r: bool)
    ensures
        r == absolute(p@),
{
    let v = chars_of(p);
    v.len() > 0 && v[0] == '/'
}

/// Whether a path steps up, or starts at the current directory.
pub fn has_step_back(p: &str) -> (r: bool)
    ensures
        r == steps_back(p@),
{
    let parts = segments_of(p);
    proof {
        lemma_segments_not_empty(p@);
    }
    if same_text(parts[0].as_str(), ".") {
        return true;
    }
    let n: usize = parts.len();
    for i in 0..n
        invariant
            n == parts@.len(),
            parts@.len() == segments(p@).len(),
            forall|j: int| 0 <= j < parts@.len() ==> #[trigger] parts@[j]@ == segments(p@)[j],
            forall|j: int| 0 <= j < i ==> segments(p@)[j] != ".."@,
    {
        if same_text(parts[i].as_str(), "..") {
            assert(segments(p@)[i as int] == ".."@);
            return true;
        }
    }
    false
}

/// Whether a path is absolute and in its only form.
pub fn is_canonical(p: &str) -> (r: bool)
    ensures
        r == canonical(p@),
{
    if !is_absolute(p) {
        return false;
    }
    if p.unicode_len() == 1 {
        return true;
    }
    let parts = segments_of(p);
    let n: usize = parts.len();
    for i in 1..n
        invariant
            n == parts@.len(),
            parts@.len() == segments(p@).len(),
            absolute(p@),
            p@.len() != 1,
            forall|j: int| 0 <= j < parts@.len() ==> #[trigger] parts@[j]@ == segments(p@)[j],
            forall|j: int| 1 <= j < i ==> proper_name(#[trigger] segments(p@)[j]),
    {
        let part = parts[i].as_str();
        if part.is_empty() || same_text(part, ".") || same_text(part, "..") {
            assert(!proper_name(segments(p@)[i as int]));
            return false;
        }
    }
    true
}

/// Along a path in its only form, every piece behind the first slash is a name of
/// its own: nothing is passed over.
pub proof fn lemma_canonical_names(p: Seq<char>)
    requires
        canonical(p),
        p.len() > 1,
    ensures
        names(p) == segments(p).skip(1),
{
    let all = segments(p);
    lemma_segments_not_empty(p);
    assert(first_slash(p, 0));
    let c = choose|i: int| first_slash(p, i);
    lemma_slash_is_unique(p, 0, c);
    assert(all[0] =~= p.take(0));
    assert(all =~= seq![all[0]] + all.skip(1));
    lemma_filter_drops_first(all);
    lemma_filter_keeps_all(all.skip(1));
}

/// The root directory has no name.
pub proof fn lemma_root_has_no_names(p: Seq<char>)
    requires
        absolute(p),
        p.len() == 1,
    ensures
        names(p).len() == 0,
{
    reveal(Seq::filter);
    assert(first_slash(p, 0));
    let c = choose|i: int| first_slash(p, i);
    lemma_slash_is_unique(p, 0, c);
    assert(p.take(0) =~= Seq::empty());
    let rest = p.skip(1);
    assert(!exists|i: int| first_slash(rest, i));
    assert(segments(rest) =~= seq![rest]);
    let all = segments(p);
    assert(all =~= seq![p.take(0), rest]);
    lemma_filter_drops_first(all);
    assert(all.skip(1) =~= seq![rest]);
    lemma_filter_drops_first(all.skip(1));
    assert(all.skip(1).skip(1) =~= Seq::empty());
}

proof fn lemma_filter_keeps_all(pieces: Seq<Seq<char>>)
    requires
        forall|i: int| 0 <= i < pieces.len() ==> proper_name(#[trigger] pieces[i]),
    ensures
        pieces.filter(naming()) == pieces,
    decreases pieces.len(),
{
    reveal(Seq::filter);
    if pieces.len() > 0 {
        lemma_filter_keeps_all(pieces.drop_last());
        assert(proper_name(pieces[pieces.len() - 1]));
        assert(pieces.drop_last().push(pieces.last()) =~= pieces);
    }
}

proof fn lemma_filter_drops_first(pieces: Seq<Seq<char>>)
    requires
        pieces.len() > 0,
        !naming()(pieces[0]),
    ensures
        pieces.filter(naming()) == pieces.skip(1).filter(naming()),
    decreases pieces.len(),
{
    reveal(Seq::filter);
    if pieces.len() == 1 {
        assert(pieces.drop_last().filter(naming()) =~= Seq::empty());
        assert(pieces.skip(1).filter(naming()) =~= Seq::empty());
    } else {
        lemma_filter_drops_first(pieces.drop_last());
        assert(pieces.drop_last().skip(1) =~= pieces.skip(1).drop_last());
        assert(pieces.skip(1).last() == pieces.last());
    }
}

/// The names along a path.
pub fn path_names(p: &str) -> (list: Vec<String>)
    ensures
        list@.len() == names(p@).len(),
        forall|i: int| 0 <= i < list@.len() ==> #[trigger] list@[i]@ == names(p@)[i],
{
    let parts = segments_of(p);
    let n: usize = parts.len();
    let mut list: Vec<String> = Vec::new();
    let ghost all = segments(p@);
    let ghost mut texts: Seq<Seq<char>> = Seq::empty();
    reveal(Seq::filter);
    assert(all.take(0).filter(naming()) =~= texts);
    for i in 0..n
        invariant
            n == parts@.len(),
            all == segments(p@),
            parts@.len() == all.len(),
            forall|j: int| 0 <= j < parts@.len() ==> #[trigger] parts@[j]@ == all[j],
            list@.len() == texts.len(),
            forall|j: int| 0 <= j < list@.len() ==> #[trigger] list@[j]@ == texts[j],
            texts == all.take(i as int).filter(naming()),
    {
        reveal(Seq::filter);
        let part = parts[i].clone();
        assert(all.take(i + 1).drop_last() =~= all.take(i as int));
        assert(all.take(i + 1).last() == part@);
        if !part.as_str().is_empty() && !same_text(part.as_str(), ".") {
            proof {
                texts = texts.push(part@);
            }
            list.push(part);
        }
    }
    assert(all.take(n as int) =~= all);
    list
}

/// Pieces with slashes between them.
pub open spec fn slashed(pieces: Seq<Seq<char>>) -> Seq<char>
    decreases pieces.len(),
{
    if pieces.len() == 0 {
        Seq::empty()
    } else if pieces.len() == 1 {
        pieces[0]
    } else {
        pieces[0] + seq!['/'] + slashed(pieces.skip(1))
    }
}

/// A path is cut at its slashes and nowhere else: its pieces hold none, and with slashes
/// between them they make up the path.
pub proof fn law_paths_are_cut_at_their_slashes(p: Seq<char>)
    ensures
        segments(p).len() > 0,
        slashed(segments(p)) == p,
        forall|k: int| 0 <= k < segments(p).len() ==> !(#[trigger] segments(p)[k]).contains('/'),
    decreases p.len(),
{
    if exists|i: int| first_slash(p, i) {
        let i = choose|i: int| first_slash(p, i);
        let rest = p.skip(i + 1);
        law_paths_are_cut_at_their_slashes(rest);
        assert(segments(p) == seq![p.take(i)] + segments(rest));
        assert(segments(p).skip(1) =~= segments(rest));
        assert(slashed(segments(p)) == p.take(i) + seq!['/'] + rest);
        assert(p =~= p.take(i) + seq!['/'] + rest);
        assert forall|k: int| 0 <= k < segments(p).len() implies !(#[trigger] segments(
            p,
        )[k]).contains('/') by {
            if k > 0 {
                assert(segments(p)[k] == segments(rest)[k - 1]);
            } else {
                let head = p.take(i);
                if head.contains('/') {
                    let j = head.index_of('/');
                    assert(p[j] == '/');
                }
            }
        }
    } else {
        if p.contains('/') {
            lemma_first_slash(p);
        }
    }
}

proof fn lemma_first_slash(p: Seq<char>)
    requires
        p.contains('/'),
    ensures
        exists|i: int| first_slash(p, i),
{
    p.index_of_first_ensures('/');
    let i = p.index_of_first('/')->0;
    assert(first_slash(p, i));
}

/// The names along a path are its pieces that are neither empty nor a lone dot, in their
/// order.
pub proof fn law_names_are_the_pieces_that_name(p: Seq<char>, name: Seq<char>)
    ensures
        names(p).contains(name) <==> segments(p).contains(name) && name.len() > 0 && name != "."@,
        forall|i: int|
            0 <= i < names(p).len() ==> (#[trigger] names(p)[i]).len() > 0 && names(p)[i] != "."@,
        names(p).len() <= segments(p).len(),
{
    let pieces = segments(p);
    lemma_filter_holds(pieces, naming(), name);
}

proof fn lemma_filter_holds(
    pieces: Seq<Seq<char>>,
    keep: spec_fn(Seq<char>) -> bool,
    name: Seq<char>,
)
    ensures
        forall|i: int|
            0 <= i < pieces.filter(keep).len() ==> keep(#[trigger] pieces.filter(keep)[i]),
        pieces.filter(keep).len() <= pieces.len(),
        pieces.filter(keep).contains(name) <==> pieces.contains(name) && keep(name),
    decreases pieces.len(),
{
    reveal(Seq::filter);
    if pieces.len() > 0 {
        let less = pieces.drop_last();
        lemma_filter_holds(less, keep, name);
        let kept = less.filter(keep);
        if pieces.contains(name) && pieces.last() != name {
            let i = pieces.index_of(name);
            assert(less[i] == name);
        }
        if less.contains(name) {
            let i = less.index_of(name);
            assert(pieces[i] == name);
        }
        if keep(pieces.last()) {
            let all = kept.push(pieces.last());
            assert(all[kept.len() as int] == pieces.last());
            if kept.contains(name) {
                let i = kept.index_of(name);
                assert(all[i] == name);
            }
            if all.contains(name) && pieces.last() != name {
                let i = all.index_of(name);
                assert(kept[i] == name);
            }
        }
        assert(pieces[pieces.len() - 1] == pieces.last());
    }
}

/// A path never steps up exactly if none of its pieces is a double dot and it does not
/// start at the current directory; and it is in its only form exactly if every slash is
/// followed by a name.
pub proof fn law_paths_are_told_apart(
    p: &str,
    rooted: bool,
    back: bool,
    only_form: bool,
)
    requires
        call_ensures(is_absolute, (p,), rooted),
        call_ensures(has_step_back, (p,), back),
        call_ensures(is_canonical, (p,), only_form),
    ensures
        rooted <==> p@.len() > 0 && p@[0] == '/',
        back <==> (exists|k: int|
            0 <= k < segments(p@).len() && #[trigger] segments(p@)[k] == ".."@) || segments(p@)[0]
            == "."@,
        only_form <==> rooted && (p@.len() == 1 || forall|k: int|
            1 <= k < segments(p@).len() ==> (#[trigger] segments(p@)[k]).len() > 0 && segments(
                p@,
            )[k] != "."@ && segments(p@)[k] != ".."@),
{
    let pieces = segments(p@);
    if forall|k: int|
        1 <= k < pieces.len() ==> (#[trigger] pieces[k]).len() > 0 && pieces[k] != "."@ && pieces[k]
            != ".."@ {
        assert forall|k: int| 1 <= k < pieces.len() implies proper_name(#[trigger] pieces[k]) by {}
    } else {
        let k = choose|k: int|
            1 <= k < pieces.len() && !((#[trigger] pieces[k]).len() > 0 && pieces[k] != "."@
                && pieces[k] != ".."@);
        assert(!proper_name(pieces[k]));
    }
}

/// A path is one of the system exactly if its first name is `usr`, and it lies below a
/// directory exactly if the names of the directory are its first ones and not all.
pub proof fn law_places_are_known_by_their_names(p: Seq<char>, root: Seq<char>)
    ensures
        system_path(p) <==> p.len() > 0 && p[0] == '/' && names(p).len() > 0 && names(p)[0]
            == "usr"@,
        below(p, root) <==> p.len() > 0 && p[0] == '/' && root.len() > 0 && root[0] == '/' && names(
            root,
        ).len() < names(p).len() && forall|k: int|
            0 <= k < names(root).len() ==> #[trigger] names(p)[k] == names(root)[k],
{
    let all = names(p);
    let some = names(root);
    if some.len() < all.len() {
        if forall|k: int| 0 <= k < some.len() ==> #[trigger] all[k] == some[k] {
            assert(all.take(some.len() as int) =~= some);
        } else {
            let k = choose|k: int| 0 <= k < some.len() && #[trigger] all[k] != some[k];
            assert(all.take(some.len() as int)[k] != some[k]);
        }
    }
}

/// The names along a path are listed in their order.
pub proof fn law_names_are_listed(p: &str, list: Vec<String>)
    requires
        call_ensures(path_names, (p,), list),
    ensures
        list@.len() == names(p@).len(),
        forall|i: int| 0 <= i < list@.len() ==> (#[trigger] list@[i])@ == names(p@)[i],
{
}

} // verus!
