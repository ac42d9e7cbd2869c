//! File paths.
//!
//! Paths are compared by the components between their slashes, not as text.
use vstd::prelude::*;
use vstd::string::StrSliceExecFns;

verus! {

/// The pieces of a path: what lies before, between and after its slashes.
pub open spec fn pieces(path: Seq<char>) -> Seq<Seq<char>>
    decreases path.len(),
{
    if path.len() == 0 {
        seq![Seq::<char>::empty()]
    } else {
        let before = pieces(path.drop_last());
        if path.last() == '/' {
            before.push(Seq::<char>::empty())
        } else {
            before.drop_last().push(before.last().push(path.last()))
        }
    }
}

/// Whether a piece is a single dot.
pub open spec fn is_dot(piece: Seq<char>) -> bool {
    piece.len() == 1 && piece[0] == '.'
}

/// Whether a piece names a step of the path. Empty pieces, from repeated or
/// trailing slashes, and dots name none.
pub open spec fn is_step(piece: Seq<char>) -> bool {
    piece.len() > 0 && !is_dot(piece)
}

/// The steps of a path, in order.
pub open spec fn steps(path: Seq<char>) -> Seq<Seq<char>> {
    pieces(path).filter(|p: Seq<char>| is_step(p))
}

/// Whether a path starts at the root.
pub open spec fn is_rooted(path: Seq<char>) -> bool {
    path.len() > 0 && path[0] == '/'
}

/// Whether two texts are the same path: both or neither start at the root, both or
/// neither start with a dot, and they have the same steps.
pub open spec fn same_path(a: Seq<char>, b: Seq<char>) -> bool {
    &&& is_rooted(a) == is_rooted(b)
    &&& is_dot(pieces(a)[0]) == is_dot(pieces(b)[0])
    &&& steps(a) == steps(b)
}

/// The texts of a list of pieces.
pub open spec fn texts(list: Seq<Vec<char>>) -> Seq<Seq<char>> {
    list.map_values(|p: Vec<char>| p@)
}

fn split(path: &str) -> (out: Vec<Vec<char>>)
    ensures
        out@.len() > 0,
        texts(out@) == pieces(path@),
{
    let mut out: Vec<Vec<char>> = Vec::new();
    let mut piece: Vec<char> = Vec::new();
    let n: usize = path.unicode_len();
    for i in 0..n
        invariant
            n == path@.len(),
            texts(out@).push(piece@) == pieces(path@.take(i as int)),
    {
        let c = path.get_char(i);
        let ghost before = out@;
        let ghost open = piece@;
        proof {
            assert(path@.take(i + 1).drop_last() =~= path@.take(i as int));
            assert(texts(before).push(open).drop_last() =~= texts(before));
        }
        if c == '/' {
            out.push(piece);
            piece = Vec::new();
            assert(texts(out@) =~= texts(before).push(open));
        } else {
            piece.push(c);
        }
        assert(texts(out@).push(piece@) =~= pieces(path@.take(i + 1)));
    }
    assert(path@.take(n as int) =~= path@);
    let ghost before = out@;
    let ghost last = piece@;
    out.push(piece);
    assert(texts(out@) =~= texts(before).push(last));
    out
}

fn dot(piece: &Vec<char>) -> (b: bool)
    ensures
        b == is_dot(piece@),
{
    piece.len() == 1 && piece[0] == '.'
}

fn keep_steps(all: Vec<Vec<char>>) -> (out: Vec<Vec<char>>)
    ensures
        texts(out@) == texts(all@).filter(|p: Seq<char>| is_step(p)),
{
    let ghost list = all@;
    let ghost step = |p: Seq<char>| is_step(p);
    let mut out: Vec<Vec<char>> = Vec::new();
    proof {
        reveal(Seq::filter);
    }
    assert(texts(out@) =~= texts(list).take(0).filter(step));
    for piece in it: all
        invariant
            it.seq() == list,
            step == (|p: Seq<char>| is_step(p)),
            texts(out@) == texts(list).take(it.index() as int).filter(step),
    {
        let ghost i = it.index() as int;
        let ghost before = out@;
        let ghost text = piece@;
        proof {
            reveal(Seq::filter);
            assert(texts(list).take(i + 1).drop_last() =~= texts(list).take(i));
            assert(texts(list).take(i + 1).last() == text);
        }
        if piece.len() > 0 && !dot(&piece) {
            out.push(piece);
            assert(texts(out@) =~= texts(before).push(text));
        }
    }
    assert(texts(list).take(list.len() as int) =~= texts(list));
    out
}

fn same_pieces(a: &Vec<Vec<char>>, b: &Vec<Vec<char>>) -> (same: bool)
    ensures
        same == (texts(a@) == texts(b@)),
{
    if a.len() != b.len() {
        assert(texts(a@).len() != texts(b@).len());
        return false;
    }
    let n: usize = a.len();
    for i in 0..n
        invariant
            n == a@.len() == b@.len(),
            forall|j: int| 0 <= j < i ==> (#[trigger] a@[j])@ == b@[j]@,
    {
        if !same_chars(&a[i], &b[i]) {
            assert(texts(a@)[i as int] != texts(b@)[i as int]);
            return false;
        }
    }
    assert(texts(a@) =~= texts(b@));
    true
}

fn same_chars(a: &Vec<char>, b: &Vec<char>) -> (same: bool)
    ensures
        same == (a@ == b@),
{
    if a.len() != b.len() {
        return false;
    }
    let n: usize = a.len();
    for i in 0..n
        invariant
            n == a@.len() == b@.len(),
            forall|j: int| 0 <= j < i ==> a@[j] == b@[j],
    {
        if a[i] != b[i] {
            return false;
        }
    }
    assert(a@ =~= b@);
    true
}

fn starts_at_root(path: &str) -> (b: bool)
    ensures
        b == is_rooted(path@),
{
    !path.is_empty() && path.get_char(0) == '/'
}

/// Whether two texts are the same path. Repeated slashes, a trailing slash and
/// dots past the start make no difference.
pub fn is_same_path(a: &str, b: &str) -> (same: bool)
    ensures
        same == same_path(a@, b@),
{
    let (left, right) = (split(a), split(b));
    assert(texts(left@)[0] == left@[0]@);
    assert(texts(right@)[0] == right@[0]@);
    if starts_at_root(a) != starts_at_root(b) || dot(&left[0]) != dot(&right[0]) {
        return false;
    }
    same_pieces(&keep_steps(left), &keep_steps(right))
}

/// Joining paths joins their steps: a slash, or any number of them, between two
/// texts gives the steps of the first and then those of the second.
pub proof fn law_steps_join(a: Seq<char>, b: Seq<char>)
    ensures
        steps(a.push('/') + b) == steps(a) + steps(b),
{
    lemma_pieces_join(a, b);
    lemma_pieces_len(a);
    let step = |p: Seq<char>| is_step(p);
    Seq::filter_distributes_over_add(pieces(a), pieces(b), step);
}

proof fn lemma_pieces_len(path: Seq<char>)
    ensures
        pieces(path).len() > 0,
    decreases path.len(),
{
    if path.len() > 0 {
        lemma_pieces_len(path.drop_last());
    }
}

proof fn lemma_pieces_join(a: Seq<char>, b: Seq<char>)
    ensures
        pieces(a.push('/') + b) == pieces(a) + pieces(b),
    decreases b.len(),
{
    let joined = a.push('/') + b;
    if b.len() == 0 {
        assert(joined =~= a.push('/'));
        assert(a.push('/').drop_last() =~= a);
        assert(pieces(a).push(Seq::<char>::empty()) =~= pieces(a) + pieces(b));
    } else {
        lemma_pieces_join(a, b.drop_last());
        lemma_pieces_len(b.drop_last());
        assert(joined.drop_last() =~= a.push('/') + b.drop_last());
        assert(pieces(joined) =~= pieces(a) + pieces(b));
    }
}

/// A text without slashes is one step, unless it is empty or a dot.
pub proof fn law_plain_names_are_steps(name: Seq<char>)
    requires
        !name.contains('/'),
    ensures
        name.len() > 0 && name != seq!['.'] ==> steps(name) == seq![name],
        name.len() == 0 || name == seq!['.'] ==> steps(name).len() == 0,
{
    lemma_one_piece(name);
    reveal_with_fuel(Seq::filter, 2);
    let all = pieces(name);
    assert(all.drop_last() =~= Seq::<Seq<char>>::empty());
    if name.len() == 1 && name[0] == '.' {
        assert(name =~= seq!['.']);
    }
    if is_step(name) {
        assert(steps(name) =~= seq![name]);
    }
}

proof fn lemma_one_piece(name: Seq<char>)
    requires
        !name.contains('/'),
    ensures
        pieces(name) == seq![name],
    decreases name.len(),
{
    if name.len() == 0 {
        assert(name =~= Seq::<char>::empty());
    } else {
        let init = name.drop_last();
        assert forall|i: int| 0 <= i < init.len() implies init[i] != '/' by {
            assert(init[i] == name[i]);
            assert(name.contains(name[i]));
        }
        assert(name.contains(name[name.len() - 1]));
        lemma_one_piece(init);
        assert(init.push(name.last()) =~= name);
        assert(pieces(name) =~= seq![name]);
    }
}

/// Being the same path is an equivalence, and equal texts are the same path.
pub proof fn law_same_path_is_an_equivalence(a: Seq<char>, b: Seq<char>, c: Seq<char>)
    ensures
        same_path(a, a),
        same_path(a, b) ==> same_path(b, a),
        same_path(a, b) && same_path(b, c) ==> same_path(a, c),
{
}

/// A slash more makes no difference between the parts of a path or at its end.
pub proof fn law_repeated_slashes_make_no_difference(a: Seq<char>, b: Seq<char>)
    ensures
        same_path(a.push('/') + b, a.push('/').push('/') + b),
        a.len() > 0 ==> same_path(a, a.push('/')),
{
    let (one, two) = (a.push('/') + b, a.push('/').push('/') + b);
    law_steps_join(a, b);
    law_steps_join(a.push('/'), b);
    law_steps_join(a, Seq::empty());
    law_plain_names_are_steps(Seq::empty());
    assert(a.push('/') + Seq::<char>::empty() =~= a.push('/'));
    assert(steps(a) + steps(Seq::<char>::empty()) =~= steps(a));
    lemma_pieces_join(a, b);
    lemma_pieces_join(a.push('/'), b);
    lemma_pieces_join(a, Seq::empty());
    lemma_pieces_len(a);
    assert(pieces(one)[0] == pieces(a)[0]);
    assert(pieces(two)[0] == pieces(a)[0]);
    assert(pieces(a.push('/'))[0] == pieces(a)[0]);
    assert(one[0] == a.push('/')[0] && two[0] == a.push('/')[0]);
}

/// Paths with different steps, or of which only one starts at the root, differ.
pub proof fn law_different_steps_differ(a: Seq<char>, b: Seq<char>)
    ensures
        steps(a) != steps(b) ==> !same_path(a, b),
        a.len() > 0 && a[0] == '/' && (b.len() == 0 || b[0] != '/') ==> !same_path(a, b),
{
}

} // verus!
