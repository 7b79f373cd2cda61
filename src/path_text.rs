//! Operations on `/`-separated path text.
use vstd::prelude::*;

verus! {

/// Position of the last `c` in `s`, or -1 when there is none.
pub open spec fn last_index_of(s: Seq<char>, c: char) -> int
    decreases s.len(),
{
    if s.len() == 0 {
        -1
    } else if s.last() == c {
        s.len() - 1
    } else {
        last_index_of(s.drop_last(), c)
    }
}

/// `last_index_of` finds the last occurrence, and only that one.
pub proof fn lemma_last_index_of(s: Seq<char>, c: char)
    ensures
        -1 <= last_index_of(s, c) < s.len(),
        last_index_of(s, c) >= 0 ==> s[last_index_of(s, c)] == c,
        forall|j: int| last_index_of(s, c) < j < s.len() ==> s[j] != c,
    decreases s.len(),
{
    if s.len() > 0 && s.last() != c {
        lemma_last_index_of(s.drop_last(), c);
        assert forall|j: int| last_index_of(s, c) < j < s.len() implies s[j] != c by {
            if j < s.len() - 1 {
                assert(s.drop_last()[j] == s[j]);
            }
        }
    }
}

/// `s` starts with `p`.
pub open spec fn has_prefix(s: Seq<char>, p: Seq<char>) -> bool {
    p.len() <= s.len() && s.take(p.len() as int) == p
}

/// `s` with every leading `./` removed.
pub open spec fn trim_dot_slash(s: Seq<char>) -> Seq<char>
    decreases s.len(),
{
    if s.len() >= 2 && s[0] == '.' && s[1] == '/' {
        trim_dot_slash(s.skip(2))
    } else {
        s
    }
}

/// The parent of a virtual path: everything before its last `/`.
pub open spec fn virtual_parent(s: Seq<char>) -> Option<Seq<char>> {
    if last_index_of(s, '/') < 0 {
        None
    } else {
        Some(s.take(last_index_of(s, '/')))
    }
}

/// The parent of an absolute path; the root has none.
pub open spec fn real_parent(s: Seq<char>) -> Option<Seq<char>> {
    let k = last_index_of(s, '/');
    if k < 0 {
        None
    } else if k == 0 {
        if s.len() > 1 {
            Some(seq!['/'])
        } else {
            None
        }
    } else {
        Some(s.take(k))
    }
}

/// The parent under the rules of either kind of path.
pub open spec fn parent_of(s: Seq<char>, is_real: bool) -> Option<Seq<char>> {
    if is_real {
        real_parent(s)
    } else {
        virtual_parent(s)
    }
}

/// `base` joined with the relative `rel`: each leading `../` goes up one
/// level, failing when there is none left; leading `./` segments are
/// dropped; the rest is appended after a separator, which a real base that
/// already ends in `/` does not repeat.
pub open spec fn join_text(base: Seq<char>, rel: Seq<char>, is_real: bool) -> Option<Seq<char>>
    decreases rel.len(),
{
    if rel.len() >= 3 && rel[0] == '.' && rel[1] == '.' && rel[2] == '/' {
        match parent_of(base, is_real) {
            None => None,
            Some(up) => join_text(up, rel.skip(3), is_real),
        }
    } else if is_real && base.len() > 0 && base.last() == '/' {
        Some(base + trim_dot_slash(rel))
    } else {
        Some(base + seq!['/'] + trim_dot_slash(rel))
    }
}

/// `p` is a prefix of `s` made of whole components.
pub open spec fn component_prefix(s: Seq<char>, p: Seq<char>) -> bool {
    &&& has_prefix(s, p)
    &&& (p.len() == s.len() || (p.len() > 0 && p.last() == '/') || s[p.len() as int] == '/')
}

/// What remains of `s` after the components of `p`.
pub open spec fn strip_components(s: Seq<char>, p: Seq<char>) -> Option<Seq<char>> {
    if !component_prefix(s, p) {
        None
    } else if p.len() == s.len() {
        Some(Seq::empty())
    } else if p.len() > 0 && p.last() == '/' {
        Some(s.skip(p.len() as int))
    } else {
        Some(s.skip((p.len() + 1) as int))
    }
}

/// The last component of `s`, ignoring one trailing `/`.
pub open spec fn file_name_of(s: Seq<char>) -> Seq<char> {
    let body = if s.len() > 0 && s.last() == '/' {
        s.drop_last()
    } else {
        s
    };
    body.skip(last_index_of(body, '/') + 1)
}

/// The stem and extension of the last component of `s`: the extension
/// follows the last `.`; a name without one, or whose only `.` is its first
/// character, has none. An empty name gives `None`.
pub open spec fn name_and_extension_of(s: Seq<char>) -> Option<(Seq<char>, Option<Seq<char>>)> {
    let name = file_name_of(s);
    let d = last_index_of(name, '.');
    if name.len() == 0 {
        None
    } else if d <= 0 {
        Some((name, None))
    } else {
        Some((name.take(d), Some(name.skip(d + 1))))
    }
}

/// The position of the last `c` in `v`.
pub fn rfind(v: &Vec<char>, c: char) -> (r: Option<usize>)
    ensures
        r is None <==> last_index_of(v@, c) < 0,
        r matches Some(i) ==> i == last_index_of(v@, c) && i < v@.len() && v@[i as int] == c,
{
    proof {
        lemma_last_index_of(v@, c);
    }
    let mut i = v.len();
    while i > 0
        invariant
            i <= v@.len(),
            forall|j: int| i <= j < v@.len() ==> v@[j] != c,
            -1 <= last_index_of(v@, c) < v@.len(),
            last_index_of(v@, c) >= 0 ==> v@[last_index_of(v@, c)] == c,
            forall|j: int| last_index_of(v@, c) < j < v@.len() ==> v@[j] != c,
        decreases i,
    {
        if v[i - 1] == c {
            return Some(i - 1);
        }
        i = i - 1;
    }
    None
}

/// The characters of `v` from `start` to `end`.
pub fn slice_of(v: &Vec<char>, start: usize, end: usize) -> (r: Vec<char>)
    requires
        start <= end <= v@.len(),
    ensures
        r@ == v@.subrange(start as int, end as int),
{
    let mut out: Vec<char> = Vec::new();
    let mut i = start;
    while i < end
        invariant
            start <= i <= end <= v@.len(),
            out@ == v@.subrange(start as int, i as int),
        decreases end - i,
    {
        out.push(v[i]);
        i = i + 1;
        assert(out@ =~= v@.subrange(start as int, i as int));
    }
    out
}

/// `a` followed by `b`.
pub fn concat(a: &Vec<char>, b: &Vec<char>) -> (r: Vec<char>)
    ensures
        r@ == a@ + b@,
{
    let mut out = slice_of(a, 0, a.len());
    let mut i: usize = 0;
    while i < b.len()
        invariant
            i <= b@.len(),
            out@ == a@ + b@.take(i as int),
        decreases b.len() - i,
    {
        out.push(b[i]);
        i = i + 1;
        assert(out@ =~= a@ + b@.take(i as int));
    }
    assert(b@.take(b@.len() as int) =~= b@);
    out
}

/// The parent of `s` under the rules of its kind.
pub fn parent_text(s: &Vec<char>, is_real: bool) -> (r: Option<Vec<char>>)
    ensures
        match parent_of(s@, is_real) {
            None => r is None,
            Some(p) => r matches Some(v) && v@ == p,
        },
{
    match rfind(s, '/') {
        None => None,
        Some(k) => {
            if is_real && k == 0 {
                if s.len() > 1 {
                    let root = vec!['/'];
                    assert(root@ =~= seq!['/']);
                    Some(root)
                } else {
                    None
                }
            } else {
                Some(slice_of(s, 0, k))
            }
        },
    }
}

/// `s` starts with the two characters `a`, `b` at position `i`.
fn pair_at(s: &Vec<char>, i: usize, a: char, b: char) -> (r: bool)
    ensures
        r == (i + 2 <= s@.len() && s@[i as int] == a && s@[i + 1] == b),
{
    i < s.len() && s.len() - i >= 2 && s[i] == a && s[i + 1] == b
}

/// `s` holds `../` at position `i`.
fn parent_step_at(s: &Vec<char>, i: usize) -> (r: bool)
    ensures
        r == (i + 3 <= s@.len() && s@[i as int] == '.' && s@[i + 1] == '.' && s@[i + 2] == '/'),
{
    i < s.len() && s.len() - i >= 3 && s[i] == '.' && s[i + 1] == '.' && s[i + 2] == '/'
}

/// Joins `rel` onto `base` as `join_text` describes.
pub fn join_path_text(base: &Vec<char>, rel: &Vec<char>, is_real: bool) -> (r: Option<Vec<char>>)
    ensures
        match join_text(base@, rel@, is_real) {
            None => r is None,
            Some(j) => r matches Some(v) && v@ == j,
        },
{
    let mut res = slice_of(base, 0, base.len());
    let mut i: usize = 0;
    assert(rel@.skip(0) =~= rel@);
    assert(base@.subrange(0, base@.len() as int) =~= base@);
    while parent_step_at(rel, i)
        invariant
            i <= rel@.len(),
            join_text(base@, rel@, is_real) == join_text(res@, rel@.skip(i as int), is_real),
        decreases rel.len() - i,
    {
        let ghost tail = rel@.skip(i as int);
        assert(tail[0] == '.' && tail[1] == '.' && tail[2] == '/');
        match parent_text(&res, is_real) {
            None => {
                return None;
            },
            Some(up) => {
                res = up;
            },
        }
        assert(tail.skip(3) =~= rel@.skip(i + 3));
        i = i + 3;
    }
    let ghost rest = rel@.skip(i as int);
    assert(!(rest.len() >= 3 && rest[0] == '.' && rest[1] == '.' && rest[2] == '/'));
    while pair_at(rel, i, '.', '/')
        invariant
            i <= rel@.len(),
            trim_dot_slash(rest) == trim_dot_slash(rel@.skip(i as int)),
        decreases rel.len() - i,
    {
        assert(rel@.skip(i as int).skip(2) =~= rel@.skip(i + 2));
        i = i + 2;
    }
    let trimmed = slice_of(rel, i, rel.len());
    assert(trimmed@ =~= rel@.skip(i as int));
    let ends_with_sep = is_real && res.len() > 0 && res[res.len() - 1] == '/';
    if ends_with_sep {
        Some(concat(&res, &trimmed))
    } else {
        let mut with_sep = res;
        with_sep.push('/');
        Some(concat(&with_sep, &trimmed))
    }
}

/// Whether `p` is a prefix of `s` made of whole components.
pub fn component_prefix_text(s: &Vec<char>, p: &Vec<char>) -> (r: bool)
    ensures
        r == component_prefix(s@, p@),
{
    if p.len() > s.len() {
        return false;
    }
    let mut i: usize = 0;
    while i < p.len()
        invariant
            p@.len() <= s@.len(),
            i <= p@.len(),
            forall|j: int| 0 <= j < i ==> s@[j] == p@[j],
        decreases p.len() - i,
    {
        if s[i] != p[i] {
            assert(s@.take(p@.len() as int)[i as int] != p@[i as int]);
            return false;
        }
        i = i + 1;
    }
    assert(s@.take(p@.len() as int) =~= p@);
    p.len() == s.len() || (p.len() > 0 && p[p.len() - 1] == '/') || s[p.len()] == '/'
}

/// Whether `s` starts with `p`, character by character.
pub fn has_prefix_text(s: &Vec<char>, p: &Vec<char>) -> (r: bool)
    ensures
        r == has_prefix(s@, p@),
{
    if p.len() > s.len() {
        return false;
    }
    let mut i: usize = 0;
    while i < p.len()
        invariant
            p@.len() <= s@.len(),
            i <= p@.len(),
            forall|j: int| 0 <= j < i ==> s@[j] == p@[j],
        decreases p.len() - i,
    {
        if s[i] != p[i] {
            assert(s@.take(p@.len() as int)[i as int] != p@[i as int]);
            return false;
        }
        i = i + 1;
    }
    assert(s@.take(p@.len() as int) =~= p@);
    true
}

/// What remains of `s` after the components of `p`.
pub fn strip_components_text(s: &Vec<char>, p: &Vec<char>) -> (r: Option<Vec<char>>)
    ensures
        match strip_components(s@, p@) {
            None => r is None,
            Some(rest) => r matches Some(v) && v@ == rest,
        },
{
    if !component_prefix_text(s, p) {
        return None;
    }
    if p.len() == s.len() {
        let empty: Vec<char> = Vec::new();
        assert(empty@ =~= Seq::<char>::empty());
        Some(empty)
    } else if p.len() > 0 && p[p.len() - 1] == '/' {
        Some(slice_of(s, p.len(), s.len()))
    } else {
        Some(slice_of(s, p.len() + 1, s.len()))
    }
}

/// The stem and extension of the last component of `s`.
pub fn name_and_extension_text(s: &Vec<char>) -> (r: Option<(Vec<char>, Option<Vec<char>>)>)
    ensures
        match name_and_extension_of(s@) {
            None => r is None,
            Some((stem, ext)) => r matches Some((rs, re)) && rs@ == stem && match ext {
                None => re is None,
                Some(e) => re matches Some(x) && x@ == e,
            },
        },
{
    let body = if s.len() > 0 && s[s.len() - 1] == '/' {
        slice_of(s, 0, s.len() - 1)
    } else {
        slice_of(s, 0, s.len())
    };
    assert(body@ =~= (if s@.len() > 0 && s@.last() == '/' {
        s@.drop_last()
    } else {
        s@
    }));
    proof {
        lemma_last_index_of(body@, '/');
    }
    let start = match rfind(&body, '/') {
        Some(k) => k + 1,
        None => 0,
    };
    let name = slice_of(&body, start, body.len());
    assert(name@ =~= file_name_of(s@));
    if name.len() == 0 {
        return None;
    }
    match rfind(&name, '.') {
        Some(d) if d > 0 => {
            let stem = slice_of(&name, 0, d);
            let ext = slice_of(&name, d + 1, name.len());
            Some((stem, Some(ext)))
        },
        _ => Some((name, None)),
    }
}

/// The `/`-separated pieces of `s`, empty ones included.
pub open spec fn split_slash(s: Seq<char>) -> Seq<Seq<char>>
    decreases s.len(),
{
    if s.len() == 0 {
        seq![Seq::empty()]
    } else {
        let prev = split_slash(s.drop_last());
        if s.last() == '/' {
            prev.push(Seq::empty())
        } else {
            prev.update(prev.len() - 1, prev.last().push(s.last()))
        }
    }
}

/// One piece applied to a stack of components: empty pieces and `.` are
/// skipped, `..` drops the last component (the root has no parent), and any
/// other piece is pushed.
pub open spec fn resolve_piece(stack: Seq<Seq<char>>, piece: Seq<char>) -> Seq<Seq<char>> {
    if piece.len() == 0 || piece == seq!['.'] {
        stack
    } else if piece == seq!['.', '.'] {
        if stack.len() > 0 {
            stack.drop_last()
        } else {
            stack
        }
    } else {
        stack.push(piece)
    }
}

/// The components that remain after applying `pieces` in order.
pub open spec fn resolve_pieces(pieces: Seq<Seq<char>>) -> Seq<Seq<char>>
    decreases pieces.len(),
{
    if pieces.len() == 0 {
        Seq::empty()
    } else {
        resolve_piece(resolve_pieces(pieces.drop_last()), pieces.last())
    }
}

/// `/` followed by the components joined with `/`.
pub open spec fn render_components(stack: Seq<Seq<char>>) -> Seq<char>
    decreases stack.len(),
{
    if stack.len() == 0 {
        seq!['/']
    } else if stack.len() == 1 {
        seq!['/'] + stack[0]
    } else {
        render_components(stack.drop_last()) + seq!['/'] + stack.last()
    }
}

/// The absolute path `s` with repeated separators, `.` components and a
/// trailing separator removed, and each `..` applied to the component
/// before it.
pub open spec fn normalize_text(s: Seq<char>) -> Seq<char> {
    render_components(resolve_pieces(split_slash(s)))
}

/// The views of a stack of components.
pub open spec fn stack_view(stack: Seq<Vec<char>>) -> Seq<Seq<char>> {
    stack.map_values(|c: Vec<char>| c@)
}

/// A normalised path is absolute.
pub proof fn lemma_render_starts_at_root(stack: Seq<Seq<char>>)
    ensures
        render_components(stack).len() > 0,
        render_components(stack)[0] == '/',
    decreases stack.len(),
{
    if stack.len() > 1 {
        lemma_render_starts_at_root(stack.drop_last());
    }
}

/// Applies one piece to the stack of components.
fn apply_piece(stack: &mut Vec<Vec<char>>, piece: Vec<char>)
    ensures
        stack_view(final(stack)@) == resolve_piece(stack_view(old(stack)@), piece@),
{
    let ghost p = piece@;
    if piece.len() == 0 || (piece.len() == 1 && piece[0] == '.') {
        proof {
            if p.len() == 1 {
                assert(p =~= seq!['.']);
            }
        }
    } else if piece.len() == 2 && piece[0] == '.' && piece[1] == '.' {
        assert(p =~= seq!['.', '.']);
        assert(p != seq!['.']);
        if stack.len() > 0 {
            let _ = stack.pop();
            assert(stack_view(stack@) =~= stack_view(old(stack)@).drop_last());
        }
    } else {
        assert(p != seq!['.']) by {
            if p.len() == 1 {
                assert(p[0] == seq!['.'][0] ==> p =~= seq!['.']);
            }
        }
        assert(p != seq!['.', '.']) by {
            if p.len() == 2 {
                assert(p[0] == '.' && p[1] == '.' ==> p =~= seq!['.', '.']);
            }
        }
        stack.push(piece);
        assert(stack_view(stack@) =~= stack_view(old(stack)@).push(p));
    }
}

/// `/` followed by the components joined with `/`.
fn render_stack(stack: &Vec<Vec<char>>) -> (r: Vec<char>)
    ensures
        r@ == render_components(stack_view(stack@)),
{
    let ghost sv = stack_view(stack@);
    let mut out: Vec<char> = vec!['/'];
    let mut j: usize = 0;
    assert(sv.take(0) =~= Seq::<Seq<char>>::empty());
    assert(out@ =~= seq!['/']);
    while j < stack.len()
        invariant
            sv == stack_view(stack@),
            j <= stack@.len(),
            out@ == render_components(sv.take(j as int)),
        decreases stack.len() - j,
    {
        let ghost before = out@;
        if j > 0 {
            out.push('/');
        }
        out = concat(&out, &stack[j]);
        assert(sv.take(j + 1).drop_last() =~= sv.take(j as int));
        assert(sv[j as int] == stack@[j as int]@);
        if j == 0 {
            assert(out@ =~= seq!['/'] + sv.take(1)[0]);
        } else {
            assert(out@ =~= before + seq!['/'] + sv.take(j + 1).last());
        }
        j = j + 1;
    }
    assert(sv.take(j as int) =~= sv);
    out
}

/// Normalises an absolute path as `normalize_text` describes.
pub fn normalize_path_text(s: &Vec<char>) -> (r: Vec<char>)
    ensures
        r@ == normalize_text(s@),
{
    let mut stack: Vec<Vec<char>> = Vec::new();
    let mut cur: Vec<char> = Vec::new();
    let ghost mut done: Seq<Seq<char>> = Seq::empty();
    let mut i: usize = 0;
    assert(s@.take(0) =~= Seq::<char>::empty());
    assert(stack_view(stack@) =~= Seq::<Seq<char>>::empty());
    assert(split_slash(Seq::<char>::empty()) == done.push(cur@));
    while i < s.len()
        invariant
            i <= s@.len(),
            split_slash(s@.take(i as int)) == done.push(cur@),
            stack_view(stack@) == resolve_pieces(done),
        decreases s.len() - i,
    {
        let c = s[i];
        assert(s@.take(i + 1).drop_last() =~= s@.take(i as int));
        assert(s@.take(i + 1).last() == c);
        if c == '/' {
            let ghost piece = cur@;
            let finished = cur;
            apply_piece(&mut stack, finished);
            proof {
                assert(done.push(piece).drop_last() =~= done);
                done = done.push(piece);
            }
            cur = Vec::new();
            assert(cur@ =~= Seq::<char>::empty());
        } else {
            let ghost before = cur@;
            cur.push(c);
            assert(done.push(before).update(done.len() as int, before.push(c)) =~= done.push(cur@));
        }
        i = i + 1;
    }
    assert(s@.take(s@.len() as int) =~= s@);
    let ghost last = cur@;
    apply_piece(&mut stack, cur);
    assert(done.push(last).drop_last() =~= done);
    render_stack(&stack)
}

} // verus!
