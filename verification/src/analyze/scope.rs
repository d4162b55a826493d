//! Module paths: what a type path names once `use` items, `crate`, `self`
//! and `super` are taken into account, and which static an assignment
//! target names.

use vstd::prelude::*;
use crate::text::{chars_of, chars_eq, texts};
use crate::report::chars_of_string;

verus! {

/// A name that a `use` item brings into a module: the module's path, the
/// name, and the path it stands for.
pub struct UseBinding {
    pub scope: Vec<String>,
    pub name: String,
    pub path: Vec<String>,
}

/// The last binding of `name` made in module `scope` itself.
pub open spec fn binding_at(bs: Seq<UseBinding>, scope: Seq<Seq<char>>, name: Seq<char>, k: int) -> Option<int>
    decreases k,
{
    if k <= 0 || k > bs.len() {
        None
    } else if texts(bs[k - 1].scope@) == scope && bs[k - 1].name@ == name {
        Some(k - 1)
    } else {
        binding_at(bs, scope, name, k - 1)
    }
}

/// The binding `name` has in module `scope`: its own, or the nearest
/// enclosing module's.
pub open spec fn lookup(bs: Seq<UseBinding>, scope: Seq<Seq<char>>, name: Seq<char>) -> Option<int>
    decreases scope.len(),
{
    match binding_at(bs, scope, name, bs.len() as int) {
        Some(i) => Some(i),
        None => if scope.len() == 0 {
            None
        } else {
            lookup(bs, scope.drop_last(), name)
        },
    }
}

/// The enclosing module.
pub open spec fn parent(scope: Seq<Seq<char>>) -> Seq<Seq<char>> {
    if scope.len() == 0 {
        scope
    } else {
        scope.drop_last()
    }
}

/// How many bindings are not yet followed.
pub open spec fn unseen(seen: Seq<bool>) -> nat
    decreases seen.len(),
{
    if seen.len() == 0 {
        0
    } else {
        unseen(seen.drop_last()) + if seen.last() { 0nat } else { 1nat }
    }
}

pub proof fn lemma_unseen_mark(seen: Seq<bool>, i: int)
    requires
        0 <= i < seen.len(),
        !seen[i],
    ensures
        unseen(seen.update(i, true)) + 1 == unseen(seen),
    decreases seen.len(),
{
    let s2 = seen.update(i, true);
    if i < seen.len() - 1 {
        assert(s2.drop_last() =~= seen.drop_last().update(i, true));
        lemma_unseen_mark(seen.drop_last(), i);
    } else {
        assert(s2.drop_last() =~= seen.drop_last());
    }
}

/// The full path `segs` names in module `scope`, following each binding at
/// most once (`seen` marks those already followed).
pub open spec fn resolve(bs: Seq<UseBinding>, segs: Seq<Seq<char>>, scope: Seq<Seq<char>>, seen: Seq<bool>) -> Seq<Seq<char>>
    decreases unseen(seen), segs.len(),
{
    if segs.len() == 0 {
        Seq::empty()
    } else if segs[0] == "crate"@ {
        resolve(bs, segs.drop_first(), Seq::empty(), seen)
    } else if segs[0] == "self"@ {
        resolve(bs, segs.drop_first(), scope, seen)
    } else if segs[0] == "super"@ {
        resolve(bs, segs.drop_first(), parent(scope), seen)
    } else {
        match lookup(bs, scope, segs[0]) {
            Some(i) => if 0 <= i < seen.len() && !seen[i] {
                proof {
                    lemma_unseen_mark(seen, i);
                }
                resolve(bs, texts(bs[i].path@), texts(bs[i].scope@), seen.update(i, true)) + segs.drop_first()
            } else {
                scope + segs
            },
            None => scope + segs,
        }
    }
}

/// No binding followed yet.
pub open spec fn none_seen(n: nat) -> Seq<bool> {
    Seq::new(n, |i: int| false)
}

fn same_texts(a: &Vec<String>, b: &Vec<String>) -> (r: bool)
    ensures
        r == (texts(a@) == texts(b@)),
{
    if a.len() != b.len() {
        assert(texts(a@).len() != texts(b@).len());
        return false;
    }
    let mut k: usize = 0;
    while k < a.len()
        invariant
            k <= a.len(),
            a.len() == b.len(),
            forall|j: int| 0 <= j < k ==> a@[j]@ == b@[j]@,
        decreases a.len() - k,
    {
        if !chars_eq(&chars_of_string(&a[k]), &chars_of_string(&b[k])) {
            assert(texts(a@)[k as int] != texts(b@)[k as int]);
            return false;
        }
        k = k + 1;
    }
    assert(texts(a@) =~= texts(b@));
    true
}

fn binding_index(bs: &Vec<UseBinding>, scope: &Vec<String>, name: &String) -> (r: Option<usize>)
    ensures
        r matches Some(i) ==> binding_at(bs@, texts(scope@), name@, bs@.len() as int) == Some(i as int),
        r is None ==> binding_at(bs@, texts(scope@), name@, bs@.len() as int) is None,
{
    let n = chars_of_string(name);
    let mut k: usize = bs.len();
    while k > 0
        invariant
            k <= bs.len(),
            n@ == name@,
            binding_at(bs@, texts(scope@), name@, bs@.len() as int) == binding_at(bs@, texts(scope@), name@, k as int),
        decreases k,
    {
        if same_texts(&bs[k - 1].scope, scope) && chars_eq(&chars_of_string(&bs[k - 1].name), &n) {
            return Some(k - 1);
        }
        k = k - 1;
    }
    None
}

fn lookup_exec(bs: &Vec<UseBinding>, scope: &Vec<String>, name: &String) -> (r: Option<usize>)
    ensures
        r matches Some(i) ==> lookup(bs@, texts(scope@), name@) == Some(i as int) && i < bs@.len(),
        r is None ==> lookup(bs@, texts(scope@), name@) is None,
    decreases scope@.len(),
{
    match binding_index(bs, scope, name) {
        Some(i) => {
            proof {
                lemma_binding_bound(bs@, texts(scope@), name@, bs@.len() as int);
            }
            Some(i)
        },
        None => {
            if scope.len() == 0 {
                None
            } else {
                let mut up: Vec<String> = Vec::new();
                let mut k: usize = 0;
                while k + 1 < scope.len()
                    invariant
                        k + 1 <= scope.len(),
                        up@ == scope@.take(k as int),
                    decreases scope.len() - k,
                {
                    up.push(scope[k].clone());
                    assert(scope@.take(k + 1) =~= scope@.take(k as int).push(scope@[k as int]));
                    k = k + 1;
                }
                assert(texts(up@) =~= texts(scope@).drop_last());
                lookup_exec(bs, &up, name)
            }
        },
    }
}

proof fn lemma_binding_bound(bs: Seq<UseBinding>, scope: Seq<Seq<char>>, name: Seq<char>, k: int)
    ensures
        binding_at(bs, scope, name, k) matches Some(i) ==> 0 <= i < bs.len() && i < k,
    decreases k,
{
    if k > 0 && k <= bs.len() {
        lemma_binding_bound(bs, scope, name, k - 1);
    }
}


/// `v` from position `from` on.
fn copy_from(v: &Vec<String>, from: usize) -> (r: Vec<String>)
    requires
        from <= v.len(),
    ensures
        texts(r@) == texts(v@).skip(from as int),
{
    let mut out: Vec<String> = Vec::new();
    let mut k = from;
    while k < v.len()
        invariant
            from <= k <= v.len(),
            texts(out@) == texts(v@).subrange(from as int, k as int),
        decreases v.len() - k,
    {
        let ghost before = texts(out@);
        out.push(v[k].clone());
        assert(texts(out@) =~= before.push(v@[k as int]@));
        assert(texts(v@).subrange(from as int, k + 1) =~= texts(v@).subrange(from as int, k as int).push(texts(v@)[k as int]));
        k = k + 1;
    }
    assert(texts(v@).subrange(from as int, v.len() as int) =~= texts(v@).skip(from as int));
    out
}

fn append_all(out: &mut Vec<String>, v: &Vec<String>)
    ensures
        texts(final(out)@) == texts(old(out)@) + texts(v@),
{
    let mut k: usize = 0;
    while k < v.len()
        invariant
            k <= v.len(),
            texts(out@) == texts(old(out)@) + texts(v@).take(k as int),
        decreases v.len() - k,
    {
        let ghost before = texts(out@);
        out.push(v[k].clone());
        assert(texts(out@) =~= before.push(v@[k as int]@));
        assert(texts(v@).take(k + 1) =~= texts(v@).take(k as int).push(texts(v@)[k as int]));
        k = k + 1;
    }
    assert(texts(v@).take(v.len() as int) =~= texts(v@));
}

fn resolve_exec(bs: &Vec<UseBinding>, segs: &Vec<String>, scope: &Vec<String>, seen: Vec<bool>) -> (r: Vec<String>)
    requires
        seen@.len() == bs@.len(),
    ensures
        texts(r@) == resolve(bs@, texts(segs@), texts(scope@), seen@),
    decreases unseen(seen@), segs@.len(),
{
    let ghost ts = texts(segs@);
    if segs.len() == 0 {
        let r: Vec<String> = Vec::new();
        assert(texts(r@) =~= Seq::<Seq<char>>::empty());
        return r;
    }
    let first = chars_of_string(&segs[0]);
    assert(ts[0] == first@);
    let rest = copy_from(segs, 1);
    assert(texts(rest@) =~= ts.drop_first());
    if chars_eq(&first, &chars_of("crate")) {
        let root: Vec<String> = Vec::new();
        assert(texts(root@) =~= Seq::<Seq<char>>::empty());
        return resolve_exec(bs, &rest, &root, seen);
    }
    if chars_eq(&first, &chars_of("self")) {
        return resolve_exec(bs, &rest, scope, seen);
    }
    if chars_eq(&first, &chars_of("super")) {
        let up = if scope.len() == 0 { copy_from(scope, 0) } else { copy_prefix(scope, scope.len() - 1) };
        assert(texts(up@) =~= parent(texts(scope@)));
        return resolve_exec(bs, &rest, &up, seen);
    }
    match lookup_exec(bs, scope, &segs[0]) {
        Some(i) => {
            if !seen[i] {
                let mut marked = seen;
                marked.set(i, true);
                proof {
                    lemma_unseen_mark(seen@, i as int);
                    assert(marked@ == seen@.update(i as int, true));
                }
                let mut out = resolve_exec(bs, &bs[i].path, &bs[i].scope, marked);
                append_all(&mut out, &rest);
                return out;
            }
        },
        None => {},
    }
    let mut out = copy_from(scope, 0);
    assert(texts(scope@).skip(0) =~= texts(scope@));
    append_all(&mut out, segs);
    out
}

/// The first `n` parts of `v`.
fn copy_prefix(v: &Vec<String>, n: usize) -> (r: Vec<String>)
    requires
        n <= v.len(),
    ensures
        texts(r@) == texts(v@).take(n as int),
{
    let mut out: Vec<String> = Vec::new();
    let mut k: usize = 0;
    while k < n
        invariant
            k <= n <= v.len(),
            texts(out@) == texts(v@).take(k as int),
        decreases n - k,
    {
        let ghost before = texts(out@);
        out.push(v[k].clone());
        assert(texts(out@) =~= before.push(v@[k as int]@));
        assert(texts(v@).take(k + 1) =~= texts(v@).take(k as int).push(texts(v@)[k as int]));
        k = k + 1;
    }
    out
}

/// The full path that the type path `path`, written in module `scope`,
/// names: `crate`, `self` and `super` move between modules, a name a `use`
/// item binds (in the module or an enclosing one) stands for its path, and
/// anything else is taken relative to the module. Each binding is followed
/// at most once.
pub fn resolve_type_path(bindings: &Vec<UseBinding>, path: &Vec<String>, scope: &Vec<String>) -> (r: Vec<String>)
    ensures
        texts(r@) == resolve(bindings@, texts(path@), texts(scope@), none_seen(bindings@.len())),
{
    let mut seen: Vec<bool> = Vec::new();
    let mut k: usize = 0;
    while k < bindings.len()
        invariant
            k <= bindings.len(),
            seen@ == none_seen(k as nat),
        decreases bindings.len() - k,
    {
        seen.push(false);
        assert(seen@ =~= none_seen((k + 1) as nat));
        k = k + 1;
    }
    resolve_exec(bindings, path, scope, seen)
}

// ----- statics -----------------------------------------------------------------

/// The module path and name that an assignment through `segments` reaches
/// from module `scope` (`crate` starts over at the root, `self` stays,
/// `super` goes up); `None` where no name is left.
pub open spec fn static_key_from(segments: Seq<Seq<char>>, k: int, parts: Seq<Seq<char>>, named: bool) -> Option<Seq<Seq<char>>>
    decreases segments.len() - k,
{
    if k >= segments.len() || k < 0 {
        if named {
            Some(parts)
        } else {
            None
        }
    } else if segments[k] == "crate"@ {
        static_key_from(segments, k + 1, Seq::empty(), named)
    } else if segments[k] == "self"@ {
        static_key_from(segments, k + 1, parts, named)
    } else if segments[k] == "super"@ {
        static_key_from(segments, k + 1, parent(parts), named)
    } else {
        static_key_from(segments, k + 1, parts.push(segments[k]), true)
    }
}

/// The key of the static that a place path names.
pub open spec fn static_key(leading_colon: bool, segments: Seq<Seq<char>>, scope: Seq<Seq<char>>) -> Option<Seq<Seq<char>>> {
    static_key_from(segments, 0, if leading_colon { Seq::empty() } else { scope }, false)
}

/// The module path and name of the static that the place path
/// (`::`-rooted where `leading_colon`) names from module `scope`.
pub fn static_path_key(leading_colon: bool, segments: &Vec<String>, scope: &Vec<String>) -> (r: Option<Vec<String>>)
    ensures
        match static_key(leading_colon, texts(segments@), texts(scope@)) {
            Some(p) => r matches Some(v) && texts(v@) == p,
            None => r is None,
        },
{
    let ghost segs = texts(segments@);
    let mut parts: Vec<String> = if leading_colon { Vec::new() } else { copy_from(scope, 0) };
    assert(texts(scope@).skip(0) =~= texts(scope@));
    assert(leading_colon ==> texts(parts@) =~= Seq::<Seq<char>>::empty());
    let mut named = false;
    let mut k: usize = 0;
    while k < segments.len()
        invariant
            k <= segments.len(),
            segs == texts(segments@),
            static_key(leading_colon, segs, texts(scope@)) == static_key_from(segs, k as int, texts(parts@), named),
        decreases segments.len() - k,
    {
        let name = chars_of_string(&segments[k]);
        assert(segs[k as int] == name@);
        if chars_eq(&name, &chars_of("crate")) {
            parts = Vec::new();
            assert(texts(parts@) =~= Seq::<Seq<char>>::empty());
        } else if chars_eq(&name, &chars_of("self")) {
        } else if chars_eq(&name, &chars_of("super")) {
            if parts.len() > 0 {
                let ghost before = texts(parts@);
                parts.pop();
                assert(texts(parts@) =~= before.drop_last());
            }
        } else {
            let ghost before = texts(parts@);
            parts.push(segments[k].clone());
            assert(texts(parts@) =~= before.push(segs[k as int]));
            named = true;
        }
        k = k + 1;
    }
    if named {
        Some(parts)
    } else {
        None
    }
}


/// The key of the static that a place path names once the `use` items of
/// the file are taken into account: a path that is not `::`-rooted and names
/// something is resolved like a type path, so that `COUNTER` after
/// `use counter_mod::COUNTER;` names `counter_mod::COUNTER`.
pub open spec fn static_key_resolved(
    bs: Seq<UseBinding>,
    leading_colon: bool,
    segments: Seq<Seq<char>>,
    scope: Seq<Seq<char>>,
) -> Option<Seq<Seq<char>>> {
    if leading_colon {
        static_key(true, segments, scope)
    } else if static_key(false, segments, scope) is None {
        None
    } else {
        Some(resolve(bs, segments, scope, none_seen(bs.len())))
    }
}

/// The module path and name of the static that the place path names from
/// module `scope`, following the names that `bindings` bring in.
pub fn static_key_with_imports(
    bindings: &Vec<UseBinding>,
    leading_colon: bool,
    segments: &Vec<String>,
    scope: &Vec<String>,
) -> (r: Option<Vec<String>>)
    ensures
        match static_key_resolved(bindings@, leading_colon, texts(segments@), texts(scope@)) {
            Some(p) => r matches Some(v) && texts(v@) == p,
            None => r is None,
        },
{
    match static_path_key(leading_colon, segments, scope) {
        None => None,
        Some(key) => if leading_colon {
            Some(key)
        } else {
            Some(resolve_type_path(bindings, segments, scope))
        },
    }
}


/// The place an assignment writes, by what the static check reads of it.
pub enum PlaceShape {
    /// A path without a qualified self type, `::`-rooted where
    /// `leading_colon`.
    Path { leading_colon: bool, segments: Vec<String> },
    /// A field, an index, a parenthesized place or a dereference of `base`.
    Through { base: Box<PlaceShape> },
    /// Anything else.
    Other,
}

/// The key of the static that an assignment to `place`, written in module
/// `scope`, changes: that of the path the place goes through, if any.
pub open spec fn place_static_key(bs: Seq<UseBinding>, place: PlaceShape, scope: Seq<Seq<char>>) -> Option<Seq<Seq<char>>>
    decreases place,
{
    match place {
        PlaceShape::Path { leading_colon, segments } => static_key_resolved(bs, leading_colon, texts(segments@), scope),
        PlaceShape::Through { base } => place_static_key(bs, *base, scope),
        PlaceShape::Other => None,
    }
}

/// The module path and name of the static that an assignment to `place`
/// changes, following the names that `bindings` bring in.
pub fn assigned_static(bindings: &Vec<UseBinding>, place: &PlaceShape, scope: &Vec<String>) -> (r: Option<Vec<String>>)
    ensures
        match place_static_key(bindings@, *place, texts(scope@)) {
            Some(p) => r matches Some(v) && texts(v@) == p,
            None => r is None,
        },
    decreases *place,
{
    match place {
        PlaceShape::Path { leading_colon, segments } => static_key_with_imports(bindings, *leading_colon, segments, scope),
        PlaceShape::Through { base } => assigned_static(bindings, base, scope),
        PlaceShape::Other => None,
    }
}

} // verus!
