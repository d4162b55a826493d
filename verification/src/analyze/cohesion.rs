//! Lack of cohesion of methods (LCOM4): how many groups the methods of a
//! type fall into when two methods belong together as soon as they use a
//! common field or one calls the other through `self`.

use vstd::prelude::*;
use crate::text::chars_eq;
use crate::report::chars_of_string;
use crate::analyze::model::{MethodRef, TypeModel};

verus! {

/// The field of the last accessor method named `name`: a method whose whole
/// body reads or writes one field of `self`.
pub open spec fn accessor_of(ms: Seq<MethodRef>, name: Seq<char>) -> Option<Seq<char>>
    decreases ms.len(),
{
    if ms.len() == 0 {
        None
    } else if ms.last().name@ == name && ms.last().accessor_field is Some {
        Some(ms.last().accessor_field->0@)
    } else {
        accessor_of(ms.drop_last(), name)
    }
}

/// The position of the last method named `name`.
pub open spec fn index_of(ms: Seq<MethodRef>, name: Seq<char>) -> Option<int>
    decreases ms.len(),
{
    if ms.len() == 0 {
        None
    } else if ms.last().name@ == name {
        Some(ms.len() - 1)
    } else {
        index_of(ms.drop_last(), name)
    }
}

/// Whether the type has a field named `f`.
pub open spec fn has_field(t: TypeModel, f: Seq<char>) -> bool {
    exists|k: int| 0 <= k < t.fields@.len() && #[trigger] t.fields@[k].name@ == f
}

/// Whether method `i` takes part: it has a body and no accessor goes by its
/// name.
pub open spec fn takes_part(t: TypeModel, i: int) -> bool {
    t.methods@[i].has_body && accessor_of(t.methods@, t.methods@[i].name@) is None
}

/// Whether method `i` uses field `f`: directly, or through an accessor it
/// calls.
pub open spec fn touches(t: TypeModel, i: int, f: Seq<char>) -> bool {
    &&& 0 <= i < t.methods@.len()
    &&& takes_part(t, i)
    &&& {
        ||| (has_field(t, f) && exists|k: int| 0 <= k < t.methods@[i].used_fields@.len() && #[trigger] t.methods@[i].used_fields@[k]@ == f)
        ||| exists|k: int| 0 <= k < t.methods@[i].called_methods@.len() && accessor_of(t.methods@, #[trigger] t.methods@[i].called_methods@[k]@) == Some(f)
    }
}

/// Whether method `i` calls method `j` (no accessor) through `self`.
pub open spec fn calls(t: TypeModel, i: int, j: int) -> bool {
    &&& 0 <= i < t.methods@.len()
    &&& takes_part(t, i)
    &&& exists|k: int| 0 <= k < t.methods@[i].called_methods@.len()
        && accessor_of(t.methods@, #[trigger] t.methods@[i].called_methods@[k]@) is None
        && index_of(t.methods@, t.methods@[i].called_methods@[k]@) == Some(j)
}

/// Whether two methods belong together directly.
pub open spec fn linked(t: TypeModel, a: int, b: int) -> bool {
    calls(t, a, b) || calls(t, b, a) || exists|f: Seq<char>| touches(t, a, f) && #[trigger] touches(t, b, f)
}

/// Whether method `i` uses a field or calls or is called.
pub open spec fn active(t: TypeModel, i: int) -> bool {
    (exists|f: Seq<char>| #[trigger] touches(t, i, f)) || (exists|j: int| #[trigger] calls(t, i, j)) || (exists|j: int| #[trigger] calls(t, j, i))
}

/// Whether `a` and `b` are joined by the edges `e`: the smallest
/// equivalence that holds the edges.
pub open spec fn joined(e: Seq<(int, int)>, a: int, b: int) -> bool
    decreases e.len(),
{
    if e.len() == 0 {
        a == b
    } else {
        let p = e.drop_last();
        let (x, y) = e.last();
        joined(p, a, b) || (joined(p, a, x) && joined(p, y, b)) || (joined(p, a, y) && joined(p, x, b))
    }
}

/// Edges between methods that belong together, joining every linked pair.
pub open spec fn cohesion_edges(t: TypeModel, e: Seq<(int, int)>) -> bool {
    &&& forall|k: int| 0 <= k < e.len() ==> 0 <= (#[trigger] e[k]).0 < t.methods@.len() && 0 <= e[k].1 < t.methods@.len() && linked(t, e[k].0, e[k].1)
    &&& forall|a: int, b: int| 0 <= a < t.methods@.len() && 0 <= b < t.methods@.len() && #[trigger] linked(t, a, b) ==> joined(e, a, b)
}

/// The active methods below `k` that no earlier active method is joined to:
/// one per group.
pub open spec fn groups_below(t: TypeModel, e: Seq<(int, int)>, k: int) -> nat
    decreases k,
{
    if k <= 0 {
        0
    } else {
        groups_below(t, e, k - 1) + if active(t, k - 1) && forall|j: int| 0 <= j < k - 1 && active(t, j) ==> !#[trigger] joined(e, j, k - 1) {
            1nat
        } else {
            0nat
        }
    }
}

/// LCOM4 under the edges `e`: the number of groups, at least 1.
pub open spec fn lcom4_with(t: TypeModel, e: Seq<(int, int)>) -> nat {
    let g = groups_below(t, e, t.methods@.len() as int);
    if g == 0 {
        1
    } else {
        g
    }
}


// ----- lookups ---------------------------------------------------------------

fn accessor_lookup(ms: &Vec<MethodRef>, name: &Vec<char>) -> (r: Option<Vec<char>>)
    ensures
        match accessor_of(ms@, name@) {
            Some(f) => r matches Some(v) && v@ == f,
            None => r is None,
        },
{
    let mut k: usize = ms.len();
    assert(ms@.take(k as int) =~= ms@);
    while k > 0
        invariant
            k <= ms.len(),
            accessor_of(ms@, name@) == accessor_of(ms@.take(k as int), name@),
        decreases k,
    {
        let ghost pre = ms@.take(k as int);
        assert(pre.drop_last() =~= ms@.take(k - 1));
        assert(pre.last() == ms@[k - 1]);
        let m = &ms[k - 1];
        if chars_eq(&chars_of_string(&m.name), name) {
            match &m.accessor_field {
                Some(f) => return Some(chars_of_string(f)),
                None => {},
            }
        }
        k = k - 1;
    }
    assert(ms@.take(0).len() == 0);
    None
}

fn index_lookup(ms: &Vec<MethodRef>, name: &Vec<char>) -> (r: Option<usize>)
    ensures
        r matches Some(x) ==> index_of(ms@, name@) == Some(x as int) && x < ms@.len(),
        r is None ==> index_of(ms@, name@) is None,
{
    let mut k: usize = ms.len();
    assert(ms@.take(k as int) =~= ms@);
    while k > 0
        invariant
            k <= ms.len(),
            index_of(ms@, name@) == index_of(ms@.take(k as int), name@),
        decreases k,
    {
        let ghost pre = ms@.take(k as int);
        assert(pre.drop_last() =~= ms@.take(k - 1));
        assert(pre.last() == ms@[k - 1]);
        if chars_eq(&chars_of_string(&ms[k - 1].name), name) {
            return Some(k - 1);
        }
        k = k - 1;
    }
    assert(ms@.take(0).len() == 0);
    None
}

proof fn lemma_index_of_bounds(ms: Seq<MethodRef>, name: Seq<char>)
    ensures
        index_of(ms, name) matches Some(j) ==> 0 <= j < ms.len() && ms[j].name@ == name,
    decreases ms.len(),
{
    if ms.len() > 0 && ms.last().name@ != name {
        lemma_index_of_bounds(ms.drop_last(), name);
    }
}

proof fn lemma_accessor_of_name(ms: Seq<MethodRef>, name: Seq<char>)
    ensures
        accessor_of(ms, name) is Some ==> index_of(ms, name) is Some,
    decreases ms.len(),
{
    if ms.len() > 0 && ms.last().name@ != name {
        lemma_accessor_of_name(ms.drop_last(), name);
    }
}

fn field_present(t: &TypeModel, f: &Vec<char>) -> (b: bool)
    ensures
        b == has_field(*t, f@),
{
    let mut k: usize = 0;
    while k < t.fields.len()
        invariant
            k <= t.fields.len(),
            forall|j: int| 0 <= j < k ==> t.fields@[j].name@ != f@,
        decreases t.fields.len() - k,
    {
        if chars_eq(&chars_of_string(&t.fields[k].name), f) {
            assert(t.fields@[k as int].name@ == f@);
            return true;
        }
        k = k + 1;
    }
    false
}

// ----- joining ---------------------------------------------------------------

/// Whether `labels` tell joined methods apart exactly.
pub open spec fn labels_match(labels: Seq<usize>, e: Seq<(int, int)>, n: int) -> bool {
    &&& labels.len() == n
    &&& forall|x: int, y: int| 0 <= x < n && 0 <= y < n ==> (labels[x] == labels[y] <==> #[trigger] joined(e, x, y))
}

/// Joins `a` and `b`: every method labelled as `a` takes the label of `b`.
fn join(labels: &mut Vec<usize>, a: usize, b: usize, Ghost(e): Ghost<Seq<(int, int)>>)
    requires
        a < old(labels).len(),
        b < old(labels).len(),
        labels_match(old(labels)@, e, old(labels).len() as int),
    ensures
        final(labels).len() == old(labels).len(),
        labels_match(final(labels)@, e.push((a as int, b as int)), old(labels).len() as int),
{
    let n = labels.len();
    let la = labels[a];
    let lb = labels[b];
    let ghost before = labels@;
    let mut k: usize = 0;
    while k < n
        invariant
            n == labels.len(),
            before.len() == n,
            a < n,
            b < n,
            la == before[a as int],
            lb == before[b as int],
            forall|x: int| 0 <= x < k ==> labels@[x] == if before[x] == la { lb } else { before[x] },
            forall|x: int| k <= x < n ==> labels@[x] == before[x],
        decreases n - k,
    {
        if labels[k] == la {
            labels.set(k, lb);
        }
        k = k + 1;
    }
    proof {
        let e2 = e.push((a as int, b as int));
        assert(e2.drop_last() =~= e);
        assert(e2.last() == (a as int, b as int));
        assert forall|x: int, y: int| 0 <= x < n && 0 <= y < n implies (labels@[x] == labels@[y] <==> #[trigger] joined(e2, x, y)) by {
            assert(before[x] == before[y] <==> joined(e, x, y));
            assert(before[x] == before[a as int] <==> joined(e, x, a as int));
            assert(before[b as int] == before[y] <==> joined(e, b as int, y));
            assert(before[x] == before[b as int] <==> joined(e, x, b as int));
            assert(before[a as int] == before[y] <==> joined(e, a as int, y));
        }
    }
}


/// Whether every edge of `e` joins two linked methods.
pub open spec fn edges_sound(t: TypeModel, e: Seq<(int, int)>) -> bool {
    forall|k: int| 0 <= k < e.len() ==> 0 <= (#[trigger] e[k]).0 < t.methods@.len() && 0 <= e[k].1 < t.methods@.len() && linked(t, e[k].0, e[k].1)
}

/// Whether each owner entry names a field once, with a method that uses it.
pub open spec fn owners_ok(t: TypeModel, owners: Seq<(Vec<char>, usize)>) -> bool {
    &&& forall|k: int| 0 <= k < owners.len() ==> (#[trigger] owners[k]).1 < t.methods@.len() && touches(t, owners[k].1 as int, owners[k].0@)
    &&& forall|k1: int, k2: int| 0 <= k1 < k2 < owners.len() ==> (#[trigger] owners[k1]).0@ != (#[trigger] owners[k2]).0@
}

/// Whether `labels` keep every equality of `before`.
pub open spec fn keeps_equal(before: Seq<usize>, after: Seq<usize>) -> bool {
    forall|x: int, y: int| 0 <= x < before.len() && 0 <= y < before.len() && before[x] == before[y] ==> #[trigger] after[x] == #[trigger] after[y]
}

/// Whether `after` starts with `before`.
pub open spec fn extends(before: Seq<(Vec<char>, usize)>, after: Seq<(Vec<char>, usize)>) -> bool {
    after.len() >= before.len() && forall|k: int| 0 <= k < before.len() ==> #[trigger] after[k] == before[k]
}

/// Whether field `f` has an owner labelled as method `i`.
pub open spec fn owned_with(labels: Seq<usize>, owners: Seq<(Vec<char>, usize)>, i: int, f: Seq<char>) -> bool {
    exists|k: int| 0 <= k < owners.len() && (#[trigger] owners[k]).0@ == f && labels[i] == labels[owners[k].1 as int]
}

proof fn lemma_joined_refl(e: Seq<(int, int)>, x: int)
    ensures
        joined(e, x, x),
    decreases e.len(),
{
    if e.len() > 0 {
        lemma_joined_refl(e.drop_last(), x);
    }
}

/// Method `i` uses field `f`: it joins the method that used `f` first, or
/// becomes its owner.
#[verifier::loop_isolation(false)]
fn connect_field(
    t: &TypeModel,
    labels: &mut Vec<usize>,
    owners: &mut Vec<(Vec<char>, usize)>,
    Ghost(e): Ghost<Seq<(int, int)>>,
    i: usize,
    f: Vec<char>,
) -> (e2: Ghost<Seq<(int, int)>>)
    requires
        i < t.methods@.len(),
        touches(*t, i as int, f@),
        labels_match(old(labels)@, e, t.methods@.len() as int),
        edges_sound(*t, e),
        owners_ok(*t, old(owners)@),
    ensures
        labels_match(final(labels)@, e2@, t.methods@.len() as int),
        edges_sound(*t, e2@),
        owners_ok(*t, final(owners)@),
        extends(old(owners)@, final(owners)@),
        keeps_equal(old(labels)@, final(labels)@),
        owned_with(final(labels)@, final(owners)@, i as int, f@),
{
    let ghost n = t.methods@.len() as int;
    let mut k: usize = 0;
    while k < owners.len()
        invariant
            k <= owners.len(),
            owners@ == old(owners)@,
            labels@ == old(labels)@,
            forall|j: int| 0 <= j < k ==> (#[trigger] owners@[j]).0@ != f@,
        decreases owners.len() - k,
    {
        if chars_eq(&owners[k].0, &f) {
            let o = owners[k].1;
            proof {
                assert(owners_ok(*t, owners@));
                assert(touches(*t, o as int, f@));
                assert(linked(*t, i as int, o as int));
                lemma_joined_refl(e, i as int);
                lemma_joined_refl(e, o as int);
            }
            let ghost before = labels@;
            join(labels, i, o, Ghost(e));
            let ghost e2 = e.push((i as int, o as int));
            proof {
                assert(e2.drop_last() =~= e);
                assert(joined(e2, i as int, o as int));
                assert forall|x: int, y: int| 0 <= x < before.len() && 0 <= y < before.len() && before[x] == before[y] implies #[trigger] labels@[x] == #[trigger] labels@[y] by {
                    assert(joined(e, x, y));
                    assert(joined(e2, x, y));
                }
                assert forall|j: int| 0 <= j < e2.len() implies 0 <= (#[trigger] e2[j]).0 < n && 0 <= e2[j].1 < n && linked(*t, e2[j].0, e2[j].1) by {
                    if j < e.len() {
                        assert(e2[j] == e[j]);
                    }
                }
                assert(owners@[k as int].0@ == f@);
            }
            return Ghost(e2);
        }
        k = k + 1;
    }
    let ghost old_owners = owners@;
    owners.push((f, i));
    proof {
        assert(owners@[old_owners.len() as int].0@ == f@);
        assert forall|k1: int, k2: int| 0 <= k1 < k2 < owners@.len() implies (#[trigger] owners@[k1]).0@ != (#[trigger] owners@[k2]).0@ by {
            if k2 < old_owners.len() {
                assert(owners@[k1] == old_owners[k1] && owners@[k2] == old_owners[k2]);
            } else {
                assert(owners@[k1] == old_owners[k1]);
            }
        }
        assert forall|j: int| 0 <= j < owners@.len() implies (#[trigger] owners@[j]).1 < n && touches(*t, owners@[j].1 as int, owners@[j].0@) by {
            if j < old_owners.len() {
                assert(owners@[j] == old_owners[j]);
            }
        }
    }
    Ghost(e)
}

/// Method `i` calls method `j`: the two are joined.
fn connect_call(t: &TypeModel, labels: &mut Vec<usize>, Ghost(e): Ghost<Seq<(int, int)>>, i: usize, j: usize) -> (e2: Ghost<Seq<(int, int)>>)
    requires
        i < t.methods@.len(),
        j < t.methods@.len(),
        calls(*t, i as int, j as int),
        labels_match(old(labels)@, e, t.methods@.len() as int),
        edges_sound(*t, e),
    ensures
        labels_match(final(labels)@, e2@, t.methods@.len() as int),
        edges_sound(*t, e2@),
        keeps_equal(old(labels)@, final(labels)@),
        final(labels)@[i as int] == final(labels)@[j as int],
{
    let ghost n = t.methods@.len() as int;
    let ghost before = labels@;
    proof {
        lemma_joined_refl(e, i as int);
        lemma_joined_refl(e, j as int);
    }
    join(labels, i, j, Ghost(e));
    let ghost e2 = e.push((i as int, j as int));
    proof {
        assert(e2.drop_last() =~= e);
        assert(joined(e2, i as int, j as int));
        assert forall|x: int, y: int| 0 <= x < before.len() && 0 <= y < before.len() && before[x] == before[y] implies #[trigger] labels@[x] == #[trigger] labels@[y] by {
            assert(joined(e, x, y));
            assert(joined(e2, x, y));
        }
        assert forall|k: int| 0 <= k < e2.len() implies 0 <= (#[trigger] e2[k]).0 < n && 0 <= e2[k].1 < n && linked(*t, e2[k].0, e2[k].1) by {
            if k < e.len() {
                assert(e2[k] == e[k]);
            }
        }
    }
    Ghost(e2)
}


proof fn lemma_owned_kept(
    t: TypeModel,
    labels: Seq<usize>,
    owners: Seq<(Vec<char>, usize)>,
    labels2: Seq<usize>,
    owners2: Seq<(Vec<char>, usize)>,
    i: int,
    f: Seq<char>,
)
    requires
        owned_with(labels, owners, i, f),
        0 <= i < labels.len(),
        labels.len() == t.methods@.len(),
        owners_ok(t, owners),
        extends(owners, owners2),
        keeps_equal(labels, labels2),
    ensures
        owned_with(labels2, owners2, i, f),
{
    let k = choose|k: int| 0 <= k < owners.len() && (#[trigger] owners[k]).0@ == f && labels[i] == labels[owners[k].1 as int];
    assert(owners2[k] == owners[k]);
    assert(owners[k].1 < t.methods@.len());
    assert(labels2[i] == labels2[owners[k].1 as int]);
}

/// What method `i` has joined once its uses are connected.
pub open spec fn method_done(t: TypeModel, labels: Seq<usize>, owners: Seq<(Vec<char>, usize)>, i: int) -> bool {
    &&& forall|f: Seq<char>| #[trigger] touches(t, i, f) ==> owned_with(labels, owners, i, f)
    &&& forall|j: int| #[trigger] calls(t, i, j) ==> labels[i] == labels[j]
}

/// Connects the uses of method `i`, which takes part.
fn connect_method(
    t: &TypeModel,
    labels: &mut Vec<usize>,
    owners: &mut Vec<(Vec<char>, usize)>,
    Ghost(e): Ghost<Seq<(int, int)>>,
    i: usize,
) -> (e2: Ghost<Seq<(int, int)>>)
    requires
        i < t.methods@.len(),
        takes_part(*t, i as int),
        labels_match(old(labels)@, e, t.methods@.len() as int),
        edges_sound(*t, e),
        owners_ok(*t, old(owners)@),
    ensures
        labels_match(final(labels)@, e2@, t.methods@.len() as int),
        edges_sound(*t, e2@),
        owners_ok(*t, final(owners)@),
        extends(old(owners)@, final(owners)@),
        keeps_equal(old(labels)@, final(labels)@),
        method_done(*t, final(labels)@, final(owners)@, i as int),
{
    let ghost n = t.methods@.len() as int;
    let ghost start_labels = labels@;
    let ghost start_owners = owners@;
    let ghost mut g = e;
    let m = &t.methods[i];
    let mut k: usize = 0;
    while k < m.used_fields.len()
        invariant
            i < n,
            n == t.methods@.len(),
            m == t.methods@[i as int],
            takes_part(*t, i as int),
            k <= m.used_fields.len(),
            labels_match(labels@, g, n),
            edges_sound(*t, g),
            owners_ok(*t, owners@),
            start_labels.len() == n,
            extends(start_owners, owners@),
            keeps_equal(start_labels, labels@),
            forall|j: int| 0 <= j < k && has_field(*t, #[trigger] m.used_fields@[j]@) ==> owned_with(labels@, owners@, i as int, m.used_fields@[j]@),
        decreases m.used_fields.len() - k,
    {
        let u = chars_of_string(&m.used_fields[k]);
        if field_present(t, &u) {
            let ghost l0 = labels@;
            let ghost o0 = owners@;
            proof {
                assert(touches(*t, i as int, u@));
            }
            let r = connect_field(t, labels, owners, Ghost(g), i, u);
            proof {
                g = r@;
                assert forall|j: int| 0 <= j < k + 1 && has_field(*t, #[trigger] m.used_fields@[j]@) implies owned_with(labels@, owners@, i as int, m.used_fields@[j]@) by {
                    if j < k {
                        lemma_owned_kept(*t, l0, o0, labels@, owners@, i as int, m.used_fields@[j]@);
                    }
                }
                assert forall|x: int, y: int| 0 <= x < start_labels.len() && 0 <= y < start_labels.len() && start_labels[x] == start_labels[y] implies #[trigger] labels@[x] == #[trigger] labels@[y] by {
                    assert(l0[x] == l0[y]);
                }
                assert forall|q: int| 0 <= q < start_owners.len() implies #[trigger] owners@[q] == start_owners[q] by {
                    assert(o0[q] == start_owners[q]);
                }
            }
        }
        k = k + 1;
    }
    let mut c: usize = 0;
    while c < m.called_methods.len()
        invariant
            i < n,
            n == t.methods@.len(),
            m == t.methods@[i as int],
            takes_part(*t, i as int),
            c <= m.called_methods.len(),
            labels_match(labels@, g, n),
            edges_sound(*t, g),
            owners_ok(*t, owners@),
            start_labels.len() == n,
            extends(start_owners, owners@),
            keeps_equal(start_labels, labels@),
            forall|j: int| 0 <= j < m.used_fields@.len() && has_field(*t, #[trigger] m.used_fields@[j]@) ==> owned_with(labels@, owners@, i as int, m.used_fields@[j]@),
            forall|j: int| 0 <= j < c ==> match accessor_of(t.methods@, #[trigger] m.called_methods@[j]@) {
                Some(f) => owned_with(labels@, owners@, i as int, f),
                None => match index_of(t.methods@, m.called_methods@[j]@) {
                    Some(x) => labels@[i as int] == labels@[x],
                    None => true,
                },
            },
        decreases m.called_methods.len() - c,
    {
        let name = chars_of_string(&m.called_methods[c]);
        let ghost l0 = labels@;
        let ghost o0 = owners@;
        let ghost cname = m.called_methods@[c as int]@;
        assert(name@ == cname);
        match accessor_lookup(&t.methods, &name) {
            Some(f) => {
                proof {
                    assert(touches(*t, i as int, f@));
                }
                let r = connect_field(t, labels, owners, Ghost(g), i, f);
                proof {
                    g = r@;
                }
            },
            None => {
                match index_lookup(&t.methods, &name) {
                    Some(x) => {
                        proof {
                            assert(accessor_of(t.methods@, cname) is None);
                            assert(index_of(t.methods@, cname) == Some(x as int));
                            assert(calls(*t, i as int, x as int));
                        }
                        let r = connect_call(t, labels, Ghost(g), i, x);
                        proof {
                            g = r@;
                        }
                    },
                    None => {},
                }
            },
        }
        assert(match accessor_of(t.methods@, cname) {
            Some(f) => owned_with(labels@, owners@, i as int, f),
            None => match index_of(t.methods@, cname) {
                Some(x) => labels@[i as int] == labels@[x],
                None => true,
            },
        });
        proof {
            assert forall|x: int, y: int| 0 <= x < start_labels.len() && 0 <= y < start_labels.len() && start_labels[x] == start_labels[y] implies #[trigger] labels@[x] == #[trigger] labels@[y] by {
                assert(l0[x] == l0[y]);
            }
            assert forall|q: int| 0 <= q < start_owners.len() implies #[trigger] owners@[q] == start_owners[q] by {
                assert(o0[q] == start_owners[q]);
            }
            assert forall|j: int| 0 <= j < m.used_fields@.len() && has_field(*t, #[trigger] m.used_fields@[j]@) implies owned_with(labels@, owners@, i as int, m.used_fields@[j]@) by {
                lemma_owned_kept(*t, l0, o0, labels@, owners@, i as int, m.used_fields@[j]@);
            }
            assert forall|j: int| 0 <= j < c + 1 implies match accessor_of(t.methods@, #[trigger] m.called_methods@[j]@) {
                Some(f) => owned_with(labels@, owners@, i as int, f),
                None => match index_of(t.methods@, m.called_methods@[j]@) {
                    Some(x) => labels@[i as int] == labels@[x],
                    None => true,
                },
            } by {
                if j < c {
                    match accessor_of(t.methods@, m.called_methods@[j]@) {
                        Some(f) => {
                            lemma_owned_kept(*t, l0, o0, labels@, owners@, i as int, f);
                        },
                        None => {
                            lemma_index_of_bounds(t.methods@, m.called_methods@[j]@);
                            match index_of(t.methods@, m.called_methods@[j]@) {
                                Some(x) => {
                                    assert(l0[i as int] == l0[x]);
                                },
                                None => {},
                            }
                        },
                    }
                }
            }
        }
        c = c + 1;
    }
    proof {
        assert forall|f: Seq<char>| #[trigger] touches(*t, i as int, f) implies owned_with(labels@, owners@, i as int, f) by {
            if has_field(*t, f) && exists|k: int| 0 <= k < m.used_fields@.len() && #[trigger] m.used_fields@[k]@ == f {
                let k = choose|k: int| 0 <= k < m.used_fields@.len() && #[trigger] m.used_fields@[k]@ == f;
                assert(has_field(*t, m.used_fields@[k]@));
            } else {
                let k = choose|k: int| 0 <= k < m.called_methods@.len() && accessor_of(t.methods@, #[trigger] m.called_methods@[k]@) == Some(f);
                assert(accessor_of(t.methods@, m.called_methods@[k]@) == Some(f));
            }
        }
        assert forall|j: int| #[trigger] calls(*t, i as int, j) implies labels@[i as int] == labels@[j] by {
            let k = choose|k: int| 0 <= k < m.called_methods@.len()
                && accessor_of(t.methods@, #[trigger] m.called_methods@[k]@) is None
                && index_of(t.methods@, m.called_methods@[k]@) == Some(j);
            assert(accessor_of(t.methods@, m.called_methods@[k]@) is None);
        }
    }
    Ghost(g)
}


fn takes_part_exec(t: &TypeModel, i: usize) -> (b: bool)
    requires
        i < t.methods@.len(),
    ensures
        b == takes_part(*t, i as int),
{
    t.methods[i].has_body && accessor_lookup(&t.methods, &chars_of_string(&t.methods[i].name)).is_none()
}

fn uses_any_field(t: &TypeModel, x: usize) -> (b: bool)
    requires
        x < t.methods@.len(),
    ensures
        b == exists|f: Seq<char>| #[trigger] touches(*t, x as int, f),
{
    if !takes_part_exec(t, x) {
        return false;
    }
    let m = &t.methods[x];
    let mut k: usize = 0;
    while k < m.used_fields.len()
        invariant
            x < t.methods@.len(),
            m == t.methods@[x as int],
            takes_part(*t, x as int),
            k <= m.used_fields.len(),
            forall|j: int| 0 <= j < k ==> !has_field(*t, #[trigger] m.used_fields@[j]@),
        decreases m.used_fields.len() - k,
    {
        let u = chars_of_string(&m.used_fields[k]);
        if field_present(t, &u) {
            assert(touches(*t, x as int, u@));
            return true;
        }
        k = k + 1;
    }
    let mut c: usize = 0;
    while c < m.called_methods.len()
        invariant
            x < t.methods@.len(),
            m == t.methods@[x as int],
            takes_part(*t, x as int),
            c <= m.called_methods.len(),
            forall|j: int| 0 <= j < c ==> accessor_of(t.methods@, #[trigger] m.called_methods@[j]@) is None,
        decreases m.called_methods.len() - c,
    {
        let name = chars_of_string(&m.called_methods[c]);
        match accessor_lookup(&t.methods, &name) {
            Some(f) => {
                assert(touches(*t, x as int, f@));
                return true;
            },
            None => {},
        }
        c = c + 1;
    }
    proof {
        assert forall|f: Seq<char>| !#[trigger] touches(*t, x as int, f) by {
            if touches(*t, x as int, f) {
                if has_field(*t, f) && exists|k: int| 0 <= k < m.used_fields@.len() && #[trigger] m.used_fields@[k]@ == f {
                    let k = choose|k: int| 0 <= k < m.used_fields@.len() && #[trigger] m.used_fields@[k]@ == f;
                    assert(!has_field(*t, m.used_fields@[k]@));
                } else {
                    let k = choose|k: int| 0 <= k < m.called_methods@.len() && accessor_of(t.methods@, #[trigger] m.called_methods@[k]@) == Some(f);
                    assert(accessor_of(t.methods@, m.called_methods@[k]@) is None);
                }
            }
        }
    }
    false
}

/// The method that the `c`-th call of method `x` reaches, where it is a
/// call of a method that is no accessor.
fn call_target(t: &TypeModel, x: usize, c: usize) -> (r: Option<usize>)
    requires
        x < t.methods@.len(),
        c < t.methods@[x as int].called_methods@.len(),
    ensures
        r matches Some(j) ==> j < t.methods@.len() && accessor_of(t.methods@, t.methods@[x as int].called_methods@[c as int]@) is None
            && index_of(t.methods@, t.methods@[x as int].called_methods@[c as int]@) == Some(j as int),
        r is None ==> !(accessor_of(t.methods@, t.methods@[x as int].called_methods@[c as int]@) is None
            && index_of(t.methods@, t.methods@[x as int].called_methods@[c as int]@) is Some),
{
    let name = chars_of_string(&t.methods[x].called_methods[c]);
    if accessor_lookup(&t.methods, &name).is_some() {
        return None;
    }
    index_lookup(&t.methods, &name)
}

fn calls_any(t: &TypeModel, x: usize) -> (b: bool)
    requires
        x < t.methods@.len(),
    ensures
        b == exists|j: int| #[trigger] calls(*t, x as int, j),
{
    if !takes_part_exec(t, x) {
        return false;
    }
    let mut c: usize = 0;
    while c < t.methods[x].called_methods.len()
        invariant
            x < t.methods@.len(),
            takes_part(*t, x as int),
            c <= t.methods@[x as int].called_methods@.len(),
            forall|k: int| 0 <= k < c ==> !(accessor_of(t.methods@, #[trigger] t.methods@[x as int].called_methods@[k]@) is None
                && index_of(t.methods@, t.methods@[x as int].called_methods@[k]@) is Some),
        decreases t.methods@[x as int].called_methods@.len() - c,
    {
        match call_target(t, x, c) {
            Some(j) => {
                assert(calls(*t, x as int, j as int));
                return true;
            },
            None => {},
        }
        c = c + 1;
    }
    proof {
        assert forall|j: int| !#[trigger] calls(*t, x as int, j) by {
            if calls(*t, x as int, j) {
                let k = choose|k: int| 0 <= k < t.methods@[x as int].called_methods@.len()
                    && accessor_of(t.methods@, #[trigger] t.methods@[x as int].called_methods@[k]@) is None
                    && index_of(t.methods@, t.methods@[x as int].called_methods@[k]@) == Some(j);
                assert(accessor_of(t.methods@, t.methods@[x as int].called_methods@[k]@) is None);
            }
        }
    }
    false
}

fn called_by_any(t: &TypeModel, x: usize) -> (b: bool)
    requires
        x < t.methods@.len(),
    ensures
        b == exists|j: int| #[trigger] calls(*t, j, x as int),
{
    let mut j: usize = 0;
    while j < t.methods.len()
        invariant
            x < t.methods@.len(),
            j <= t.methods@.len(),
            forall|q: int| 0 <= q < j ==> !#[trigger] calls(*t, q, x as int),
        decreases t.methods@.len() - j,
    {
        if takes_part_exec(t, j) {
            let mut c: usize = 0;
            while c < t.methods[j].called_methods.len()
                invariant
                    x < t.methods@.len(),
                    j < t.methods@.len(),
                    takes_part(*t, j as int),
                    c <= t.methods@[j as int].called_methods@.len(),
                    forall|k: int| 0 <= k < c ==> !(accessor_of(t.methods@, #[trigger] t.methods@[j as int].called_methods@[k]@) is None
                        && index_of(t.methods@, t.methods@[j as int].called_methods@[k]@) == Some(x as int)),
                decreases t.methods@[j as int].called_methods@.len() - c,
            {
                match call_target(t, j, c) {
                    Some(target) => {
                        if target == x {
                            assert(calls(*t, j as int, x as int));
                            return true;
                        }
                    },
                    None => {},
                }
                c = c + 1;
            }
            proof {
                if calls(*t, j as int, x as int) {
                    let k = choose|k: int| 0 <= k < t.methods@[j as int].called_methods@.len()
                        && accessor_of(t.methods@, #[trigger] t.methods@[j as int].called_methods@[k]@) is None
                        && index_of(t.methods@, t.methods@[j as int].called_methods@[k]@) == Some(x as int);
                    assert(accessor_of(t.methods@, t.methods@[j as int].called_methods@[k]@) is None);
                }
            }
        }
        j = j + 1;
    }
    false
}

fn is_active(t: &TypeModel, x: usize) -> (b: bool)
    requires
        x < t.methods@.len(),
    ensures
        b == active(*t, x as int),
{
    uses_any_field(t, x) || calls_any(t, x) || called_by_any(t, x)
}

/// LCOM4 of type `t`: the number of groups its methods fall into when two
/// methods belong together as soon as they share a field (directly or
/// through an accessor) or one calls the other; at least 1.
pub fn lcom4(t: &TypeModel) -> (r: usize)
    ensures
        r == lcom4_spec(*t),
{
    let n = t.methods.len();
    let mut labels: Vec<usize> = Vec::new();
    let mut k: usize = 0;
    while k < n
        invariant
            n == t.methods@.len(),
            k <= n,
            labels@.len() == k,
            forall|x: int| 0 <= x < k ==> labels@[x] == x,
        decreases n - k,
    {
        labels.push(k);
        k = k + 1;
    }
    let ghost mut e: Seq<(int, int)> = Seq::empty();
    assert(labels_match(labels@, e, n as int));
    let mut owners: Vec<(Vec<char>, usize)> = Vec::new();
    let mut i: usize = 0;
    while i < n
        invariant
            n == t.methods@.len(),
            i <= n,
            labels_match(labels@, e, n as int),
            edges_sound(*t, e),
            owners_ok(*t, owners@),
            forall|a: int| 0 <= a < i ==> #[trigger] method_done(*t, labels@, owners@, a),
        decreases n - i,
    {
        if takes_part_exec(t, i) {
            let ghost l0 = labels@;
            let ghost o0 = owners@;
            let r = connect_method(t, &mut labels, &mut owners, Ghost(e), i);
            proof {
                e = r@;
                assert forall|a: int| 0 <= a < i + 1 implies #[trigger] method_done(*t, labels@, owners@, a) by {
                    if a < i {
                        assert(method_done(*t, l0, o0, a));
                        assert forall|f: Seq<char>| #[trigger] touches(*t, a, f) implies owned_with(labels@, owners@, a, f) by {
                            lemma_owned_kept(*t, l0, o0, labels@, owners@, a, f);
                        }
                        assert forall|j: int| #[trigger] calls(*t, a, j) implies labels@[a] == labels@[j] by {
                            lemma_index_of_bounds(t.methods@, t.methods@[a].called_methods@[0]@);
                            let q = choose|q: int| 0 <= q < t.methods@[a].called_methods@.len()
                                && accessor_of(t.methods@, #[trigger] t.methods@[a].called_methods@[q]@) is None
                                && index_of(t.methods@, t.methods@[a].called_methods@[q]@) == Some(j);
                            lemma_index_of_bounds(t.methods@, t.methods@[a].called_methods@[q]@);
                            assert(l0[a] == l0[j]);
                        }
                    }
                }
            }
        } else {
            proof {
                assert(method_done(*t, labels@, owners@, i as int));
            }
        }
        i = i + 1;
    }
    proof {
        assert forall|a: int, b: int| 0 <= a < n && 0 <= b < n && #[trigger] linked(*t, a, b) implies joined(e, a, b) by {
            assert(method_done(*t, labels@, owners@, a));
            assert(method_done(*t, labels@, owners@, b));
            if calls(*t, a, b) {
            } else if calls(*t, b, a) {
            } else {
                let f = choose|f: Seq<char>| touches(*t, a, f) && #[trigger] touches(*t, b, f);
                let k1 = choose|k: int| 0 <= k < owners@.len() && (#[trigger] owners@[k]).0@ == f && labels@[a] == labels@[owners@[k].1 as int];
                let k2 = choose|k: int| 0 <= k < owners@.len() && (#[trigger] owners@[k]).0@ == f && labels@[b] == labels@[owners@[k].1 as int];
                if k1 < k2 {
                    assert(owners@[k1].0@ != owners@[k2].0@);
                } else if k2 < k1 {
                    assert(owners@[k2].0@ != owners@[k1].0@);
                }
            }
        }
        assert(cohesion_edges(*t, e));
    }
    let mut act: Vec<bool> = Vec::new();
    let mut x: usize = 0;
    while x < n
        invariant
            n == t.methods@.len(),
            x <= n,
            act@.len() == x,
            forall|q: int| 0 <= q < x ==> act@[q] == active(*t, q),
        decreases n - x,
    {
        let b = is_active(t, x);
        act.push(b);
        x = x + 1;
    }
    let mut count: usize = 0;
    let mut i: usize = 0;
    while i < n
        invariant
            n == t.methods@.len(),
            i <= n,
            count <= i,
            act@.len() == n,
            forall|q: int| 0 <= q < n ==> act@[q] == active(*t, q),
            labels_match(labels@, e, n as int),
            count == groups_below(*t, e, i as int),
        decreases n - i,
    {
        if act[i] {
            let mut first = true;
            let mut j: usize = 0;
            while j < i
                invariant
                    n == t.methods@.len(),
                    i < n,
                    j <= i,
                    act@.len() == n,
                    forall|q: int| 0 <= q < n ==> act@[q] == active(*t, q),
                    labels_match(labels@, e, n as int),
                    first == forall|q: int| 0 <= q < j && active(*t, q) ==> !#[trigger] joined(e, q, i as int),
                decreases i - j,
            {
                assert(labels@[j as int] == labels@[i as int] <==> joined(e, j as int, i as int));
                if act[j] && labels[j] == labels[i] {
                    first = false;
                }
                j = j + 1;
            }
            if first {
                count = count + 1;
            }
        }
        i = i + 1;
    }
    proof {
        let chosen = choose|e2: Seq<(int, int)>| cohesion_edges(*t, e2);
        assert(cohesion_edges(*t, chosen));
        lemma_groups_unique(*t, e, chosen, n as int);
    }
    if count == 0 {
        1
    } else {
        count
    }
}


// ----- uniqueness --------------------------------------------------------------

/// `joined` is an equivalence.
proof fn lemma_joined_equivalence(e: Seq<(int, int)>)
    ensures
        forall|a: int, b: int| #[trigger] joined(e, a, b) ==> joined(e, b, a),
        forall|a: int, b: int, c: int| #[trigger] joined(e, a, b) && #[trigger] joined(e, b, c) ==> joined(e, a, c),
    decreases e.len(),
{
    if e.len() > 0 {
        let p = e.drop_last();
        let (x, y) = e.last();
        lemma_joined_equivalence(p);
        assert forall|a: int, b: int| #[trigger] joined(e, a, b) implies joined(e, b, a) by {
            if joined(p, a, b) {
                assert(joined(p, b, a));
            } else if joined(p, a, x) && joined(p, y, b) {
                assert(joined(p, b, y) && joined(p, x, a));
            } else {
                assert(joined(p, a, y) && joined(p, x, b));
                assert(joined(p, b, x) && joined(p, y, a));
            }
        }
        assert forall|a: int, b: int, c: int| #[trigger] joined(e, a, b) && #[trigger] joined(e, b, c) implies joined(e, a, c) by {
            let ab0 = joined(p, a, b);
            let ab1 = joined(p, a, x) && joined(p, y, b);
            let ab2 = joined(p, a, y) && joined(p, x, b);
            let bc0 = joined(p, b, c);
            let bc1 = joined(p, b, x) && joined(p, y, c);
            let bc2 = joined(p, b, y) && joined(p, x, c);
            if ab0 && bc0 {
                assert(joined(p, a, c));
            } else if ab0 && bc1 {
                assert(joined(p, a, x));
            } else if ab0 && bc2 {
                assert(joined(p, a, y));
            } else if ab1 && bc0 {
                assert(joined(p, y, c));
            } else if ab1 && bc1 {
                assert(joined(p, a, x) && joined(p, y, c));
            } else if ab1 && bc2 {
                assert(joined(p, y, y));
                assert(joined(p, a, x) && joined(p, x, c));
                assert(joined(p, a, c));
            } else if ab2 && bc0 {
                assert(joined(p, x, c));
            } else if ab2 && bc1 {
                assert(joined(p, a, y) && joined(p, y, c));
                assert(joined(p, a, c));
            } else {
                assert(joined(p, a, y) && joined(p, x, c));
            }
        }
    }
}

/// Edges that `r` holds of are joined under `r`'s closure only where `r`
/// holds.
proof fn lemma_joined_within(e1: Seq<(int, int)>, e2: Seq<(int, int)>, a: int, b: int)
    requires
        forall|k: int| 0 <= k < e1.len() ==> #[trigger] joined(e2, e1[k].0, e1[k].1),
        joined(e1, a, b),
    ensures
        joined(e2, a, b),
    decreases e1.len(),
{
    lemma_joined_equivalence(e2);
    lemma_joined_refl(e2, a);
    if e1.len() > 0 {
        let p = e1.drop_last();
        let (x, y) = e1.last();
        assert forall|k: int| 0 <= k < p.len() implies #[trigger] joined(e2, p[k].0, p[k].1) by {
            assert(p[k] == e1[k]);
        }
        assert(joined(e2, x, y)) by {
            assert(e1[e1.len() - 1] == (x, y));
        }
        if joined(p, a, b) {
            lemma_joined_within(p, e2, a, b);
        } else if joined(p, a, x) && joined(p, y, b) {
            lemma_joined_within(p, e2, a, x);
            lemma_joined_within(p, e2, y, b);
        } else {
            lemma_joined_within(p, e2, a, y);
            lemma_joined_within(p, e2, x, b);
            assert(joined(e2, y, x));
        }
    }
}

/// Any two edge sets of the type join the same methods.
proof fn lemma_cohesion_unique(t: TypeModel, e1: Seq<(int, int)>, e2: Seq<(int, int)>, a: int, b: int)
    requires
        cohesion_edges(t, e1),
        cohesion_edges(t, e2),
    ensures
        joined(e1, a, b) == joined(e2, a, b),
{
    assert forall|k: int| 0 <= k < e1.len() implies #[trigger] joined(e2, e1[k].0, e1[k].1) by {
        assert(linked(t, e1[k].0, e1[k].1));
    }
    assert forall|k: int| 0 <= k < e2.len() implies #[trigger] joined(e1, e2[k].0, e2[k].1) by {
        assert(linked(t, e2[k].0, e2[k].1));
    }
    if joined(e1, a, b) {
        lemma_joined_within(e1, e2, a, b);
    }
    if joined(e2, a, b) {
        lemma_joined_within(e2, e1, a, b);
    }
}

proof fn lemma_groups_unique(t: TypeModel, e1: Seq<(int, int)>, e2: Seq<(int, int)>, k: int)
    requires
        cohesion_edges(t, e1),
        cohesion_edges(t, e2),
    ensures
        groups_below(t, e1, k) == groups_below(t, e2, k),
    decreases k,
{
    if k > 0 {
        lemma_groups_unique(t, e1, e2, k - 1);
        let f1 = forall|j: int| 0 <= j < k - 1 && active(t, j) ==> !#[trigger] joined(e1, j, k - 1);
        let f2 = forall|j: int| 0 <= j < k - 1 && active(t, j) ==> !#[trigger] joined(e2, j, k - 1);
        if f1 {
            assert forall|j: int| 0 <= j < k - 1 && active(t, j) implies !#[trigger] joined(e2, j, k - 1) by {
                lemma_cohesion_unique(t, e1, e2, j, k - 1);
            }
        }
        if f2 {
            assert forall|j: int| 0 <= j < k - 1 && active(t, j) implies !#[trigger] joined(e1, j, k - 1) by {
                lemma_cohesion_unique(t, e1, e2, j, k - 1);
            }
        }
        assert(f1 == f2);
    }
}

/// LCOM4 of `t`: the number of groups of its methods, at least 1.
pub open spec fn lcom4_spec(t: TypeModel) -> nat {
    lcom4_with(t, choose|e: Seq<(int, int)>| cohesion_edges(t, e))
}

} // verus!
