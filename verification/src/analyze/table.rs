//! The types of one file, by key: declarations, trait definitions and the
//! methods of `impl` blocks merge into one entry per key, in the order the
//! keys first appear.

use vstd::prelude::*;
use crate::analyze::model::{FieldInfo, FnModel, MethodRef, TypeModel};
use crate::report::chars_of_string;
use crate::text::{chars_eq, chars_of, string_of};

verus! {

/// What a `struct`, `enum` or `union` declaration says of its type.
pub struct TypeDefinition {
    pub name: String,
    /// `struct`, `enum` or `union`.
    pub node_type: String,
    pub begin_line: usize,
    pub end_line: usize,
    pub field_count: usize,
    pub public_fields: usize,
    pub fields: Vec<FieldInfo>,
}

/// The position of the first entry of `ts` from `i` on whose key is `key`.
pub open spec fn key_from(ts: Seq<TypeModel>, key: Seq<char>, i: int) -> Option<int>
    decreases ts.len() - i,
{
    if i < 0 || i >= ts.len() {
        None
    } else if ts[i].key@ == key {
        Some(i)
    } else {
        key_from(ts, key, i + 1)
    }
}

/// The position of the entry whose key is `key`.
pub open spec fn find_key(ts: Seq<TypeModel>, key: Seq<char>) -> Option<int> {
    key_from(ts, key, 0)
}

/// No two entries share a key.
pub open spec fn distinct_keys(ts: Seq<TypeModel>) -> bool {
    forall|i: int, j: int| 0 <= i < j < ts.len() ==> ts[i].key@ != ts[j].key@
}

/// `t` is the entry a first declaration `def` of `key` makes.
pub open spec fn declared(t: TypeModel, key: Seq<char>, def: TypeDefinition) -> bool {
    &&& t.key@ == key
    &&& t.name@ == def.name@
    &&& t.node_type@ == def.node_type@
    &&& t.begin_line == def.begin_line
    &&& t.end_line == def.end_line
    &&& t.field_count == def.field_count
    &&& t.public_fields == def.public_fields
    &&& t.fields@ == def.fields@
    &&& t.methods@.len() == 0
}

/// `t` is entry `old` once declaration `def` is merged into it: the
/// declaration's kind, lines and counts, its fields where it has any, and
/// the methods gathered so far.
pub open spec fn redeclared(old: TypeModel, t: TypeModel, def: TypeDefinition) -> bool {
    &&& t.key@ == old.key@
    &&& t.name@ == old.name@
    &&& t.node_type@ == def.node_type@
    &&& t.begin_line == def.begin_line
    &&& t.end_line == def.end_line
    &&& t.field_count == def.field_count
    &&& t.public_fields == def.public_fields
    &&& t.fields@ == (if def.fields@.len() == 0 { old.fields@ } else { def.fields@ })
    &&& t.methods@ == old.methods@
}

/// `t` is the entry a trait definition makes.
pub open spec fn trait_entry(t: TypeModel, key: Seq<char>, name: Seq<char>, begin_line: usize, end_line: usize, methods: Seq<MethodRef>) -> bool {
    &&& t.key@ == key
    &&& t.name@ == name
    &&& t.node_type@ == "trait"@
    &&& t.begin_line == begin_line
    &&& t.end_line == end_line
    &&& t.field_count == 0
    &&& t.public_fields == 0
    &&& t.fields@.len() == 0
    &&& t.methods@ == methods
}

/// `t` is entry `old` once a trait definition is merged into it: kind
/// `trait`, the trait's lines, no public fields, and its methods added.
pub open spec fn trait_merged(old: TypeModel, t: TypeModel, begin_line: usize, end_line: usize, methods: Seq<MethodRef>) -> bool {
    &&& t.key@ == old.key@
    &&& t.name@ == old.name@
    &&& t.node_type@ == "trait"@
    &&& t.begin_line == begin_line
    &&& t.end_line == end_line
    &&& t.field_count == old.field_count
    &&& t.public_fields == 0
    &&& t.fields@ == old.fields@
    &&& t.methods@ == old.methods@ + methods
}

/// `t` is the entry an `impl` block makes for a type the file has not
/// declared (yet): a `struct` spanning the block, with its methods.
pub open spec fn impl_entry(t: TypeModel, key: Seq<char>, name: Seq<char>, begin_line: usize, end_line: usize, methods: Seq<MethodRef>) -> bool {
    &&& t.key@ == key
    &&& t.name@ == name
    &&& t.node_type@ == "struct"@
    &&& t.begin_line == begin_line
    &&& t.end_line == end_line
    &&& t.field_count == 0
    &&& t.public_fields == 0
    &&& t.fields@.len() == 0
    &&& t.methods@ == methods
}

/// `t` is entry `old` with `methods` added and nothing else changed.
pub open spec fn methods_added(old: TypeModel, t: TypeModel, methods: Seq<MethodRef>) -> bool {
    &&& t.key@ == old.key@
    &&& t.name@ == old.name@
    &&& t.node_type@ == old.node_type@
    &&& t.begin_line == old.begin_line
    &&& t.end_line == old.end_line
    &&& t.field_count == old.field_count
    &&& t.public_fields == old.public_fields
    &&& t.fields@ == old.fields@
    &&& t.methods@ == old.methods@ + methods
}

/// `after` is `before` with entry `i` replaced and all others kept.
pub open spec fn others_kept(before: Seq<TypeModel>, after: Seq<TypeModel>, i: int) -> bool {
    &&& after.len() == before.len()
    &&& forall|j: int| 0 <= j < before.len() && j != i ==> after[j] == before[j]
}

/// `after` is `before` with one entry added at the end.
pub open spec fn one_added(before: Seq<TypeModel>, after: Seq<TypeModel>) -> bool {
    &&& after.len() == before.len() + 1
    &&& forall|j: int| 0 <= j < before.len() ==> after[j] == before[j]
}

proof fn lemma_key_from(ts: Seq<TypeModel>, key: Seq<char>, i: int)
    requires
        0 <= i,
    ensures
        key_from(ts, key, i) matches Some(k) ==> i <= k < ts.len() && ts[k].key@ == key,
        key_from(ts, key, i) is None ==> forall|k: int| i <= k < ts.len() ==> ts[k].key@ != key,
    decreases ts.len() - i,
{
    if i < ts.len() {
        lemma_key_from(ts, key, i + 1);
    }
}

/// Adds an entry under a key `types` does not hold.
fn push_new(types: &mut Vec<TypeModel>, t: TypeModel)
    requires
        distinct_keys(old(types)@),
        find_key(old(types)@, t.key@) is None,
    ensures
        distinct_keys(final(types)@),
        final(types)@ == old(types)@.push(t),
{
    proof {
        lemma_key_from(types@, t.key@, 0);
    }
    types.push(t);
}

/// The types of a file, one entry per key.
pub struct TypeTable {
    types: Vec<TypeModel>,
}

impl TypeTable {
    /// The entries, in the order their keys first appeared.
    pub closed spec fn entries(&self) -> Seq<TypeModel> {
        self.types@
    }

    #[verifier::type_invariant]
    closed spec fn wf(&self) -> bool {
        distinct_keys(self.types@)
    }

    /// An empty table.
    pub fn new() -> (t: TypeTable)
        ensures
            t.entries().len() == 0,
    {
        TypeTable { types: Vec::new() }
    }

    /// The position of the entry keyed `key`, if there is one.
    pub fn position(&self, key: &String) -> (r: Option<usize>)
        ensures
            r matches Some(i) ==> find_key(self.entries(), key@) == Some(i as int),
            r is None ==> find_key(self.entries(), key@) is None,
    {
        let k = chars_of_string(key);
        let mut i: usize = 0;
        while i < self.types.len()
            invariant
                i <= self.types@.len(),
                k@ == key@,
                find_key(self.types@, key@) == key_from(self.types@, key@, i as int),
            decreases self.types@.len() - i,
        {
            if chars_eq(&chars_of_string(&self.types[i].key), &k) {
                return Some(i);
            }
            i = i + 1;
        }
        None
    }

    /// Whether an entry is keyed `key`.
    pub fn contains(&self, key: &String) -> (r: bool)
        ensures
            r == (find_key(self.entries(), key@) is Some),
    {
        self.position(key).is_some()
    }

    proof fn lemma_position(&self, key: Seq<char>)
        ensures
            find_key(self.entries(), key) matches Some(i) ==> 0 <= i < self.entries().len() && self.entries()[i].key@ == key,
            find_key(self.entries(), key) is None ==> forall|k: int| 0 <= k < self.entries().len() ==> self.entries()[k].key@ != key,
    {
        lemma_key_from(self.types@, key, 0);
    }

    /// Merges a `struct`, `enum` or `union` declaration of `key`: a new key
    /// gets an entry of its own; a known one takes the declaration's kind,
    /// lines and counts, and its fields unless it declares none.
    pub fn upsert_type(&mut self, key: String, def: TypeDefinition)
        ensures
            match find_key(old(self).entries(), key@) {
                Some(i) => {
                    &&& others_kept(old(self).entries(), final(self).entries(), i)
                    &&& redeclared(old(self).entries()[i], final(self).entries()[i], def)
                },
                None => {
                    &&& one_added(old(self).entries(), final(self).entries())
                    &&& declared(final(self).entries().last(), key@, def)
                },
            },
    {
        proof {
            use_type_invariant(&*self);
            self.lemma_position(key@);
        }
        let found = self.position(&key);
        let ghost prior = self.types@;
        let mut types: Vec<TypeModel> = Vec::new();
        std::mem::swap(&mut types, &mut self.types);
        match found {
            Some(i) => {
                let old_t = types.remove(i);
                let ghost before = old_t;
                let TypeModel { key: k, name, node_type: _, begin_line: _, end_line: _, field_count: _, public_fields: _, fields: old_fields, methods } = old_t;
                let TypeDefinition { name: _, node_type, begin_line, end_line, field_count, public_fields, fields } = def;
                let fields = if fields.len() == 0 { old_fields } else { fields };
                let t = TypeModel { key: k, name, node_type, begin_line, end_line, field_count, public_fields, fields, methods };
                types.insert(i, t);
                assert(types@ =~= prior.update(i as int, t));
                assert(redeclared(before, t, def));
            },
            None => {
                let TypeDefinition { name, node_type, begin_line, end_line, field_count, public_fields, fields } = def;
                let t = TypeModel { key, name, node_type, begin_line, end_line, field_count, public_fields, fields, methods: Vec::new() };
                push_new(&mut types, t);
            },
        }
        self.types = types;
    }

    /// Merges a trait definition of `key` with its methods: a new key gets
    /// a `trait` entry; a known one becomes a `trait` with the definition's
    /// lines and no public fields, and gains the methods.
    pub fn insert_trait(&mut self, key: String, name: String, begin_line: usize, end_line: usize, methods: Vec<MethodRef>)
        ensures
            match find_key(old(self).entries(), key@) {
                Some(i) => {
                    &&& others_kept(old(self).entries(), final(self).entries(), i)
                    &&& trait_merged(old(self).entries()[i], final(self).entries()[i], begin_line, end_line, methods@)
                },
                None => {
                    &&& one_added(old(self).entries(), final(self).entries())
                    &&& trait_entry(final(self).entries().last(), key@, name@, begin_line, end_line, methods@)
                },
            },
    {
        proof {
            use_type_invariant(&*self);
            self.lemma_position(key@);
        }
        let mut methods = methods;
        let node_type = string_of(&chars_of("trait"));
        let found = self.position(&key);
        let ghost prior = self.types@;
        let mut types: Vec<TypeModel> = Vec::new();
        std::mem::swap(&mut types, &mut self.types);
        match found {
            Some(i) => {
                let old_t = types.remove(i);
                let ghost before = old_t;
                let TypeModel { key: k, name: n, node_type: _, begin_line: _, end_line: _, field_count, public_fields: _, fields, methods: mut all } = old_t;
                let ghost added = methods@;
                all.append(&mut methods);
                let t = TypeModel { key: k, name: n, node_type, begin_line, end_line, field_count, public_fields: 0, fields, methods: all };
                types.insert(i, t);
                assert(types@ =~= prior.update(i as int, t));
                assert(trait_merged(before, t, begin_line, end_line, added));
            },
            None => {
                let t = TypeModel {
                    key,
                    name,
                    node_type,
                    begin_line,
                    end_line,
                    field_count: 0,
                    public_fields: 0,
                    fields: Vec::new(),
                    methods,
                };
                push_new(&mut types, t);
            },
        }
        self.types = types;
    }

    /// Adds the methods of an `impl` block to the entry keyed `key`; a key
    /// the table does not hold yet gets a `struct` entry spanning the block.
    pub fn attach_methods(&mut self, key: String, name: String, begin_line: usize, end_line: usize, methods: Vec<MethodRef>)
        ensures
            match find_key(old(self).entries(), key@) {
                Some(i) => {
                    &&& others_kept(old(self).entries(), final(self).entries(), i)
                    &&& methods_added(old(self).entries()[i], final(self).entries()[i], methods@)
                },
                None => {
                    &&& one_added(old(self).entries(), final(self).entries())
                    &&& impl_entry(final(self).entries().last(), key@, name@, begin_line, end_line, methods@)
                },
            },
    {
        proof {
            use_type_invariant(&*self);
            self.lemma_position(key@);
        }
        let mut methods = methods;
        let found = self.position(&key);
        let ghost prior = self.types@;
        let mut types: Vec<TypeModel> = Vec::new();
        std::mem::swap(&mut types, &mut self.types);
        match found {
            Some(i) => {
                let old_t = types.remove(i);
                let ghost before = old_t;
                let TypeModel { key: k, name: n, node_type, begin_line: b, end_line: e, field_count, public_fields, fields, methods: mut all } = old_t;
                let ghost added = methods@;
                all.append(&mut methods);
                let t = TypeModel { key: k, name: n, node_type, begin_line: b, end_line: e, field_count, public_fields, fields, methods: all };
                types.insert(i, t);
                assert(types@ =~= prior.update(i as int, t));
                assert(methods_added(before, t, added));
            },
            None => {
                let t = TypeModel {
                    key,
                    name,
                    node_type: string_of(&chars_of("struct")),
                    begin_line,
                    end_line,
                    field_count: 0,
                    public_fields: 0,
                    fields: Vec::new(),
                    methods,
                };
                push_new(&mut types, t);
            },
        }
        self.types = types;
    }

    /// The key an `impl` block joins: of its type's path resolved through
    /// the `use` items, the path taken in the block's module, and the path
    /// as written, the first the table holds; the resolved path where it
    /// holds none.
    pub fn impl_type_key(&self, resolved: String, scoped: String, written: String) -> (r: String)
        ensures
            r@ == (if find_key(self.entries(), resolved@) is Some {
                resolved@
            } else if find_key(self.entries(), scoped@) is Some {
                scoped@
            } else if find_key(self.entries(), written@) is Some {
                written@
            } else {
                resolved@
            }),
    {
        if self.contains(&resolved) {
            resolved
        } else if self.contains(&scoped) {
            scoped
        } else if self.contains(&written) {
            written
        } else {
            resolved
        }
    }

    /// The entries, in the order their keys first appeared.
    pub fn into_types(self) -> (r: Vec<TypeModel>)
        ensures
            r@ == self.entries(),
            distinct_keys(r@),
    {
        proof {
            use_type_invariant(&self);
        }
        self.types
    }
}


// ----- impl blocks ---------------------------------------------------------------

/// A method of an `impl` block: its entry for the type, its function, and
/// whether it is test-only code.
pub struct ImplMethod {
    pub method: MethodRef,
    pub function: FnModel,
    pub test_only: bool,
}

/// An `impl` block: the name of the type it is for (empty where that is no
/// named type), whether it implements no trait, whether it is test-only
/// code, and its methods in order.
pub struct ImplBlock {
    pub for_type: String,
    pub inherent: bool,
    pub test_only: bool,
    pub methods: Vec<ImplMethod>,
}

/// Whether a method stays in the model: test-only methods go when tests
/// are ignored.
pub open spec fn method_kept(m: ImplMethod, ignore_tests: bool) -> bool {
    !(ignore_tests && m.test_only)
}

/// The type entries of the first `n` methods: those kept, where the block
/// implements no trait.
pub open spec fn impl_refs(ms: Seq<ImplMethod>, n: int, inherent: bool, ignore_tests: bool) -> Seq<MethodRef>
    decreases n,
{
    if n <= 0 {
        Seq::<MethodRef>::empty()
    } else {
        impl_refs(ms, n - 1, inherent, ignore_tests) + if inherent && method_kept(ms[n - 1], ignore_tests) {
            seq![ms[n - 1].method]
        } else {
            Seq::<MethodRef>::empty()
        }
    }
}

/// The functions of the first `n` methods that are kept.
pub open spec fn impl_functions(ms: Seq<ImplMethod>, n: int, ignore_tests: bool) -> Seq<FnModel>
    decreases n,
{
    if n <= 0 {
        Seq::<FnModel>::empty()
    } else {
        impl_functions(ms, n - 1, ignore_tests) + if method_kept(ms[n - 1], ignore_tests) {
            seq![ms[n - 1].function]
        } else {
            Seq::<FnModel>::empty()
        }
    }
}

/// Whether an `impl` block adds nothing: it is for no named type, or it is
/// test-only code and tests are ignored.
pub open spec fn impl_skipped(block: ImplBlock, ignore_tests: bool) -> bool {
    block.for_type@.len() == 0 || (ignore_tests && block.test_only)
}

/// What an `impl` block adds: `None` where it adds nothing; otherwise the
/// entries its methods add to the type (only where it implements no trait)
/// and the functions it adds, test-only methods left out when tests are
/// ignored.
pub fn impl_methods(block: ImplBlock, ignore_tests: bool) -> (r: Option<(Vec<MethodRef>, Vec<FnModel>)>)
    ensures
        match r {
            None => impl_skipped(block, ignore_tests),
            Some((refs, fs)) => {
                &&& !impl_skipped(block, ignore_tests)
                &&& refs@ == impl_refs(block.methods@, block.methods@.len() as int, block.inherent, ignore_tests)
                &&& fs@ == impl_functions(block.methods@, block.methods@.len() as int, ignore_tests)
            },
        },
{
    let ghost all = block.methods@;
    let inherent = block.inherent;
    if chars_of_string(&block.for_type).len() == 0 || (ignore_tests && block.test_only) {
        return None;
    }
    let mut rest = block.methods;
    assert(all.len() == rest.len());
    let mut refs: Vec<MethodRef> = Vec::new();
    let mut fs: Vec<FnModel> = Vec::new();
    let mut i: usize = 0;
    assert(all.skip(0) =~= all);
    while rest.len() > 0
        invariant
            i + rest.len() == all.len(),
            all.len() <= usize::MAX,
            rest@ == all.skip(i as int),
            refs@ == impl_refs(all, i as int, inherent, ignore_tests),
            fs@ == impl_functions(all, i as int, ignore_tests),
        decreases rest.len(),
    {
        let ghost prev = rest@;
        assert(prev[0] == all[i as int]);
        let m = rest.remove(0);
        assert(rest@ =~= all.skip(i + 1)) by {
            assert forall|k: int| 0 <= k < rest@.len() implies rest@[k] == all.skip(i + 1)[k] by {
                assert(rest@[k] == prev[k + 1]);
            }
        }
        let kept = !(ignore_tests && m.test_only);
        let ghost before_refs = refs@;
        let ghost before_fs = fs@;
        if kept {
            if inherent {
                refs.push(m.method);
            }
            fs.push(m.function);
        }
        assert(refs@ =~= impl_refs(all, i + 1, inherent, ignore_tests));
        assert(fs@ =~= impl_functions(all, i + 1, ignore_tests));
        i = i + 1;
    }
    Some((refs, fs))
}

} // verus!
