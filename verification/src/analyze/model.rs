//! What the rules read of one source file.
//!
//! The syntax tree is walked once, outside the rules; what each rule needs
//! of it is kept here as plain values: names, lines and the per-body
//! findings of the walkers (decision points, `else` branches, calls and so
//! on). The rules decide from these values alone.

use vstd::prelude::*;

verus! {

/// A name declared at a line.
#[derive(Clone, Debug)]
pub struct NamedSite {
    pub name: String,
    pub begin_line: usize,
}

/// A local binding, and whether it binds a loop variable.
#[derive(Clone, Debug)]
pub struct NamedBinding {
    pub name: String,
    pub begin_line: usize,
    pub is_loop_binder: bool,
}

/// A `bool` parameter.
#[derive(Clone, Debug)]
pub struct BoolParam {
    pub name: String,
    pub begin_line: usize,
}

/// A struct-literal field written twice.
#[derive(Clone, Debug)]
pub struct DuplicateKey {
    pub display: String,
    pub line: usize,
    pub first_line: usize,
}

/// A position in the source.
#[derive(Clone, Copy, Debug)]
pub struct SourcePos {
    pub line: usize,
    pub column: usize,
}

/// A length or count call inside a loop condition or iterator expression.
#[derive(Clone, Debug)]
pub struct CountLoopHit {
    pub line: usize,
    pub func_name: String,
    pub loop_kind: String,
}

/// A call through a path, or a macro invocation, in a function body, in
/// the order the body is walked.
#[derive(Clone, Debug)]
pub struct Invocation {
    /// Whether it is a macro invocation (`name!(..)`).
    pub is_macro: bool,
    /// The path segments, the called name last.
    pub segments: Vec<String>,
    /// The line of the whole path.
    pub path_line: usize,
    /// The line of the last segment.
    pub name_line: usize,
}

/// One function or method.
pub struct FnModel {
    pub name: String,
    /// The type a method belongs to.
    pub parent: Option<String>,
    pub begin_line: usize,
    pub end_line: usize,
    pub param_count: usize,
    pub bool_params: Vec<BoolParam>,
    pub has_body: bool,
    pub returns_bool: bool,
    /// The type names its signature depends on.
    pub dep_types: Vec<String>,
    pub counts_for_type_metrics: bool,
    /// Cyclomatic complexity of the body (1 without a body).
    pub ccn: usize,
    /// NPath complexity of the body (1 without a body).
    pub npath: usize,
    /// Lines of `else` branches that end the function.
    pub else_lines: Vec<usize>,
    /// Positions of assignments inside `if`/`while` conditions.
    pub condition_assignments: Vec<SourcePos>,
    /// Calls and macro invocations in the body.
    pub invocations: Vec<Invocation>,
    /// The line of the first process exit in the body.
    pub exit_line: Option<usize>,
    pub count_in_loop: Vec<CountLoopHit>,
    /// Lines of match arms or `if let Err` branches that swallow an error.
    pub empty_catch_lines: Vec<usize>,
}

/// A method of a type, as the type metrics see it.
pub struct MethodRef {
    pub name: String,
    pub begin_line: usize,
    pub end_line: usize,
    pub is_public: bool,
    pub has_body: bool,
    /// Cyclomatic complexity of the body.
    pub ccn: usize,
    /// The field a one-statement accessor reads or writes on `self`.
    pub accessor_field: Option<String>,
    /// Members the body uses through `self` (`self.name`), in body order;
    /// names that are no field of the type do not count.
    pub used_fields: Vec<String>,
    /// Methods the body calls through `self` (`self.name(..)`), in body
    /// order; names that are no method of the type do not count.
    pub called_methods: Vec<String>,
}

/// A field of a type.
#[derive(Clone, Debug)]
pub struct FieldInfo {
    pub name: String,
    pub begin_line: usize,
    pub type_names: Vec<String>,
}

/// A struct, enum, union or trait with its methods.
pub struct TypeModel {
    /// The module path and the name, joined by `::`.
    pub key: String,
    pub name: String,
    /// `struct`, `enum`, `union` or `trait`.
    pub node_type: String,
    pub begin_line: usize,
    pub end_line: usize,
    pub field_count: usize,
    pub public_fields: usize,
    pub fields: Vec<FieldInfo>,
    pub methods: Vec<MethodRef>,
}

/// Declarations and uses for the unused-code rules.
pub struct UseDefModel {
    pub locals: Vec<NamedSite>,
    pub params: Vec<NamedSite>,
    pub private_fields: Vec<NamedSite>,
    pub private_methods: Vec<NamedSite>,
    pub ident_reads: Vec<String>,
    pub field_reads: Vec<String>,
    pub method_calls: Vec<String>,
}

/// Everything the rules read of one file.
pub struct FileModel {
    pub functions: Vec<FnModel>,
    pub types: Vec<TypeModel>,
    pub variables: Vec<NamedBinding>,
    pub constants: Vec<NamedSite>,
    pub usage: UseDefModel,
    pub duplicate_struct_keys: Vec<DuplicateKey>,
    pub static_muts: Vec<NamedSite>,
    pub mutated_statics: Vec<String>,
}

} // verus!
