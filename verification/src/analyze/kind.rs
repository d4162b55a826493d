//! The rule implementations a ruleset entry can name.

use vstd::prelude::*;

verus! {

/// Which check a loaded rule runs.
#[derive(Clone, Copy, Debug, PartialEq, Eq, Structural)]
pub enum RuleKind {
    CyclomaticComplexity,
    NPathComplexity,
    ExcessiveMethodLength,
    ExcessiveClassLength,
    ExcessiveParameterList,
    ExcessivePublicCount,
    TooManyFields,
    TooManyMethods,
    TooManyPublicMethods,
    ExcessiveClassComplexity,
    ShortClassName,
    LongClassName,
    ShortVariable,
    LongVariable,
    ShortMethodName,
    ConstantNamingConventions,
    BooleanGetMethodName,
    UnusedPrivateField,
    UnusedLocalVariable,
    UnusedPrivateMethod,
    UnusedFormalParameter,
    BooleanArgumentFlag,
    ElseExpression,
    IfStatementAssignment,
    DuplicatedArrayKey,
    StaticAccess,
    ExitExpression,
    GotoStatement,
    CountInLoopExpression,
    DevelopmentCodeFragment,
    EmptyCatchBlock,
    CouplingBetweenObjects,
    GlobalVariable,
    LackOfCohesionOfMethods,
    CamelCaseClassName,
    CamelCaseMethodName,
    CamelCasePropertyName,
    CamelCaseParameterName,
    CamelCaseVariableName,
}

} // verus!
