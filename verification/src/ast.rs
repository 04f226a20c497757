//! The source-language abstract syntax tree consumed by the transpiler.
//!
//! Only the handful of node kinds that the transpiler understands are
//! distinguished; every other construct is carried as an `Other` variant,
//! which the printer renders as nothing and the declaration walkers reject
//! or skip as each component's contract states.

use vstd::prelude::*;

verus! {

/// A type annotation as it appears in a declaration.
#[derive(Debug)]
pub enum TypeExpr {
    /// A simple identifier reference, e.g. a user-defined type name.
    Ident(String),
    /// A primitive type spelling, e.g. `uint256`, `bytes4`, `bool`.
    Primitive(String),
    /// Any other type expression (composite, array, mapping, ...).
    Other,
}

/// An expression tree; unrecognized kinds collapse to `Other`.
#[derive(Debug)]
pub enum Expr {
    /// A bare identifier.
    Variable(String),
    /// A call: callee expression and arguments in order.
    FunctionCall(Box<Expr>, Vec<Expr>),
    /// `object.member`.
    MemberAccess(Box<Expr>, String),
    /// A number literal, carried as its decimal text.
    NumberLiteral(String),
    /// Any other expression kind.
    Other,
}

/// A statement tree; unrecognized kinds collapse to `Other`.
#[derive(Debug)]
pub enum Stmt {
    /// A braced block of statements.
    Block(Vec<Stmt>),
    /// An expression statement.
    Expression(Expr),
    /// Any other statement kind.
    Other,
}

/// An attribute on a variable declaration.
#[derive(Debug)]
pub enum VariableAttribute {
    /// A visibility modifier, carried as its spelling.
    Visibility(String),
    /// Any other attribute.
    Other,
}

/// An attribute on a function declaration.
#[derive(Debug)]
pub enum FunctionAttribute {
    /// A visibility modifier, carried as its spelling.
    Visibility(String),
    /// Any other attribute.
    Other,
}

/// A variable declaration inside a contract.
#[derive(Debug)]
pub struct VariableDefinition {
    /// The declared name; its absence is a malformed-input error.
    pub name: Option<String>,
    /// The declared type.
    pub ty: TypeExpr,
    /// The declaration's attributes, in source order.
    pub attrs: Vec<VariableAttribute>,
}

/// One parameter or return binding: a type and an optional name.
#[derive(Debug)]
pub struct Param {
    /// The binding's type.
    pub ty: TypeExpr,
    /// The binding's name, where the source gives one.
    pub name: Option<String>,
}

/// A function declaration inside a contract.
#[derive(Debug)]
pub struct FunctionDefinition {
    /// The function's name; its absence is a malformed-input error.
    pub name: Option<String>,
    /// The parameter list, in source order.
    pub params: Vec<Param>,
    /// The return list, in source order.
    pub returns: Vec<Param>,
    /// The function's attributes, in source order.
    pub attributes: Vec<FunctionAttribute>,
    /// The body, where the source gives one.
    pub body: Option<Stmt>,
}

/// One item of a contract body.
#[derive(Debug)]
pub enum ContractPart {
    /// A state-variable or local-variable declaration.
    VariableDefinition(VariableDefinition),
    /// A function declaration.
    FunctionDefinition(FunctionDefinition),
    /// Any other contract item (ignored).
    Other,
}

/// A contract definition: a name and its body items.
#[derive(Debug)]
pub struct ContractDefinition {
    /// The contract's name, where the source gives one.
    pub name: Option<String>,
    /// The contract's body items, in source order.
    pub parts: Vec<ContractPart>,
}

/// One top-level item of a source file.
#[derive(Debug)]
pub enum SourceUnitPart {
    /// A contract definition.
    ContractDefinition(ContractDefinition),
    /// Any other top-level item (ignored).
    Other,
}

/// The root of a parsed source file.
#[derive(Debug)]
pub struct SourceUnit {
    /// The top-level items, in source order.
    pub parts: Vec<SourceUnitPart>,
}

/// The optional project configuration.
#[derive(Debug)]
pub struct ProjectConfig {
    /// The language version used for the pragma line when no source comment
    /// names one.
    pub default_language_version: String,
}

/// Why a transpilation cannot proceed.
#[derive(Debug, PartialEq, Eq, Structural, Clone, Copy)]
pub enum TranspileError {
    /// A required AST field is absent: an unnamed variable, function, or
    /// parameter.
    MalformedInput,
    /// A recognized but unimplemented syntactic form in declaration
    /// position: a non-identifier variable type, a non-primitive parameter
    /// or return type, or an unnamed return binding.
    UnsupportedConstruct,
    /// A primitive type spelling the type mapper does not recognize.
    UnmappableType,
}

impl TranspileError {
    /// A short description of the error.
    pub fn describe(&self) -> (r: String)
        ensures
            r@ == match *self {
                TranspileError::MalformedInput => "malformed input"@,
                TranspileError::UnsupportedConstruct => "unsupported construct"@,
                TranspileError::UnmappableType => "unmappable type"@,
            },
    {
        match self {
            TranspileError::MalformedInput => String::from_str("malformed input"),
            TranspileError::UnsupportedConstruct => String::from_str("unsupported construct"),
            TranspileError::UnmappableType => String::from_str("unmappable type"),
        }
    }
}

} // verus!
