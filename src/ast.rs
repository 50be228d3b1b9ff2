//! The in-memory program: features, function bodies and diagnostics.

use vstd::prelude::*;
use crate::document::Node;

verus! {

/// The identity every feature carries: a document-unique `id` and a
/// human-readable `name`.
#[derive(Debug)]
pub struct FeatureId {
    pub id: String,
    pub name: String,
}

/// A node of a function body. Statements and expressions share one set of
/// node kinds, so one type serves both positions.
#[derive(Debug)]
pub enum Expr {
    VarDecl { id: String, name: String },
    IntegerCst { value: i32 },
    /// An assignment: `target` receives `source`.
    ModifyExpr { target: Box<Expr>, source: Box<Expr> },
    ReturnStmt { operand: Box<Expr> },
    /// The implicit slot that holds a function's return value.
    ResultDecl,
    /// A node kind this translator does not model, kept by its tag and
    /// with its whole element as it stood in the document.
    Unknown { tag: String, payload: Node },
}

/// A function: its identity, its references and, for a definition, the
/// statements of its body in execution order.
#[derive(Debug)]
pub struct Function {
    pub ident: FeatureId,
    pub returns: String,
    pub context: String,
    pub location: String,
    pub file: String,
    pub line: String,
    pub endline: String,
    pub body: Option<Vec<Expr>>,
}

/// A top-level declared entity of the document.
#[derive(Debug)]
pub enum Feature {
    /// `members` lists the identifiers of the namespace's members.
    Namespace { ident: FeatureId, members: Vec<String>, mangled: String, demangled: String },
    Function(Function),
    FundamentalType { ident: FeatureId },
    Variable { ident: FeatureId },
    File { ident: FeatureId },
    /// An element whose tag is outside the modelled set, with whatever
    /// identity it carried and its whole element as it stood in the document.
    Unknown { tag: String, id: Option<String>, name: Option<String>, payload: Node },
}

/// The parsed document: its revision tag and its features in document order.
#[derive(Debug)]
pub struct Program {
    pub revision: String,
    pub features: Vec<Feature>,
}

/// What a stage reports about the document.
#[derive(Debug)]
pub enum Diagnostic {
    /// An element does not have the expected shape; `id` is the identifier it
    /// carried, if any.
    SchemaError { tag: String, id: Option<String> },
    /// The features at positions `first` and `second` share `id`.
    DuplicateIdentifier { id: String, first: usize, second: usize },
    /// The feature with identifier `referrer` refers to `id`, which no
    /// feature carries.
    UnresolvedReference { referrer: String, id: String },
    /// The function `function` holds a node of kind `tag`, emitted as a
    /// placeholder.
    UnsupportedConstruct { function: String, tag: String },
}

/// The identifier under which a feature is registered, if it has one.
pub open spec fn key_of(f: Feature) -> Option<Seq<char>> {
    match f {
        Feature::Namespace { ident, .. } => Some(ident.id@),
        Feature::Function(g) => Some(g.ident.id@),
        Feature::FundamentalType { ident } => Some(ident.id@),
        Feature::Variable { ident } => Some(ident.id@),
        Feature::File { ident } => Some(ident.id@),
        Feature::Unknown { id, .. } => match id {
            Some(s) => Some(s@),
            None => None,
        },
    }
}

/// The name a feature is shown by, if it has one.
pub open spec fn name_of(f: Feature) -> Option<Seq<char>> {
    match f {
        Feature::Namespace { ident, .. } => Some(ident.name@),
        Feature::Function(g) => Some(g.ident.name@),
        Feature::FundamentalType { ident } => Some(ident.name@),
        Feature::Variable { ident } => Some(ident.name@),
        Feature::File { ident } => Some(ident.name@),
        Feature::Unknown { name, .. } => match name {
            Some(s) => Some(s@),
            None => None,
        },
    }
}

impl Feature {
    /// The feature's identifier; an unmodelled element may have none.
    pub fn get_id(&self) -> (r: Option<&String>)
        ensures
            match r {
                Some(s) => key_of(*self) == Some(s@),
                None => key_of(*self) is None,
            },
    {
        match self {
            Feature::Namespace { ident, .. } => Some(&ident.id),
            Feature::Function(g) => Some(&g.ident.id),
            Feature::FundamentalType { ident } => Some(&ident.id),
            Feature::Variable { ident } => Some(&ident.id),
            Feature::File { ident } => Some(&ident.id),
            Feature::Unknown { id, .. } => match id {
                Some(s) => Some(s),
                None => None,
            },
        }
    }

    /// The feature's name; an unmodelled element may have none.
    pub fn get_name(&self) -> (r: Option<&String>)
        ensures
            match r {
                Some(s) => name_of(*self) == Some(s@),
                None => name_of(*self) is None,
            },
    {
        match self {
            Feature::Namespace { ident, .. } => Some(&ident.name),
            Feature::Function(g) => Some(&g.ident.name),
            Feature::FundamentalType { ident } => Some(&ident.name),
            Feature::Variable { ident } => Some(&ident.name),
            Feature::File { ident } => Some(&ident.name),
            Feature::Unknown { name, .. } => match name {
                Some(s) => Some(s),
                None => None,
            },
        }
    }
}

} // verus!
