//! The schema mapper: element tree to program, by tag dispatch.

use vstd::prelude::*;
use crate::ast::{Diagnostic, Expr, Feature, FeatureId, Function, Program};
use crate::document::{copy_node, is_tag, same_node, Node};
use crate::text::{i32_of_text, parse_i32, split_words, words};

verus! {

/// The diagnostic for an element that does not have the expected shape.
pub open spec fn schema_error(n: Node) -> Diagnostic {
    Diagnostic::SchemaError { tag: n.tag, id: n.attr_spec("id"@) }
}

/// The body node that `n` decodes to, or the schema error it raises. One
/// table serves statement and expression positions; `Result_Decl` is known
/// only in expression position.
pub open spec fn decode_spec(n: Node, in_expr: bool) -> Result<Expr, Diagnostic>
    decreases n,
{
    if n.tag@ == "Var_Decl"@ {
        match (n.attr_spec("id"@), n.attr_spec("name"@)) {
            (Some(i), Some(m)) => Ok(Expr::VarDecl { id: i, name: m }),
            _ => Err(schema_error(n)),
        }
    } else if n.tag@ == "Integer_Cst"@ {
        match i32_of_text(n.text@) {
            Some(v) => Ok(Expr::IntegerCst { value: v }),
            None => Err(schema_error(n)),
        }
    } else if n.tag@ == "Modify_Expr"@ {
        if n.children@.len() == 2 {
            let a = decode_spec(n.children@[0], true);
            let b = decode_spec(n.children@[1], true);
            match a {
                Err(e) => Err(e),
                Ok(t) => match b {
                    Err(e) => Err(e),
                    Ok(s) => Ok(Expr::ModifyExpr { target: Box::new(t), source: Box::new(s) }),
                },
            }
        } else {
            Err(schema_error(n))
        }
    } else if n.tag@ == "Return_Stmt"@ {
        if n.children@.len() == 1 {
            match decode_spec(n.children@[0], true) {
                Err(e) => Err(e),
                Ok(o) => Ok(Expr::ReturnStmt { operand: Box::new(o) }),
            }
        } else {
            Err(schema_error(n))
        }
    } else if in_expr && n.tag@ == "Result_Decl"@ {
        Ok(Expr::ResultDecl)
    } else {
        Ok(Expr::Unknown { tag: n.tag, payload: n })
    }
}

/// Whether `a` and `b` are the same body node, where the elements kept by
/// unmodelled nodes count as the same when they hold the same element.
pub open spec fn expr_equiv(a: Expr, b: Expr) -> bool
    decreases a,
{
    match (a, b) {
        (Expr::Unknown { tag: t1, payload: p1 }, Expr::Unknown { tag: t2, payload: p2 }) => t1
            == t2 && same_node(p1, p2),
        (
            Expr::ModifyExpr { target: t1, source: s1 },
            Expr::ModifyExpr { target: t2, source: s2 },
        ) => expr_equiv(*t1, *t2) && expr_equiv(*s1, *s2),
        (Expr::ReturnStmt { operand: o1 }, Expr::ReturnStmt { operand: o2 }) => expr_equiv(*o1, *o2),
        _ => a == b,
    }
}

/// `expr_equiv` on decoding outcomes; errors must be equal.
pub open spec fn result_equiv(a: Result<Expr, Diagnostic>, b: Result<Expr, Diagnostic>) -> bool {
    match (a, b) {
        (Ok(x), Ok(y)) => expr_equiv(x, y),
        (Err(x), Err(y)) => x == y,
        _ => false,
    }
}

/// `expr_equiv` on statement sequences, position by position.
pub open spec fn stmts_equiv(a: Seq<Expr>, b: Seq<Expr>) -> bool {
    a.len() == b.len() && forall|i: int| 0 <= i < a.len() ==> expr_equiv(#[trigger] a[i], b[i])
}

/// Decodes one body node; an unmodelled tag becomes `Expr::Unknown`.
pub fn decode_expr(n: &Node, in_expr: bool) -> (r: Result<Expr, Diagnostic>)
    ensures
        result_equiv(r, decode_spec(*n, in_expr)),
    decreases n,
{
    if is_tag(&n.tag, "Var_Decl") {
        match (n.attr("id"), n.attr("name")) {
            (Some(i), Some(m)) => Ok(Expr::VarDecl { id: i, name: m }),
            _ => Err(Diagnostic::SchemaError { tag: n.tag.clone(), id: n.attr("id") }),
        }
    } else if is_tag(&n.tag, "Integer_Cst") {
        match parse_i32(&n.text) {
            Some(v) => Ok(Expr::IntegerCst { value: v }),
            None => Err(Diagnostic::SchemaError { tag: n.tag.clone(), id: n.attr("id") }),
        }
    } else if is_tag(&n.tag, "Modify_Expr") {
        if n.children.len() == 2 {
            let a = decode_expr(&n.children[0], true);
            let b = decode_expr(&n.children[1], true);
            match a {
                Err(e) => Err(e),
                Ok(t) => match b {
                    Err(e) => Err(e),
                    Ok(s) => Ok(Expr::ModifyExpr { target: Box::new(t), source: Box::new(s) }),
                },
            }
        } else {
            Err(Diagnostic::SchemaError { tag: n.tag.clone(), id: n.attr("id") })
        }
    } else if is_tag(&n.tag, "Return_Stmt") {
        if n.children.len() == 1 {
            match decode_expr(&n.children[0], true) {
                Err(e) => Err(e),
                Ok(o) => Ok(Expr::ReturnStmt { operand: Box::new(o) }),
            }
        } else {
            Err(Diagnostic::SchemaError { tag: n.tag.clone(), id: n.attr("id") })
        }
    } else if in_expr && is_tag(&n.tag, "Result_Decl") {
        Ok(Expr::ResultDecl)
    } else {
        Ok(Expr::Unknown { tag: n.tag.clone(), payload: copy_node(n) })
    }
}

/// The statements that decode from `ns`, in order; malformed ones are left out.
pub open spec fn decode_stmts(ns: Seq<Node>) -> Seq<Expr>
    decreases ns.len(),
{
    if ns.len() == 0 {
        Seq::empty()
    } else {
        match decode_spec(ns.last(), false) {
            Ok(e) => decode_stmts(ns.drop_last()).push(e),
            Err(_) => decode_stmts(ns.drop_last()),
        }
    }
}

/// The schema errors raised by the statements of `ns`, in order.
pub open spec fn stmt_errors(ns: Seq<Node>) -> Seq<Diagnostic>
    decreases ns.len(),
{
    if ns.len() == 0 {
        Seq::empty()
    } else {
        match decode_spec(ns.last(), false) {
            Ok(_) => stmt_errors(ns.drop_last()),
            Err(d) => stmt_errors(ns.drop_last()).push(d),
        }
    }
}

/// Decodes a statement list: every well-formed statement in document order,
/// and one diagnostic for each malformed one.
pub fn decode_statements(list: &Node) -> (r: (Vec<Expr>, Vec<Diagnostic>))
    ensures
        stmts_equiv(r.0@, decode_stmts(list.children@)),
        r.1@ == stmt_errors(list.children@),
{
    let mut out: Vec<Expr> = Vec::new();
    let mut errs: Vec<Diagnostic> = Vec::new();
    let mut i: usize = 0;
    while i < list.children.len()
        invariant
            0 <= i <= list.children@.len(),
            stmts_equiv(out@, decode_stmts(list.children@.subrange(0, i as int))),
            errs@ == stmt_errors(list.children@.subrange(0, i as int)),
        decreases list.children@.len() - i,
    {
        let ghost pre = list.children@.subrange(0, i as int);
        let ghost next = list.children@.subrange(0, i + 1);
        assert(next.drop_last() =~= pre);
        assert(next.last() == list.children@[i as int]);
        match decode_expr(&list.children[i], false) {
            Ok(e) => out.push(e),
            Err(d) => errs.push(d),
        }
        i += 1;
    }
    assert(list.children@.subrange(0, i as int) =~= list.children@);
    (out, errs)
}

/// The text of an optional attribute, empty where it is absent.
pub open spec fn attr_text(n: Node, key: Seq<char>) -> Seq<char> {
    match n.attr_spec(key) {
        Some(s) => s@,
        None => Seq::empty(),
    }
}

fn attr_or_empty(n: &Node, key: &str) -> (r: String)
    ensures
        r@ == attr_text(*n, key@),
{
    match n.attr(key) {
        Some(s) => s,
        None => String::new(),
    }
}

/// Whether `t` names one of the modelled feature kinds.
pub open spec fn known_kind(t: Seq<char>) -> bool {
    t == "Namespace"@ || t == "Function"@ || t == "FundamentalType"@ || t == "Variable"@
        || t == "File"@
}

/// The statement list of a function element with a body payload: the
/// element's first child is a `Dump`, whose first child is a `Body`, whose
/// first child is a `Statement_List`.
pub open spec fn body_list(n: Node) -> Option<Node> {
    if n.children@.len() > 0 && n.children@[0].tag@ == "Dump"@ && n.children@[0].children@.len() > 0
        && n.children@[0].children@[0].tag@ == "Body"@
        && n.children@[0].children@[0].children@.len() > 0
        && n.children@[0].children@[0].children@[0].tag@ == "Statement_List"@ {
        Some(n.children@[0].children@[0].children@[0])
    } else {
        None
    }
}

/// The identity an element carries, where it has both `id` and `name`.
pub open spec fn ident_spec(n: Node) -> Option<FeatureId> {
    match (n.attr_spec("id"@), n.attr_spec("name"@)) {
        (Some(i), Some(m)) => Some(FeatureId { id: i, name: m }),
        _ => None,
    }
}

/// Whether the element `n` yields a feature. A modelled kind needs an `id`
/// and a `name`; a function with a body payload needs a statement list in
/// it. Any other tag yields an unmodelled feature.
pub open spec fn feature_ok(n: Node) -> bool {
    if !known_kind(n.tag@) {
        true
    } else if ident_spec(n) is None {
        false
    } else if n.tag@ == "Function"@ {
        n.children@.len() == 0 || body_list(n) is Some
    } else {
        true
    }
}

/// Whether `f` is the feature that the element `n` yields.
pub open spec fn feature_from(f: Feature, n: Node) -> bool {
    match f {
        Feature::Namespace { ident, members, mangled, demangled } => n.tag@ == "Namespace"@
            && ident_spec(n) == Some(ident)
            && members@.map_values(|w: String| w@) == words(attr_text(n, "members"@))
            && mangled@ == attr_text(n, "mangled"@) && demangled@ == attr_text(n, "demangled"@),
        Feature::Function(g) => n.tag@ == "Function"@ && ident_spec(n) == Some(g.ident)
            && g.returns@ == attr_text(n, "returns"@) && g.context@ == attr_text(n, "context"@)
            && g.location@ == attr_text(n, "location"@) && g.file@ == attr_text(n, "file"@)
            && g.line@ == attr_text(n, "line"@) && g.endline@ == attr_text(n, "endline"@)
            && match g.body {
                None => n.children@.len() == 0,
                Some(b) => n.children@.len() > 0 && stmts_equiv(b@, decode_stmts(body_list(n)->0.children@)),
            },
        Feature::FundamentalType { ident } => n.tag@ == "FundamentalType"@ && ident_spec(n)
            == Some(ident),
        Feature::Variable { ident } => n.tag@ == "Variable"@ && ident_spec(n) == Some(ident),
        Feature::File { ident } => n.tag@ == "File"@ && ident_spec(n) == Some(ident),
        Feature::Unknown { tag, id, name, payload } => !known_kind(n.tag@) && tag == n.tag && id
            == n.attr_spec("id"@) && name == n.attr_spec("name"@) && same_node(payload, n),
    }
}

/// The diagnostics that the element `n` raises while it is mapped.
pub open spec fn feature_diags(n: Node) -> Seq<Diagnostic> {
    if !feature_ok(n) {
        seq![schema_error(n)]
    } else if n.tag@ == "Function"@ && n.children@.len() > 0 {
        stmt_errors(body_list(n)->0.children@)
    } else {
        Seq::empty()
    }
}

/// Maps one top-level element to a feature, dispatching on its tag.
pub fn parse_feature(n: &Node) -> (r: (Option<Feature>, Vec<Diagnostic>))
    ensures
        r.0 is Some <==> feature_ok(*n),
        r.0 matches Some(f) ==> feature_from(f, *n),
        r.1@ == feature_diags(*n),
{
    proof {
        reveal_strlit("Namespace");
        reveal_strlit("Function");
        reveal_strlit("FundamentalType");
        reveal_strlit("Variable");
        reveal_strlit("File");
        assert("Variable"@[0] != "Function"@[0]);
        assert("FundamentalType"@[3] != "Function"@[3]);
        assert("File"@[1] != "Function"@[1]);
        assert("Namespace"@ != "Function"@);
        assert("FundamentalType"@ != "Function"@);
        assert("Variable"@ != "Function"@);
        assert("File"@ != "Function"@);
    }
    let is_ns = is_tag(&n.tag, "Namespace");
    let is_fn = is_tag(&n.tag, "Function");
    let is_ft = is_tag(&n.tag, "FundamentalType");
    let is_var = is_tag(&n.tag, "Variable");
    let is_file = is_tag(&n.tag, "File");
    if !(is_ns || is_fn || is_ft || is_var || is_file) {
        let f = Feature::Unknown {
            tag: n.tag.clone(),
            id: n.attr("id"),
            name: n.attr("name"),
            payload: copy_node(n),
        };
        return (Some(f), Vec::new());
    }
    let ident = match (n.attr("id"), n.attr("name")) {
        (Some(i), Some(m)) => FeatureId { id: i, name: m },
        _ => {
            let mut errs: Vec<Diagnostic> = Vec::new();
            errs.push(Diagnostic::SchemaError { tag: n.tag.clone(), id: n.attr("id") });
            return (None, errs);
        },
    };
    if is_ns {
        let f = Feature::Namespace {
            ident,
            members: split_words(&attr_or_empty(n, "members")),
            mangled: attr_or_empty(n, "mangled"),
            demangled: attr_or_empty(n, "demangled"),
        };
        (Some(f), Vec::new())
    } else if is_ft {
        (Some(Feature::FundamentalType { ident }), Vec::new())
    } else if is_var {
        (Some(Feature::Variable { ident }), Vec::new())
    } else if is_file {
        (Some(Feature::File { ident }), Vec::new())
    } else {
        let (body, errs) = if n.children.len() == 0 {
            (None, Vec::new())
        } else if is_tag(&n.children[0].tag, "Dump") && n.children[0].children.len() > 0
            && is_tag(&n.children[0].children[0].tag, "Body")
            && n.children[0].children[0].children.len() > 0
            && is_tag(&n.children[0].children[0].children[0].tag, "Statement_List") {
            let (stmts, errs) = decode_statements(&n.children[0].children[0].children[0]);
            (Some(stmts), errs)
        } else {
            let mut errs: Vec<Diagnostic> = Vec::new();
            errs.push(Diagnostic::SchemaError { tag: n.tag.clone(), id: n.attr("id") });
            return (None, errs);
        };
        let g = Function {
            ident,
            returns: attr_or_empty(n, "returns"),
            context: attr_or_empty(n, "context"),
            location: attr_or_empty(n, "location"),
            file: attr_or_empty(n, "file"),
            line: attr_or_empty(n, "line"),
            endline: attr_or_empty(n, "endline"),
            body,
        };
        (Some(Feature::Function(g)), errs)
    }
}

/// The top-level elements of `ns` that yield a feature, in order.
pub open spec fn accepted(ns: Seq<Node>) -> Seq<Node>
    decreases ns.len(),
{
    if ns.len() == 0 {
        Seq::empty()
    } else if feature_ok(ns.last()) {
        accepted(ns.drop_last()).push(ns.last())
    } else {
        accepted(ns.drop_last())
    }
}

/// The diagnostics that mapping the elements of `ns` raises, in order.
pub open spec fn program_diags(ns: Seq<Node>) -> Seq<Diagnostic>
    decreases ns.len(),
{
    if ns.len() == 0 {
        Seq::empty()
    } else {
        program_diags(ns.drop_last()) + feature_diags(ns.last())
    }
}

/// Maps a whole document: one feature for each top-level element that yields
/// one, in document order, and every diagnostic raised on the way. A
/// malformed element costs only its own feature.
pub fn parse_program(doc: &Node) -> (r: (Program, Vec<Diagnostic>))
    ensures
        r.0.revision@ == attr_text(*doc, "cvs_revision"@),
        r.0.features@.len() == accepted(doc.children@).len(),
        forall|j: int|
            0 <= j < r.0.features@.len() ==> feature_from(
                #[trigger] r.0.features@[j],
                accepted(doc.children@)[j],
            ),
        r.1@ == program_diags(doc.children@),
{
    let mut features: Vec<Feature> = Vec::new();
    let mut diags: Vec<Diagnostic> = Vec::new();
    let mut i: usize = 0;
    while i < doc.children.len()
        invariant
            0 <= i <= doc.children@.len(),
            features@.len() == accepted(doc.children@.subrange(0, i as int)).len(),
            forall|j: int|
                0 <= j < features@.len() ==> feature_from(
                    #[trigger] features@[j],
                    accepted(doc.children@.subrange(0, i as int))[j],
                ),
            diags@ == program_diags(doc.children@.subrange(0, i as int)),
        decreases doc.children@.len() - i,
    {
        let ghost pre = doc.children@.subrange(0, i as int);
        let ghost next = doc.children@.subrange(0, i + 1);
        assert(next.drop_last() =~= pre);
        assert(next.last() == doc.children@[i as int]);
        let (f, mut errs) = parse_feature(&doc.children[i]);
        match f {
            Some(f) => features.push(f),
            None => {},
        }
        diags.append(&mut errs);
        i += 1;
    }
    assert(doc.children@.subrange(0, i as int) =~= doc.children@);
    (Program { revision: attr_or_empty(doc, "cvs_revision"), features }, diags)
}

} // verus!
