//! The code emitter: a function and its body as Rust-like source lines.

use vstd::prelude::*;
use vstd::string::*;
use crate::ast::{key_of, Diagnostic, Expr, Feature, Function};
use crate::registry::{has_key, keys_unique, Registry};
use crate::text::{decimal, decimal_text};

verus! {

/// The marked stub that stands for a node kind that is not modelled.
pub open spec fn placeholder(tag: Seq<char>) -> Seq<char> {
    "/* unsupported: "@ + tag + " */"@
}

/// The text of a node in expression position.
pub open spec fn expr_text(e: Expr) -> Seq<char>
    decreases e,
{
    match e {
        Expr::VarDecl { name, .. } => name@,
        Expr::IntegerCst { value } => decimal_text(value as int),
        Expr::ModifyExpr { target, source } => expr_text(*target) + " = "@ + expr_text(*source),
        Expr::ReturnStmt { operand } => "return "@ + expr_text(*operand),
        Expr::ResultDecl => "result"@,
        Expr::Unknown { tag, .. } => placeholder(tag@),
    }
}

/// The text of a node in statement position.
pub open spec fn stmt_text(e: Expr) -> Seq<char> {
    match e {
        Expr::VarDecl { name, .. } => "let mut "@ + name@,
        _ => expr_text(e),
    }
}

/// One line of a function body.
pub open spec fn body_line(e: Expr) -> Seq<char> {
    "    "@ + stmt_text(e)
}

/// The lines of a body: one for each statement, in body order.
pub open spec fn body_lines(b: Seq<Expr>) -> Seq<Seq<char>> {
    b.map_values(|e: Expr| body_line(e))
}

/// One unsupported-construct diagnostic for each unmodelled node in `e`,
/// in document order.
pub open spec fn unknown_diags(f: String, e: Expr) -> Seq<Diagnostic>
    decreases e,
{
    match e {
        Expr::ModifyExpr { target, source } => unknown_diags(f, *target) + unknown_diags(f, *source),
        Expr::ReturnStmt { operand } => unknown_diags(f, *operand),
        Expr::Unknown { tag, .. } => seq![Diagnostic::UnsupportedConstruct { function: f, tag }],
        _ => Seq::empty(),
    }
}

/// The unsupported-construct diagnostics of a body, in body order.
pub open spec fn body_diags(f: String, b: Seq<Expr>) -> Seq<Diagnostic>
    decreases b.len(),
{
    if b.len() == 0 {
        Seq::empty()
    } else {
        body_diags(f, b.drop_last()) + unknown_diags(f, b.last())
    }
}

/// The name a resolved type is shown by: a fundamental type's name, an
/// unmodelled element's name where it has one, and nothing for the other
/// kinds.
pub open spec fn display_name(f: Feature) -> Seq<char> {
    match f {
        Feature::FundamentalType { ident } => ident.name@,
        Feature::Unknown { name: Some(n), .. } => n@,
        _ => Seq::empty(),
    }
}

/// The position of the feature that carries `k`.
pub open spec fn position_of(fs: Seq<Feature>, k: Seq<char>) -> int {
    choose|i: int| 0 <= i < fs.len() && #[trigger] key_of(fs[i]) == Some(k)
}

/// The shown return type of `g`: none where `g` names none, the name of the
/// feature it names, or an unresolved reference.
pub open spec fn return_type(g: Function, fs: Seq<Feature>) -> Result<Option<Seq<char>>, Diagnostic> {
    if g.returns@.len() == 0 {
        Ok(None)
    } else if has_key(fs, g.returns@) {
        Ok(Some(display_name(fs[position_of(fs, g.returns@)])))
    } else {
        Err(Diagnostic::UnresolvedReference { referrer: g.ident.id, id: g.returns })
    }
}

/// A function signature.
pub open spec fn header(name: Seq<char>, ret: Option<Seq<char>>) -> Seq<char> {
    match ret {
        Some(t) => "fn "@ + name + "()"@ + " -> "@ + t,
        None => "fn "@ + name + "()"@,
    }
}

/// The lines emitted for `g`: the signature closed by `;` for a declaration,
/// else the signature, an opening brace, one line per statement in body
/// order, and the closing brace.
pub open spec fn function_lines(g: Function, ret: Option<Seq<char>>) -> Seq<Seq<char>> {
    match g.body {
        None => seq![header(g.ident.name@, ret) + ";"@],
        Some(b) => seq![header(g.ident.name@, ret), "{"@] + body_lines(b@) + seq!["}"@],
    }
}

/// The diagnostics raised while `g` is emitted.
pub open spec fn function_diags(g: Function) -> Seq<Diagnostic> {
    match g.body {
        None => Seq::empty(),
        Some(b) => body_diags(g.ident.id, b@),
    }
}

/// The text of a list of strings.
pub open spec fn texts(v: Seq<String>) -> Seq<Seq<char>> {
    v.map_values(|s: String| s@)
}

/// The output of one function: its lines and its non-fatal diagnostics.
pub struct Emitted {
    pub lines: Vec<String>,
    pub diagnostics: Vec<Diagnostic>,
}

/// Renders a node in expression position.
pub fn dump_expr(e: &Expr) -> (r: String)
    ensures
        r@ == expr_text(*e),
    decreases e,
{
    match e {
        Expr::VarDecl { name, .. } => name.clone(),
        Expr::IntegerCst { value } => decimal(*value),
        Expr::ModifyExpr { target, source } => {
            let t: &Expr = target;
            let s: &Expr = source;
            let mut out = dump_expr(t);
            out.append(" = ");
            let rhs = dump_expr(s);
            out.append(rhs.as_str());
            out
        },
        Expr::ReturnStmt { operand } => {
            let o: &Expr = operand;
            let mut out = String::from_str("return ");
            let v = dump_expr(o);
            out.append(v.as_str());
            out
        },
        Expr::ResultDecl => String::from_str("result"),
        Expr::Unknown { tag, .. } => {
            let mut out = String::from_str("/* unsupported: ");
            out.append(tag.as_str());
            out.append(" */");
            out
        },
    }
}

/// Renders a node in statement position.
pub fn dump_statement(s: &Expr) -> (r: String)
    ensures
        r@ == stmt_text(*s),
{
    match s {
        Expr::VarDecl { name, .. } => {
            let mut out = String::from_str("let mut ");
            out.append(name.as_str());
            out
        },
        _ => dump_expr(s),
    }
}

/// The name a type feature is shown by.
pub fn dump_type(cf: &Feature) -> (r: String)
    ensures
        r@ == display_name(*cf),
{
    match cf {
        Feature::FundamentalType { ident } => ident.name.clone(),
        Feature::Unknown { name: Some(n), .. } => n.clone(),
        _ => String::new(),
    }
}

fn collect_unsupported(f: &String, e: &Expr, out: &mut Vec<Diagnostic>)
    ensures
        final(out)@ == old(out)@ + unknown_diags(*f, *e),
    decreases e,
{
    match e {
        Expr::ModifyExpr { target, source } => {
            let t: &Expr = target;
            let s: &Expr = source;
            collect_unsupported(f, t, out);
            collect_unsupported(f, s, out);
            assert(out@ =~= old(out)@ + unknown_diags(*f, *e));
        },
        Expr::ReturnStmt { operand } => {
            let o: &Expr = operand;
            collect_unsupported(f, o, out);
        },
        Expr::Unknown { tag, .. } => {
            out.push(Diagnostic::UnsupportedConstruct { function: f.clone(), tag: tag.clone() });
        },
        _ => {
            assert(out@ =~= old(out)@ + unknown_diags(*f, *e));
        },
    }
}

/// Emits one function. The return type is resolved through `reg`; where it
/// does not resolve, the function fails alone with an unresolved reference.
/// A declaration yields its signature only; a definition yields one line per
/// statement, in body order, and a diagnostic for each unmodelled node.
pub fn dump_function(g: &Function, features: &Vec<Feature>, reg: &Registry) -> (r: Result<
    Emitted,
    Diagnostic,
>)
    requires
        reg.wf(),
        reg.indexes(features@),
        keys_unique(features@),
    ensures
        r is Ok <==> return_type(*g, features@) is Ok,
        r matches Err(d) ==> return_type(*g, features@) == Err::<Option<Seq<char>>, Diagnostic>(d),
        r matches Ok(e) ==> texts(e.lines@) == function_lines(*g, return_type(*g, features@)->Ok_0)
            && e.diagnostics@ == function_diags(*g),
{
    let ghost fs = features@;
    let mut head = String::from_str("fn ");
    head.append(g.ident.name.as_str());
    head.append("()");
    if g.returns.as_str().unicode_len() != 0 {
        match reg.resolve(&g.returns) {
            None => {
                return Err(
                    Diagnostic::UnresolvedReference { referrer: g.ident.id.clone(), id: g.returns.clone() },
                );
            },
            Some(p) => {
                proof {
                    let c = position_of(fs, g.returns@);
                    assert(key_of(fs[p as int]) == Some(g.returns@));
                    assert(has_key(fs, g.returns@));
                    if c != p as int {
                        if c < p as int {
                            assert(key_of(fs[c]) != key_of(fs[p as int]));
                        } else {
                            assert(key_of(fs[p as int]) != key_of(fs[c]));
                        }
                    }
                }
                let t = dump_type(&features[p]);
                head.append(" -> ");
                head.append(t.as_str());
            },
        }
    } else {
        proof {
            assert(g.returns@.len() == 0);
        }
    }
    let ghost ret = return_type(*g, fs)->Ok_0;
    let ghost h = header(g.ident.name@, ret);
    assert(head@ =~= h);
    let mut lines: Vec<String> = Vec::new();
    let mut diags: Vec<Diagnostic> = Vec::new();
    match &g.body {
        None => {
            head.append(";");
            lines.push(head);
            assert(texts(lines@) =~= function_lines(*g, ret));
        },
        Some(b) => {
            lines.push(head);
            lines.push(String::from_str("{"));
            let mut i: usize = 0;
            while i < b.len()
                invariant
                    0 <= i <= b@.len(),
                    g.body == Some(*b),
                    texts(lines@) =~= seq![h, "{"@] + body_lines(b@.subrange(0, i as int)),
                    diags@ == body_diags(g.ident.id, b@.subrange(0, i as int)),
                decreases b@.len() - i,
            {
                let ghost pre = b@.subrange(0, i as int);
                let ghost next = b@.subrange(0, i + 1);
                assert(next.drop_last() =~= pre);
                assert(next.last() == b@[i as int]);
                let line_text = dump_statement(&b[i]);
                let mut line = String::from_str("    ");
                line.append(line_text.as_str());
                assert(line@ == body_line(b@[i as int]));
                let ghost before = lines@;
                lines.push(line);
                assert(texts(lines@) =~= texts(before).push(body_line(b@[i as int])));
                collect_unsupported(&g.ident.id, &b[i], &mut diags);
                assert(body_lines(next) =~= body_lines(pre).push(body_line(b@[i as int])));
                i += 1;
            }
            lines.push(String::from_str("}"));
            assert(b@.subrange(0, i as int) =~= b@);
            assert(texts(lines@) =~= function_lines(*g, ret));
        },
    }
    Ok(Emitted { lines, diagnostics: diags })
}

} // verus!
