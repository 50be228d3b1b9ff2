//! Properties of the pipeline, stated over the spec functions of its stages.

use vstd::prelude::*;
use crate::ast::{Diagnostic, Expr, Feature, Function};
use crate::document::Node;
use crate::driver::emit_diags;
use crate::emit::{body_diags, body_line, function_diags, function_lines, header, placeholder, unknown_diags};
use crate::references::{feature_ref_diags, feature_refs, reference_diags, referrer_of, unresolved};
use crate::registry::{has_key, keys_unique};
use crate::schema::{decode_spec, feature_diags, feature_from, feature_ok, ident_spec};

verus! {

proof fn lemma_emit_diags_prefix(fs: Seq<Feature>, n: nat, m: nat)
    requires
        n <= m <= fs.len(),
    ensures
        emit_diags(fs, n).len() <= emit_diags(fs, m).len(),
        forall|k: int| 0 <= k < emit_diags(fs, n).len() ==> #[trigger] emit_diags(fs, m)[k] == emit_diags(fs, n)[k],
    decreases m - n,
{
    if n < m {
        lemma_emit_diags_prefix(fs, n, (m - 1) as nat);
    }
}

/// Every return-type reference of a function in a program with unique
/// identifiers either resolves to a feature, or the run's diagnostics hold an
/// unresolved-reference entry naming that function and that identifier.
pub proof fn lemma_reference_resolves_or_reported(fs: Seq<Feature>, j: int)
    requires
        keys_unique(fs),
        0 <= j < fs.len(),
        fs[j] is Function,
        fs[j]->Function_0.returns@.len() > 0,
    ensures
        ({
            let g = fs[j]->Function_0;
            has_key(fs, g.returns@) || emit_diags(fs, fs.len()).contains(
                Diagnostic::UnresolvedReference { referrer: g.ident.id, id: g.returns },
            )
        }),
{
    let g = fs[j]->Function_0;
    if !has_key(fs, g.returns@) {
        let d = Diagnostic::UnresolvedReference { referrer: g.ident.id, id: g.returns };
        let n = (j + 1) as nat;
        assert(emit_diags(fs, n) == emit_diags(fs, j as nat).push(d));
        let k = emit_diags(fs, n).len() - 1;
        lemma_emit_diags_prefix(fs, n, fs.len());
        assert(emit_diags(fs, fs.len())[k] == d);
    }
}

proof fn lemma_unresolved_contains(fs: Seq<Feature>, referrer: String, refs: Seq<String>, k: int)
    requires
        0 <= k < refs.len(),
        !has_key(fs, refs[k]@),
    ensures
        unresolved(fs, referrer, refs).contains(
            Diagnostic::UnresolvedReference { referrer, id: refs[k] },
        ),
    decreases refs.len(),
{
    let d = Diagnostic::UnresolvedReference { referrer, id: refs[k] };
    let p = unresolved(fs, referrer, refs.drop_last());
    if k == refs.len() - 1 {
        assert(unresolved(fs, referrer, refs) == p.push(d));
        assert(unresolved(fs, referrer, refs)[p.len() as int] == d);
    } else {
        assert(refs.drop_last()[k] == refs[k]);
        lemma_unresolved_contains(fs, referrer, refs.drop_last(), k);
        let t = choose|t: int| 0 <= t < p.len() && p[t] == d;
        assert(unresolved(fs, referrer, refs)[t] == d);
    }
}

proof fn lemma_reference_diags_keep(fs: Seq<Feature>, j: int, n: nat, d: Diagnostic)
    requires
        0 <= j < n <= fs.len(),
        feature_ref_diags(fs, fs[j]).contains(d),
    ensures
        reference_diags(fs, n).contains(d),
    decreases n,
{
    let p = reference_diags(fs, (n - 1) as nat);
    let q = feature_ref_diags(fs, fs[n - 1]);
    assert(reference_diags(fs, n) == p + q);
    if j == n - 1 {
        let t = choose|t: int| 0 <= t < q.len() && q[t] == d;
        assert((p + q)[p.len() + t] == d);
    } else {
        lemma_reference_diags_keep(fs, j, (n - 1) as nat, d);
        let t = choose|t: int| 0 <= t < p.len() && p[t] == d;
        assert((p + q)[t] == d);
    }
}

/// Every reference that a feature makes, other than a return type, either
/// resolves to a feature or is named, with its referrer, by an
/// unresolved-reference entry among the reference check's diagnostics.
pub proof fn lemma_feature_reference_resolves_or_reported(fs: Seq<Feature>, j: int, k: int)
    requires
        0 <= j < fs.len(),
        0 <= k < feature_refs(fs[j]).len(),
    ensures
        has_key(fs, feature_refs(fs[j])[k]@) || reference_diags(fs, fs.len()).contains(
            Diagnostic::UnresolvedReference { referrer: referrer_of(fs[j]), id: feature_refs(fs[j])[k] },
        ),
{
    let refs = feature_refs(fs[j]);
    if !has_key(fs, refs[k]@) {
        lemma_unresolved_contains(fs, referrer_of(fs[j]), refs, k);
        lemma_reference_diags_keep(
            fs,
            j,
            fs.len(),
            Diagnostic::UnresolvedReference { referrer: referrer_of(fs[j]), id: refs[k] },
        );
    }
}

/// Emission keeps body order: after the signature and the opening brace,
/// the line at offset `k` is the rendering of the body's `k`-th statement,
/// and there is one line per statement before the closing brace.
pub proof fn lemma_body_order(g: Function, ret: Option<Seq<char>>, k: int)
    requires
        g.body is Some,
        0 <= k < g.body->0@.len(),
    ensures
        function_lines(g, ret).len() == g.body->0@.len() + 3,
        function_lines(g, ret)[0] == header(g.ident.name@, ret),
        function_lines(g, ret)[1] == "{"@,
        function_lines(g, ret)[k + 2] == body_line(g.body->0@[k]),
        function_lines(g, ret).last() == "}"@,
{
}

/// A function element without a body payload maps, with no diagnostic, to a
/// declaration whose emission is its signature alone and raises nothing.
pub proof fn lemma_declaration_only(n: Node, f: Feature, ret: Option<Seq<char>>)
    requires
        n.tag@ == "Function"@,
        ident_spec(n) is Some,
        n.children@.len() == 0,
        feature_from(f, n),
    ensures
        feature_ok(n),
        feature_diags(n).len() == 0,
        f matches Feature::Function(g) && g.body is None && function_lines(g, ret) == seq![
            header(g.ident.name@, ret) + ";"@,
        ] && function_diags(g).len() == 0,
{
    reveal_strlit("Function");
    reveal_strlit("Namespace");
    reveal_strlit("FundamentalType");
    reveal_strlit("Variable");
    reveal_strlit("File");
    assert("Namespace"@[0] != "Function"@[0]);
    assert("FundamentalType"@[3] != "Function"@[3]);
    assert("Variable"@[0] != "Function"@[0]);
    assert("File"@[1] != "Function"@[1]);
}

/// A statement whose tag is outside the modelled set decodes to an
/// unmodelled node that keeps its tag.
pub proof fn lemma_unrecognized_statement(n: Node)
    requires
        n.tag@ != "Var_Decl"@,
        n.tag@ != "Integer_Cst"@,
        n.tag@ != "Modify_Expr"@,
        n.tag@ != "Return_Stmt"@,
    ensures
        decode_spec(n, false) == Ok::<Expr, Diagnostic>(Expr::Unknown { tag: n.tag, payload: n }),
{
}

proof fn lemma_body_diags_single(f: String, b: Seq<Expr>, k: int, tag: String, n: nat)
    requires
        0 <= k < b.len(),
        n <= b.len(),
        b[k] is Unknown,
        b[k]->Unknown_tag == tag,
        forall|i: int| 0 <= i < b.len() && i != k ==> #[trigger] unknown_diags(f, b[i]).len() == 0,
    ensures
        body_diags(f, b.subrange(0, n as int)) == (if n > k {
            seq![Diagnostic::UnsupportedConstruct { function: f, tag }]
        } else {
            Seq::<Diagnostic>::empty()
        }),
    decreases n,
{
    let s = b.subrange(0, n as int);
    if n > 0 {
        assert(s.drop_last() =~= b.subrange(0, n - 1));
        lemma_body_diags_single(f, b, k, tag, (n - 1) as nat);
        if n - 1 == k {
            assert(unknown_diags(f, s.last()) == seq![Diagnostic::UnsupportedConstruct { function: f, tag }]);
        } else {
            assert(unknown_diags(f, b[n - 1]).len() == 0);
            assert(unknown_diags(f, s.last()) =~= Seq::<Diagnostic>::empty());
        }
        assert(body_diags(f, s) =~= body_diags(f, b.subrange(0, n - 1)) + unknown_diags(f, s.last()));
    } else {
        assert(s.len() == 0);
    }
}

/// An unmodelled statement in an otherwise fully modelled body is emitted as
/// a placeholder that carries its tag, every other statement is emitted as
/// usual, and the function's diagnostics are exactly one unsupported-construct
/// entry for it.
pub proof fn lemma_unknown_statement(g: Function, ret: Option<Seq<char>>, k: int, tag: String)
    requires
        g.body is Some,
        0 <= k < g.body->0@.len(),
        g.body->0@[k] is Unknown,
        g.body->0@[k]->Unknown_tag == tag,
        forall|i: int|
            0 <= i < g.body->0@.len() && i != k ==> #[trigger] unknown_diags(g.ident.id, g.body->0@[i]).len() == 0,
    ensures
        function_lines(g, ret)[k + 2] == "    "@ + placeholder(tag@),
        forall|i: int|
            0 <= i < g.body->0@.len() ==> #[trigger] function_lines(g, ret)[i + 2] == body_line(
                g.body->0@[i],
            ),
        function_diags(g) == seq![Diagnostic::UnsupportedConstruct { function: g.ident.id, tag }],
{
    let b = g.body->0@;
    lemma_body_diags_single(g.ident.id, b, k, tag, b.len());
    assert(b.subrange(0, b.len() as int) =~= b);
}

} // verus!
