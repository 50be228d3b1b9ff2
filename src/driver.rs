//! The pipeline driver: map, index, then emit every function in order.

use vstd::prelude::*;
use crate::ast::{key_of, Diagnostic, Feature, Program};
use crate::document::Node;
use crate::emit::{dump_function, function_diags, function_lines, return_type, texts};
use crate::references::{check_references, reference_diags};
use crate::registry::{keys_unique, Registry};
use crate::schema::{accepted, attr_text, feature_from, parse_program, program_diags};

verus! {

/// The lines emitted for the first `n` features of `fs`: each function whose
/// return type resolves contributes its lines, in declaration order.
pub open spec fn emit_lines(fs: Seq<Feature>, n: nat) -> Seq<Seq<char>>
    decreases n,
{
    if n == 0 || n > fs.len() {
        Seq::empty()
    } else {
        let prev = emit_lines(fs, (n - 1) as nat);
        match fs[n - 1] {
            Feature::Function(g) => match return_type(g, fs) {
                Ok(t) => prev + function_lines(g, t),
                Err(_) => prev,
            },
            _ => prev,
        }
    }
}

/// The diagnostics that emitting the first `n` features of `fs` raises.
pub open spec fn emit_diags(fs: Seq<Feature>, n: nat) -> Seq<Diagnostic>
    decreases n,
{
    if n == 0 || n > fs.len() {
        Seq::empty()
    } else {
        let prev = emit_diags(fs, (n - 1) as nat);
        match fs[n - 1] {
            Feature::Function(g) => match return_type(g, fs) {
                Ok(_) => prev + function_diags(g),
                Err(d) => prev.push(d),
            },
            _ => prev,
        }
    }
}

/// Whether `p` is the program that the document `doc` maps to.
pub open spec fn program_of(p: Program, doc: Node) -> bool {
    &&& p.revision@ == attr_text(doc, "cvs_revision"@)
    &&& p.features@.len() == accepted(doc.children@).len()
    &&& forall|j: int|
        0 <= j < p.features@.len() ==> feature_from(
            #[trigger] p.features@[j],
            accepted(doc.children@)[j],
        )
}

/// The outcome of one run: the program, the emitted lines, every diagnostic
/// in stage order, and whether a fatal one stopped emission.
pub struct Report {
    pub program: Program,
    pub lines: Vec<String>,
    pub diagnostics: Vec<Diagnostic>,
    pub fatal: bool,
}

/// Runs the whole pipeline over a document: mapping, indexing, reference
/// checking, then emission of every function in declaration order. A
/// duplicate identifier is fatal and stops before the checks; every other
/// problem stays with the element or function it concerns, and the rest is
/// still emitted.
pub fn translate(doc: &Node) -> (r: Report)
    ensures
        program_of(r.program, *doc),
        r.fatal <==> !keys_unique(r.program.features@),
        !r.fatal ==> texts(r.lines@) == emit_lines(r.program.features@, r.program.features@.len())
            && r.diagnostics@ == program_diags(doc.children@) + reference_diags(
            r.program.features@,
            r.program.features@.len(),
        ) + emit_diags(r.program.features@, r.program.features@.len()),
        r.fatal ==> r.lines@.len() == 0 && r.diagnostics@.len() == program_diags(
            doc.children@,
        ).len() + 1 && r.diagnostics@.subrange(0, r.diagnostics@.len() - 1) == program_diags(
            doc.children@,
        ) && (r.diagnostics@.last() matches Diagnostic::DuplicateIdentifier { id, first, second }
            && first < second < r.program.features@.len() && key_of(
            r.program.features@[first as int],
        ) == Some(id@) && key_of(r.program.features@[second as int]) == Some(id@) && keys_unique(
            r.program.features@.subrange(0, second as int),
        )),
{
    let (program, mut diagnostics) = parse_program(doc);
    let ghost start = diagnostics@;
    let mut lines: Vec<String> = Vec::new();
    let reg = match Registry::build(&program.features) {
        Ok(reg) => reg,
        Err(d) => {
            diagnostics.push(d);
            assert(diagnostics@.subrange(0, diagnostics@.len() - 1) =~= start);
            return Report { program, lines, diagnostics, fatal: true };
        },
    };
    let ghost fs = program.features@;
    let mut unresolved = check_references(&program.features, &reg);
    diagnostics.append(&mut unresolved);
    let ghost start = diagnostics@;
    let mut i: usize = 0;
    while i < program.features.len()
        invariant
            0 <= i <= fs.len(),
            fs == program.features@,
            reg.wf(),
            reg.indexes(fs),
            keys_unique(fs),
            texts(lines@) == emit_lines(fs, i as nat),
            diagnostics@ == start + emit_diags(fs, i as nat),
        decreases fs.len() - i,
    {
        match &program.features[i] {
            Feature::Function(g) => {
                match dump_function(g, &program.features, &reg) {
                    Ok(e) => {
                        let ghost before = lines@;
                        let mut ls = e.lines;
                        let mut ds = e.diagnostics;
                        lines.append(&mut ls);
                        diagnostics.append(&mut ds);
                        assert(texts(lines@) =~= texts(before) + texts(e.lines@));
                        assert(diagnostics@ =~= start + emit_diags(fs, (i + 1) as nat));
                    },
                    Err(d) => {
                        diagnostics.push(d);
                        assert(diagnostics@ =~= start + emit_diags(fs, (i + 1) as nat));
                    },
                }
            },
            _ => {},
        }
        i += 1;
    }
    Report { program, lines, diagnostics, fatal: false }
}

} // verus!
