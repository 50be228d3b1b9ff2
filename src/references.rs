//! Resolution of the references that features make to one another, apart
//! from a function's return type, which emission resolves.

use vstd::prelude::*;
use vstd::string::*;
use crate::ast::{Diagnostic, Feature};
use crate::registry::{has_key, Registry};

verus! {

/// `s` as a reference: absent where it is empty.
pub open spec fn present(s: String) -> Seq<String> {
    if s@.len() == 0 {
        Seq::empty()
    } else {
        seq![s]
    }
}

/// One unresolved-reference diagnostic, naming `referrer`, for each of
/// `refs` that no feature of `fs` carries, in order.
pub open spec fn unresolved(fs: Seq<Feature>, referrer: String, refs: Seq<String>) -> Seq<Diagnostic>
    decreases refs.len(),
{
    if refs.len() == 0 {
        Seq::empty()
    } else {
        let p = unresolved(fs, referrer, refs.drop_last());
        if has_key(fs, refs.last()@) {
            p
        } else {
            p.push(Diagnostic::UnresolvedReference { referrer, id: refs.last() })
        }
    }
}

/// The references `f` makes, apart from a return type: a namespace's
/// members, and a function's context and file where they are given.
pub open spec fn feature_refs(f: Feature) -> Seq<String> {
    match f {
        Feature::Namespace { members, .. } => members@,
        Feature::Function(g) => present(g.context) + present(g.file),
        _ => Seq::empty(),
    }
}

/// The identifier that `f`'s unresolved references are reported under.
pub open spec fn referrer_of(f: Feature) -> String {
    match f {
        Feature::Namespace { ident, .. } => ident.id,
        Feature::Function(g) => g.ident.id,
        Feature::FundamentalType { ident } => ident.id,
        Feature::Variable { ident } => ident.id,
        Feature::File { ident } => ident.id,
        Feature::Unknown { tag, .. } => tag,
    }
}

/// The unresolved references of `f`.
pub open spec fn feature_ref_diags(fs: Seq<Feature>, f: Feature) -> Seq<Diagnostic> {
    unresolved(fs, referrer_of(f), feature_refs(f))
}

/// The unresolved references of the first `n` features of `fs`, in order.
pub open spec fn reference_diags(fs: Seq<Feature>, n: nat) -> Seq<Diagnostic>
    decreases n,
{
    if n == 0 || n > fs.len() {
        Seq::empty()
    } else {
        reference_diags(fs, (n - 1) as nat) + feature_ref_diags(fs, fs[n - 1])
    }
}

fn check_refs(
    features: &Vec<Feature>,
    reg: &Registry,
    referrer: &String,
    refs: &Vec<String>,
    out: &mut Vec<Diagnostic>,
)
    requires
        reg.wf(),
        reg.indexes(features@),
    ensures
        final(out)@ == old(out)@ + unresolved(features@, *referrer, refs@),
{
    let ghost start = out@;
    let mut i: usize = 0;
    while i < refs.len()
        invariant
            0 <= i <= refs@.len(),
            reg.wf(),
            reg.indexes(features@),
            out@ == start + unresolved(features@, *referrer, refs@.subrange(0, i as int)),
        decreases refs@.len() - i,
    {
        let ghost pre = refs@.subrange(0, i as int);
        let ghost next = refs@.subrange(0, i + 1);
        assert(next.drop_last() =~= pre);
        assert(next.last() == refs@[i as int]);
        match reg.resolve(&refs[i]) {
            Some(_) => {},
            None => {
                out.push(Diagnostic::UnresolvedReference { referrer: referrer.clone(), id: refs[i].clone() });
            },
        }
        assert(out@ =~= start + unresolved(features@, *referrer, next));
        i += 1;
    }
    assert(refs@.subrange(0, i as int) =~= refs@);
}

/// Resolves every reference the features make, other than return types,
/// and reports each one that does not resolve.
pub fn check_references(features: &Vec<Feature>, reg: &Registry) -> (r: Vec<Diagnostic>)
    requires
        reg.wf(),
        reg.indexes(features@),
    ensures
        r@ == reference_diags(features@, features@.len()),
{
    let mut out: Vec<Diagnostic> = Vec::new();
    let mut i: usize = 0;
    while i < features.len()
        invariant
            0 <= i <= features@.len(),
            reg.wf(),
            reg.indexes(features@),
            out@ == reference_diags(features@, i as nat),
        decreases features@.len() - i,
    {
        let ghost before = out@;
        match &features[i] {
            Feature::Namespace { ident, members, .. } => {
                check_refs(features, reg, &ident.id, members, &mut out);
            },
            Feature::Function(g) => {
                let mut refs: Vec<String> = Vec::new();
                if g.context.as_str().unicode_len() != 0 {
                    refs.push(g.context.clone());
                }
                if g.file.as_str().unicode_len() != 0 {
                    refs.push(g.file.clone());
                }
                assert(refs@ =~= present(g.context) + present(g.file));
                check_refs(features, reg, &g.ident.id, &refs, &mut out);
            },
            _ => {},
        }
        assert(out@ =~= before + feature_ref_diags(features@, features@[i as int]));
        i += 1;
    }
    out
}

} // verus!
