//! The whole generation pass, one stage after another: collect the
//! targets, read the method list, resolve every target in order, and
//! assemble the emitted unit.  Every stage fails fast: on the first
//! error the pass aborts and nothing is emitted.

use vstd::prelude::*;

use crate::GenError;
use crate::ast::{ImplBlock, Output, TraitDecl, TypeExpr};
use crate::forward::{build_impl_block, spec_impl_block};
use crate::members::{methods_of, spec_methods_of};
use crate::model::{
    views_of, view_opt, view_result, ForwardPlanView, OutputView, TraitDeclView, TypeExprView,
};
use crate::resolve::{resolve_target, spec_resolve};
use crate::targets::{collect_targets, spec_collect_targets};

verus! {

/// What resolving every target in order yields: the plans, or the
/// first target's error.
pub open spec fn spec_resolve_all(targets: Seq<TypeExprView>, trait_name: Seq<char>) -> Result<
    Seq<ForwardPlanView>,
    GenError,
>
    decreases targets.len(),
{
    if targets.len() == 0 {
        Ok(Seq::empty())
    } else {
        match spec_resolve(targets[0], trait_name) {
            Err(e) => Err(e),
            Ok(p) => match spec_resolve_all(targets.drop_first(), trait_name) {
                Err(e) => Err(e),
                Ok(ps) => Ok(seq![p] + ps),
            },
        }
    }
}

/// Resolving every target succeeds exactly when each one resolves, and
/// then yields each target's own plan, in order.
pub proof fn lemma_resolve_all_ok(targets: Seq<TypeExprView>, trait_name: Seq<char>)
    requires
        forall|j: int| 0 <= j < targets.len() ==> spec_resolve(
            #[trigger] targets[j],
            trait_name,
        ) is Ok,
    ensures
        spec_resolve_all(targets, trait_name) matches Ok(ps) && ps.len() == targets.len()
            && forall|j: int| 0 <= j < targets.len() ==> #[trigger] ps[j] == spec_resolve(
            targets[j],
            trait_name,
        )->Ok_0,
    decreases targets.len(),
{
    if targets.len() > 0 {
        let rest = targets.drop_first();
        assert(forall|j: int| 0 <= j < rest.len() ==> rest[j] == targets[j + 1]);
        lemma_resolve_all_ok(rest, trait_name);
    }
}

/// The first target that fails to resolve decides the whole pass.
pub proof fn lemma_resolve_all_err(targets: Seq<TypeExprView>, trait_name: Seq<char>, k: int)
    requires
        0 <= k < targets.len(),
        forall|j: int| 0 <= j < k ==> spec_resolve(#[trigger] targets[j], trait_name) is Ok,
        spec_resolve(targets[k], trait_name) is Err,
    ensures
        spec_resolve_all(targets, trait_name) == Err::<Seq<ForwardPlanView>, GenError>(
            spec_resolve(targets[k], trait_name)->Err_0,
        ),
    decreases k,
{
    let rest = targets.drop_first();
    assert(forall|j: int| 0 <= j < rest.len() ==> rest[j] == targets[j + 1]);
    if k > 0 {
        lemma_resolve_all_err(rest, trait_name, k - 1);
    }
}

/// What the whole pass yields.
///
/// On success: the declaration with its target annotations stripped
/// and nothing else changed, followed by one implementation block per
/// target, primary first, then the secondaries in declaration order.
/// Otherwise the first error, with the stages ordered: missing or
/// unparseable target argument, then unsupported member, then the
/// targets' own failures in order.
pub open spec fn spec_auto_trait(primary: Option<TypeExprView>, decl: TraitDeclView) -> Result<
    OutputView,
    GenError,
> {
    match spec_collect_targets(primary, decl.attrs) {
        Err(e) => Err(e),
        Ok(tk) => match spec_methods_of(decl.items) {
            Err(e) => Err(e),
            Ok(methods) => match spec_resolve_all(tk.0, decl.name) {
                Err(e) => Err(e),
                Ok(plans) => Ok(
                    OutputView {
                        decl: TraitDeclView {
                            name: decl.name,
                            generics: decl.generics,
                            attrs: tk.1,
                            items: decl.items,
                        },
                        impls: plans.map_values(
                            |p: ForwardPlanView| spec_impl_block(p, decl.name, methods),
                        ),
                    },
                ),
            },
        },
    }
}

/// Runs the whole generation pass on one trait declaration.
pub fn auto_trait(primary: Option<TypeExpr>, decl: TraitDecl) -> (r: Result<Output, GenError>)
    ensures
        view_result(r) == spec_auto_trait(view_opt(primary), decl@),
{
    let ghost dv = decl@;
    let ghost pv = view_opt(primary);
    let TraitDecl { name, generics, attrs, items } = decl;
    let pair = match collect_targets(primary, attrs) {
        Ok(p) => p,
        Err(e) => {
            return Err(e);
        },
    };
    let (targets, kept) = pair;
    let methods = match methods_of(&items) {
        Ok(m) => m,
        Err(e) => {
            return Err(e);
        },
    };
    let ghost tv = views_of(targets@);
    let ghost nv = name@;
    let ghost mv = views_of(methods@);
    let mut blocks: Vec<ImplBlock> = Vec::new();
    for i in 0..targets.len()
        invariant
            pv == view_opt(primary),
            dv == decl@,
            tv == views_of(targets@),
            nv == name@,
            nv == dv.name,
            mv == views_of(methods@),
            tv.len() == targets@.len(),
            spec_collect_targets(pv, dv.attrs) == Ok::<_, GenError>((tv, views_of(kept@))),
            spec_methods_of(dv.items) == Ok::<_, GenError>(mv),
            blocks@.len() == i,
            forall|j: int| 0 <= j < i ==> spec_resolve(#[trigger] tv[j], nv) is Ok,
            forall|j: int| 0 <= j < i ==> #[trigger] views_of(blocks@)[j] == spec_impl_block(
                spec_resolve(tv[j], nv)->Ok_0,
                nv,
                mv,
            ),
    {
        proof {
            assert(tv[i as int] == targets@[i as int]@);
        }
        let t = targets[i].clone();
        let plan = match resolve_target(t, &name) {
            Ok(p) => p,
            Err(e) => {
                proof {
                    lemma_resolve_all_err(tv, nv, i as int);
                }
                return Err(e);
            },
        };
        let block = build_impl_block(&plan, &name, &methods);
        blocks.push(block);
        proof {
            broadcast use vstd::prelude::Seq::lemma_push_map_commute;
        }
    }
    let out = Output {
        decl: TraitDecl { name, generics, attrs: kept, items },
        impls: blocks,
    };
    proof {
        lemma_resolve_all_ok(tv, nv);
        let plans = spec_resolve_all(tv, nv)->Ok_0;
        let sout = spec_auto_trait(pv, dv)->Ok_0;
        assert(out@.impls =~= sout.impls);
        assert(out@.decl == sout.decl);
    }
    Ok(out)
}

} // verus!
