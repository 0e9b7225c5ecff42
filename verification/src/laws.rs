//! The laws of the generation pass, each stated over the whole
//! pipeline and proved from the stage contracts.

use vstd::prelude::*;

use crate::GenError;
use crate::Receiver;
use crate::forward::{spec_forward_call, spec_named_args, spec_recv_args};
use crate::generate::{lemma_resolve_all_err, lemma_resolve_all_ok, spec_auto_trait};
use crate::members::{item_method, spec_methods_of};
use crate::model::{
    ArgListView, ForwardArgView, GenericArgView, ImplBodyView, OutputView, TraitAttrView,
    TraitDeclView, TypeExprView,
};
use crate::resolve::{constraint_ident, spec_hits, spec_resolve, spec_rewrite_args};
use crate::targets::{spec_collect_targets, target_attrs};

verus! {

/// A sequence is unchanged by filtering with a predicate that every
/// element satisfies.
proof fn lemma_filter_keep_all<A>(s: Seq<A>, pred: spec_fn(A) -> bool)
    requires
        forall|i: int| 0 <= i < s.len() ==> pred(#[trigger] s[i]),
    ensures
        s.filter(pred) == s,
    decreases s.len(),
{
    reveal(Seq::filter);
    if s.len() == 0 {
        assert(s.filter(pred) =~= s);
    } else {
        assert(forall|i: int|
            0 <= i < s.drop_last().len() ==> pred(#[trigger] s.drop_last()[i]));
        lemma_filter_keep_all(s.drop_last(), pred);
        assert(s.filter(pred) =~= s);
    }
}

/// Every generated method without a pre-existing body forwards: its
/// body is the call of the resolved forward target's associated
/// function of the method's own name, whose arguments are the
/// projection selected by the receiver kind — read-only dereference
/// for `&self`, mutable dereference for `&mut self`, value conversion
/// for `self`, nothing for a static method — followed by the declared
/// parameters, by identifier, in order.
pub proof fn lemma_forwarding_shape(
    primary: Option<TypeExprView>,
    decl: TraitDeclView,
    out: OutputView,
    k: int,
    i: int,
)
    requires
        spec_auto_trait(primary, decl) == Ok::<OutputView, GenError>(out),
        0 <= k < out.impls.len(),
        0 <= i < decl.items.len(),
        decl.items[i] is Method,
        item_method(decl.items[i]).body is None,
    ensures
        ({
            let tk = spec_collect_targets(primary, decl.attrs)->Ok_0;
            let plan = spec_resolve(tk.0[k], decl.name)->Ok_0;
            let m = item_method(decl.items[i]);
            let call = spec_forward_call(plan.forward_to, m);
            &&& out.impls[k].methods.len() == decl.items.len()
            &&& out.impls[k].methods[i].body == ImplBodyView::Generated(call)
            &&& call.callee == plan.forward_to
            &&& call.method == m.name
            &&& call.args == spec_recv_args(m.receiver) + spec_named_args(m.params)
            &&& (m.receiver == Receiver::Static ==> call.args.len() == m.params.len())
            &&& (m.receiver == Receiver::ByRef ==> call.args[0] == ForwardArgView::Deref)
            &&& (m.receiver == Receiver::ByMutRef ==> call.args[0] == ForwardArgView::DerefMut)
            &&& (m.receiver == Receiver::ByValue ==> call.args[0] == ForwardArgView::Convert)
            &&& forall|q: int| 0 <= q < m.params.len()
                ==> call.args[spec_recv_args(m.receiver).len() + q]
                    == ForwardArgView::Named(#[trigger] m.params[q].name)
        }),
{
    lemma_resolve_all_ok_from_output(primary, decl, out);
}

/// A method that already declares a body keeps it: every
/// implementation block reproduces that body unchanged.
pub proof fn lemma_body_preservation(
    primary: Option<TypeExprView>,
    decl: TraitDeclView,
    out: OutputView,
    k: int,
    i: int,
)
    requires
        spec_auto_trait(primary, decl) == Ok::<OutputView, GenError>(out),
        0 <= k < out.impls.len(),
        0 <= i < decl.items.len(),
        decl.items[i] is Method,
        item_method(decl.items[i]).body is Some,
    ensures
        out.impls[k].methods.len() == decl.items.len(),
        out.impls[k].methods[i].body == ImplBodyView::Kept(item_method(decl.items[i]).body->0),
{
    lemma_resolve_all_ok_from_output(primary, decl, out);
}

/// A target with two or more generic arguments bound to the trait
/// under generation is rejected as ambiguous, and nothing is emitted,
/// provided no earlier stage fails first.
pub proof fn lemma_ambiguity_rejection(
    primary: Option<TypeExprView>,
    decl: TraitDeclView,
    k: int,
)
    requires
        ({
            let ct = spec_collect_targets(primary, decl.attrs);
            &&& ct matches Ok(tk)
            &&& spec_methods_of(decl.items) is Ok
            &&& 0 <= k < tk.0.len()
            &&& forall|j: int| 0 <= j < k ==> spec_resolve(#[trigger] tk.0[j], decl.name) is Ok
            &&& tk.0[k] matches TypeExprView::Path(p)
            &&& p.args matches ArgListView::Angle(args)
            &&& spec_hits(args, decl.name).len() >= 2
        }),
    ensures
        spec_auto_trait(primary, decl) == Err::<OutputView, GenError>(
            GenError::AmbiguousForwardTarget,
        ),
{
    let tk = spec_collect_targets(primary, decl.attrs)->Ok_0;
    assert(spec_resolve(tk.0[k], decl.name) == Err::<crate::model::ForwardPlanView, GenError>(
        GenError::AmbiguousForwardTarget,
    ));
    lemma_resolve_all_err(tk.0, decl.name, k);
}

/// A declaration containing any non-method member is rejected before
/// any implementation block is emitted.
pub proof fn lemma_non_method_rejection(
    primary: Option<TypeExprView>,
    decl: TraitDeclView,
    i: int,
)
    requires
        spec_collect_targets(primary, decl.attrs) is Ok,
        0 <= i < decl.items.len(),
        !(decl.items[i] is Method),
    ensures
        spec_auto_trait(primary, decl) == Err::<OutputView, GenError>(GenError::UnsupportedMember),
{
}

/// Every consumed target annotation is absent from the emitted
/// declaration.
pub proof fn lemma_annotations_stripped(
    primary: Option<TypeExprView>,
    decl: TraitDeclView,
    out: OutputView,
)
    requires
        spec_auto_trait(primary, decl) == Ok::<OutputView, GenError>(out),
    ensures
        forall|i: int| 0 <= i < out.decl.attrs.len() ==> !((#[trigger] out.decl.attrs[i]) is Target),
{
    broadcast use vstd::prelude::Seq::lemma_filter_pred;

}

/// Stripping is idempotent: running the pass again on the emitted
/// declaration leaves that declaration unchanged, whatever the new
/// primary target.
pub proof fn lemma_stripping_idempotent(
    primary: Option<TypeExprView>,
    decl: TraitDeclView,
    out: OutputView,
    again: Option<TypeExprView>,
    out2: OutputView,
)
    requires
        spec_auto_trait(primary, decl) == Ok::<OutputView, GenError>(out),
        spec_auto_trait(again, out.decl) == Ok::<OutputView, GenError>(out2),
    ensures
        out2.decl == out.decl,
{
    lemma_annotations_stripped(primary, decl, out);
    lemma_filter_keep_all(out.decl.attrs, |a: TraitAttrView| !(a is Target));
}

/// The rewritten argument list of an emitted target is structurally
/// identical to the original: same count, same order, every
/// unconstrained argument unchanged, and every constrained argument
/// replaced by its own plain parameter.
pub proof fn lemma_rewrite_shape(args: Seq<GenericArgView>)
    ensures
        spec_rewrite_args(args).len() == args.len(),
        forall|i: int|
            0 <= i < args.len() && !((#[trigger] args[i]) is Constraint) ==> spec_rewrite_args(
                args,
            )[i] == args[i],
        forall|i: int|
            0 <= i < args.len() && (#[trigger] args[i]) is Constraint ==> spec_rewrite_args(
                args,
            )[i] == GenericArgView::Opaque(constraint_ident(args[i])),
{
}

/// One implementation block is emitted per target, primary first, then
/// the secondaries in declaration order; each block carries its own
/// target's rewritten type, its header, and the trait's name.
pub proof fn lemma_output_order(
    primary: Option<TypeExprView>,
    decl: TraitDeclView,
    out: OutputView,
)
    requires
        spec_auto_trait(primary, decl) == Ok::<OutputView, GenError>(out),
    ensures
        ({
            let tk = spec_collect_targets(primary, decl.attrs)->Ok_0;
            &&& out.impls.len() == tk.0.len()
            &&& tk.0.len() == 1 + target_attrs(decl.attrs).len()
            &&& forall|k: int| 0 <= k < out.impls.len() ==> {
                let plan = spec_resolve(#[trigger] tk.0[k], decl.name)->Ok_0;
                &&& out.impls[k].target == plan.target
                &&& out.impls[k].generics == plan.generics
                &&& out.impls[k].trait_name == decl.name
            }
        }),
{
    lemma_resolve_all_ok_from_output(primary, decl, out);
}

/// On success every target resolved; the plans line up with the
/// targets one for one, and the blocks with the plans.
proof fn lemma_resolve_all_ok_from_output(
    primary: Option<TypeExprView>,
    decl: TraitDeclView,
    out: OutputView,
)
    requires
        spec_auto_trait(primary, decl) == Ok::<OutputView, GenError>(out),
    ensures
        ({
            let tk = spec_collect_targets(primary, decl.attrs)->Ok_0;
            let plans = crate::generate::spec_resolve_all(tk.0, decl.name)->Ok_0;
            &&& plans.len() == tk.0.len()
            &&& out.impls.len() == tk.0.len()
            &&& forall|j: int| 0 <= j < tk.0.len() ==> #[trigger] plans[j] == spec_resolve(
                tk.0[j],
                decl.name,
            )->Ok_0
            &&& forall|j: int| 0 <= j < tk.0.len() ==> spec_resolve(
                #[trigger] tk.0[j],
                decl.name,
            ) is Ok
        }),
{
    let tk = spec_collect_targets(primary, decl.attrs)->Ok_0;
    lemma_resolve_all_is_ok(tk.0, decl.name);
    lemma_resolve_all_ok(tk.0, decl.name);
}

/// When the whole resolution yielded plans, every single target
/// resolves.
proof fn lemma_resolve_all_is_ok(targets: Seq<TypeExprView>, trait_name: Seq<char>)
    requires
        crate::generate::spec_resolve_all(targets, trait_name) is Ok,
    ensures
        forall|j: int| 0 <= j < targets.len() ==> spec_resolve(
            #[trigger] targets[j],
            trait_name,
        ) is Ok,
    decreases targets.len(),
{
    if targets.len() > 0 {
        let rest = targets.drop_first();
        lemma_resolve_all_is_ok(rest, trait_name);
        assert(forall|j: int| 0 <= j < rest.len() ==> rest[j] == targets[j + 1]);
        assert forall|j: int| 0 <= j < targets.len() implies spec_resolve(
            #[trigger] targets[j],
            trait_name,
        ) is Ok by {
            if j > 0 {
                assert(spec_resolve(rest[j - 1], trait_name) is Ok);
            }
        }
    }
}

} // verus!
