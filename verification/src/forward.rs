//! Building the forwarding methods and the implementation blocks.
//!
//! For every (target, method) pair one method body is generated: a call
//! of the forward target's associated function of the method's own
//! name, taking the projected receiver — read-only dereference for
//! `&self`, mutable dereference for `&mut self`, value conversion for
//! `self`, nothing for a static method — followed by the declared
//! parameters, by identifier, in order.  A method that already declares
//! a body is passed through unchanged.

use vstd::prelude::*;

use crate::Receiver;
use crate::ast::{
    clone_generic_args, clone_params, ForwardArg, ForwardCall, ForwardPlan, ImplBlock, ImplBody,
    ImplMethod, Method, PathType,
};
use crate::model::{
    views_of, ForwardArgView, ForwardCallView, ForwardPlanView, ImplBlockView, ImplBodyView,
    ImplMethodView, MethodView, ParamView, PathTypeView,
};

verus! {

/// The projected receiver a forwarding call starts with, selected by
/// the receiver kind alone.
pub open spec fn spec_recv_args(r: Receiver) -> Seq<ForwardArgView> {
    match r {
        Receiver::Static => Seq::empty(),
        Receiver::ByRef => seq![ForwardArgView::Deref],
        Receiver::ByMutRef => seq![ForwardArgView::DerefMut],
        Receiver::ByValue => seq![ForwardArgView::Convert],
    }
}

/// The declared parameters as call arguments, by identifier, in order.
pub open spec fn spec_named_args(params: Seq<ParamView>) -> Seq<ForwardArgView> {
    params.map_values(|p: ParamView| ForwardArgView::Named(p.name))
}

/// The forwarding call generated for one method.
pub open spec fn spec_forward_call(forward_to: PathTypeView, m: MethodView) -> ForwardCallView {
    ForwardCallView {
        callee: forward_to,
        method: m.name,
        args: spec_recv_args(m.receiver) + spec_named_args(m.params),
    }
}

/// The implementation method generated for one trait method: the same
/// signature, with a pre-existing body kept unchanged and a forwarding
/// body generated otherwise.
pub open spec fn spec_forward_method(forward_to: PathTypeView, m: MethodView) -> ImplMethodView {
    ImplMethodView {
        name: m.name,
        receiver: m.receiver,
        params: m.params,
        body: match m.body {
            Some(b) => ImplBodyView::Kept(b),
            None => ImplBodyView::Generated(spec_forward_call(forward_to, m)),
        },
    }
}

/// The methods of one implementation block, in declaration order.
pub open spec fn spec_forward_methods(forward_to: PathTypeView, ms: Seq<MethodView>) -> Seq<
    ImplMethodView,
> {
    ms.map_values(|m: MethodView| spec_forward_method(forward_to, m))
}

/// The implementation block generated for one resolved target.
pub open spec fn spec_impl_block(
    plan: ForwardPlanView,
    trait_name: Seq<char>,
    ms: Seq<MethodView>,
) -> ImplBlockView {
    ImplBlockView {
        generics: plan.generics,
        trait_name: trait_name,
        target: plan.target,
        methods: spec_forward_methods(plan.forward_to, ms),
    }
}

/// Builds the implementation method for one trait method.
pub fn forward_method(forward_to: &PathType, m: &Method) -> (r: ImplMethod)
    ensures
        r@ == spec_forward_method(forward_to@, m@),
{
    let body = match &m.body {
        Some(b) => ImplBody::Kept(b.clone()),
        None => {
            let mut args: Vec<ForwardArg> = Vec::new();
            match m.receiver {
                Receiver::Static => {},
                Receiver::ByRef => args.push(ForwardArg::Deref),
                Receiver::ByMutRef => args.push(ForwardArg::DerefMut),
                Receiver::ByValue => args.push(ForwardArg::Convert),
            }
            proof {
                assert(views_of(args@) =~= spec_recv_args(m@.receiver));
            }
            let ghost base = views_of(args@);
            for i in 0..m.params.len()
                invariant
                    base == spec_recv_args(m@.receiver),
                    views_of(args@) == base + spec_named_args(
                        views_of(m.params@.take(i as int)),
                    ),
            {
                proof {
                    broadcast use vstd::prelude::Seq::lemma_take_succ_push;
                    broadcast use vstd::prelude::Seq::lemma_push_map_commute;
                    broadcast use vstd::prelude::Seq::push_distributes_over_add;
                }
                args.push(ForwardArg::Named(m.params[i].name.clone()));
            }
            proof {
                assert(m.params@.take(m.params@.len() as int) =~= m.params@);
            }
            ImplBody::Generated(
                ForwardCall { callee: forward_to.clone(), method: m.name.clone(), args },
            )
        },
    };
    ImplMethod {
        name: m.name.clone(),
        receiver: m.receiver,
        params: clone_params(&m.params),
        body,
    }
}

/// Builds the implementation block for one resolved target.
pub fn build_impl_block(plan: &ForwardPlan, trait_name: &String, methods: &Vec<Method>) -> (r:
    ImplBlock)
    ensures
        r@ == spec_impl_block(plan@, trait_name@, views_of(methods@)),
{
    let mut ims: Vec<ImplMethod> = Vec::new();
    for i in 0..methods.len()
        invariant
            views_of(ims@) == spec_forward_methods(
                plan@.forward_to,
                views_of(methods@.take(i as int)),
            ),
    {
        proof {
            broadcast use vstd::prelude::Seq::lemma_take_succ_push;
            broadcast use vstd::prelude::Seq::lemma_push_map_commute;
        }
        let im = forward_method(&plan.forward_to, &methods[i]);
        ims.push(im);
    }
    proof {
        assert(methods@.take(methods@.len() as int) =~= methods@);
    }
    let generics = match &plan.generics {
        Some(g) => Some(clone_generic_args(g)),
        None => None,
    };
    ImplBlock {
        generics,
        trait_name: trait_name.clone(),
        target: plan.target.clone(),
        methods: ims,
    }
}

} // verus!
