//! Resolving one target type to a forward plan.
//!
//! A path target's generic arguments are scanned for a constrained
//! parameter one of whose bounds is a bare path naming the trait under
//! generation; that parameter, if unique, is the forward target.  Every
//! constrained argument is rewritten to a plain parameter in the
//! emitted target type, while the implementation header keeps the
//! argument list as written.

use vstd::prelude::*;

use crate::GenError;
use crate::ast::{ArgList, ForwardPlan, GenericArg, PathType, TypeExpr};
use crate::model::{
    views_of, view_result, ArgListView, BoundView, ForwardPlanView, GenericArgView, PathTypeView,
    TypeExprView,
};

verus! {

/// Whether one bound names the trait under generation: it must be a
/// bare single-segment path equal to the trait's name.
pub open spec fn spec_bound_matches(b: BoundView, trait_name: Seq<char>) -> bool {
    b.plain && b.name == trait_name
}

/// Whether a generic argument is a constrained parameter carrying a
/// bound that names the trait under generation.
pub open spec fn spec_is_forward_arg(a: GenericArgView, trait_name: Seq<char>) -> bool {
    match a {
        GenericArgView::Constraint { ident: _, bounds } => exists|i: int|
            0 <= i < bounds.len() && spec_bound_matches(#[trigger] bounds[i], trait_name),
        GenericArgView::Opaque(_) => false,
    }
}

/// The constrained arguments of a target whose bounds name the trait,
/// in order.
pub open spec fn spec_hits(args: Seq<GenericArgView>, trait_name: Seq<char>) -> Seq<
    GenericArgView,
> {
    args.filter(|a: GenericArgView| spec_is_forward_arg(a, trait_name))
}

/// The identifier of a constrained argument.
pub open spec fn constraint_ident(a: GenericArgView) -> Seq<char>
    recommends
        a is Constraint,
{
    match a {
        GenericArgView::Constraint { ident, .. } => ident,
        GenericArgView::Opaque(_) => arbitrary(),
    }
}

/// A constrained argument rewritten to a plain parameter; any other
/// argument is passed through unchanged.
pub open spec fn spec_rewrite_arg(a: GenericArgView) -> GenericArgView {
    match a {
        GenericArgView::Constraint { ident, .. } => GenericArgView::Opaque(ident),
        other => other,
    }
}

/// An argument list with every constrained argument rewritten.
pub open spec fn spec_rewrite_args(args: Seq<GenericArgView>) -> Seq<GenericArgView> {
    args.map_values(|a: GenericArgView| spec_rewrite_arg(a))
}

/// A bare path made of one identifier.
pub open spec fn ident_path(id: Seq<char>) -> PathTypeView {
    PathTypeView { prefix: Seq::empty(), name: id, args: ArgListView::Absent }
}

/// What resolution yields for one target.
///
/// Only a named path type can be projected through.  Without an
/// argument list the target itself is the forward target.  With
/// angle-bracketed arguments, exactly one argument bound to the trait
/// names the forward target; two or more are rejected as ambiguous;
/// none leaves the rewritten target itself as the forward target.
/// Function-style argument lists and non-path types are rejected.
pub open spec fn spec_resolve(t: TypeExprView, trait_name: Seq<char>) -> Result<
    ForwardPlanView,
    GenError,
> {
    match t {
        TypeExprView::Path(p) => match p.args {
            ArgListView::Absent => Ok(
                ForwardPlanView { generics: None, target: p, forward_to: p },
            ),
            ArgListView::Paren(_) => Err(GenError::UnsupportedTargetType),
            ArgListView::Angle(args) => {
                let hits = spec_hits(args, trait_name);
                if hits.len() >= 2 {
                    Err(GenError::AmbiguousForwardTarget)
                } else {
                    let target = PathTypeView {
                        prefix: p.prefix,
                        name: p.name,
                        args: ArgListView::Angle(spec_rewrite_args(args)),
                    };
                    let forward_to = if hits.len() == 1 {
                        ident_path(constraint_ident(hits[0]))
                    } else {
                        target
                    };
                    Ok(ForwardPlanView { generics: Some(args), target, forward_to })
                }
            },
        },
        _ => Err(GenError::UnsupportedTargetType),
    }
}

/// Whether a generic argument carries a bound naming the trait.
fn is_forward_arg(a: &GenericArg, trait_name: &String) -> (r: bool)
    ensures
        r == spec_is_forward_arg(a@, trait_name@),
{
    match a {
        GenericArg::Opaque(_) => false,
        GenericArg::Constraint { ident: _, bounds } => {
            let ghost vb = views_of(bounds@);
            for i in 0..bounds.len()
                invariant
                    vb == views_of(bounds@),
                    vb.len() == bounds@.len(),
                    a@ matches GenericArgView::Constraint { ident: _, bounds: bs } && bs == vb,
                    forall|j: int| 0 <= j < i ==> !spec_bound_matches(#[trigger] vb[j], trait_name@),
            {
                proof {
                    assert(vb[i as int] == bounds@[i as int]@);
                }
                let b = &bounds[i];
                if b.plain && b.name.eq(trait_name) {
                    proof {
                        assert(spec_bound_matches(vb[i as int], trait_name@));
                    }
                    return true;
                }
            }
            false
        },
    }
}

/// Resolves one target type to its forward plan.
pub fn resolve_target(t: TypeExpr, trait_name: &String) -> (r: Result<ForwardPlan, GenError>)
    ensures
        view_result(r) == spec_resolve(t@, trait_name@),
{
    let p = match t {
        TypeExpr::Path(p) => p,
        _ => {
            return Err(GenError::UnsupportedTargetType);
        },
    };
    let PathType { prefix, name, args } = p;
    let list = match args {
        ArgList::Absent => {
            let target = PathType { prefix, name, args: ArgList::Absent };
            let forward_to = target.clone();
            return Ok(ForwardPlan { generics: None, target, forward_to });
        },
        ArgList::Paren(_) => {
            return Err(GenError::UnsupportedTargetType);
        },
        ArgList::Angle(list) => list,
    };
    let ghost vargs = views_of(list@);
    let mut hit_count: usize = 0;
    let mut first_ident: Option<String> = None;
    for i in 0..list.len()
        invariant
            vargs == views_of(list@),
            vargs.len() == list@.len(),
            hit_count <= i,
            hit_count as int == spec_hits(vargs.take(i as int), trait_name@).len(),
            (hit_count == 0) <==> (first_ident is None),
            hit_count >= 1 ==> (first_ident matches Some(id) && id@ == constraint_ident(
                spec_hits(vargs.take(i as int), trait_name@)[0],
            )),
    {
        proof {
            broadcast use vstd::prelude::Seq::lemma_take_succ_push;
            broadcast use vstd::prelude::Seq::lemma_filter_push;
            assert(vargs[i as int] == list@[i as int]@);
        }
        let hit = is_forward_arg(&list[i], trait_name);
        if hit {
            if hit_count == 0 {
                match &list[i] {
                    GenericArg::Constraint { ident, .. } => {
                        first_ident = Some(ident.clone());
                    },
                    GenericArg::Opaque(_) => {
                        // a matching argument is always a constrained parameter
                        proof {
                            assert(false);
                        }
                    },
                }
            }
            hit_count = hit_count + 1;
        }
    }
    proof {
        assert(vargs.take(vargs.len() as int) =~= vargs);
    }
    if hit_count >= 2 {
        return Err(GenError::AmbiguousForwardTarget);
    }
    let mut rewritten: Vec<GenericArg> = Vec::new();
    for i in 0..list.len()
        invariant
            vargs == views_of(list@),
            vargs.len() == list@.len(),
            views_of(rewritten@) == spec_rewrite_args(vargs.take(i as int)),
    {
        proof {
            broadcast use vstd::prelude::Seq::lemma_take_succ_push;
            broadcast use vstd::prelude::Seq::lemma_push_map_commute;
            assert(vargs[i as int] == list@[i as int]@);
        }
        match &list[i] {
            GenericArg::Constraint { ident, .. } => {
                rewritten.push(GenericArg::Opaque(ident.clone()));
            },
            GenericArg::Opaque(s) => {
                rewritten.push(GenericArg::Opaque(s.clone()));
            },
        }
    }
    proof {
        assert(vargs.take(vargs.len() as int) =~= vargs);
    }
    let target = PathType { prefix, name, args: ArgList::Angle(rewritten) };
    let forward_to = match first_ident {
        Some(id) => {
            let empty: Vec<String> = Vec::new();
            proof {
                assert(views_of(empty@) =~= Seq::<Seq<char>>::empty());
            }
            PathType { prefix: empty, name: id, args: ArgList::Absent }
        },
        None => target.clone(),
    };
    Ok(ForwardPlan { generics: Some(list), target, forward_to })
}

} // verus!
