//! Collecting the target-type specifications: the mandatory primary
//! target plus every target annotation on the trait declaration.  Each
//! consumed annotation is removed from the declaration's attribute
//! list; every other attribute is kept in order.

use vstd::prelude::*;

use crate::GenError;
use crate::ast::{ParenInner, TraitAttr, TypeExpr};
use crate::model::{views_of, view_opt, ParenInnerView, TraitAttrView, TypeExprView};

verus! {

/// One layer of parentheses around a secondary target is transparent.
pub open spec fn spec_strip_paren(t: TypeExprView) -> TypeExprView {
    match t {
        TypeExprView::Paren(ParenInnerView::Path(p)) => TypeExprView::Path(p),
        TypeExprView::Paren(ParenInnerView::Opaque(s)) => TypeExprView::Opaque(s),
        other => other,
    }
}

/// Whether an attribute is a target-specification annotation.
pub open spec fn attr_is_target(a: TraitAttrView) -> bool {
    a is Target
}

/// Whether an attribute is a target annotation whose argument did not
/// parse as a type expression.
pub open spec fn attr_unparsed(a: TraitAttrView) -> bool {
    a matches TraitAttrView::Target(None)
}

/// The type expression a target annotation carries.
pub open spec fn attr_target_type(a: TraitAttrView) -> TypeExprView
    recommends
        a matches TraitAttrView::Target(Some(_)),
{
    match a {
        TraitAttrView::Target(Some(t)) => t,
        _ => arbitrary(),
    }
}

/// The target annotations of an attribute list, in order.
pub open spec fn target_attrs(attrs: Seq<TraitAttrView>) -> Seq<TraitAttrView> {
    attrs.filter(|a: TraitAttrView| a is Target)
}

/// The attributes that survive stripping, in order.
pub open spec fn other_attrs(attrs: Seq<TraitAttrView>) -> Seq<TraitAttrView> {
    attrs.filter(|a: TraitAttrView| !(a is Target))
}

/// The secondary targets of an attribute list: the annotations'
/// arguments, each with one layer of parentheses stripped.
pub open spec fn secondary_targets(attrs: Seq<TraitAttrView>) -> Seq<TypeExprView> {
    target_attrs(attrs).map_values(|a: TraitAttrView| spec_strip_paren(attr_target_type(a)))
}

/// What target collection yields: the primary target followed by the
/// secondaries in declaration order, and the surviving attributes; or
/// `MissingArgument` when the primary is absent or any annotation's
/// argument did not parse as a type.
pub open spec fn spec_collect_targets(
    primary: Option<TypeExprView>,
    attrs: Seq<TraitAttrView>,
) -> Result<(Seq<TypeExprView>, Seq<TraitAttrView>), GenError> {
    if primary is None {
        Err(GenError::MissingArgument)
    } else if exists|i: int| 0 <= i < attrs.len() && attr_unparsed(#[trigger] attrs[i]) {
        Err(GenError::MissingArgument)
    } else {
        Ok((seq![primary->0] + secondary_targets(attrs), other_attrs(attrs)))
    }
}

/// Strips one layer of parentheses from a secondary target.
pub fn strip_paren(t: TypeExpr) -> (r: TypeExpr)
    ensures
        r@ == spec_strip_paren(t@),
{
    match t {
        TypeExpr::Paren(ParenInner::Path(p)) => TypeExpr::Path(p),
        TypeExpr::Paren(ParenInner::Opaque(s)) => TypeExpr::Opaque(s),
        other => other,
    }
}

/// Collects the primary target and the annotation targets, and strips
/// the consumed annotations from the attribute list.
pub fn collect_targets(primary: Option<TypeExpr>, attrs: Vec<TraitAttr>) -> (r: Result<
    (Vec<TypeExpr>, Vec<TraitAttr>),
    GenError,
>)
    ensures
        view_result_pair(r) == spec_collect_targets(view_opt(primary), views_of(attrs@)),
{
    let ghost va = views_of(attrs@);
    let prim = match primary {
        Some(t) => t,
        None => {
            return Err(GenError::MissingArgument);
        },
    };
    let mut targets: Vec<TypeExpr> = Vec::new();
    let mut kept: Vec<TraitAttr> = Vec::new();
    targets.push(prim);
    for i in 0..attrs.len()
        invariant
            va == views_of(attrs@),
            va.len() == attrs@.len(),
            views_of(targets@) == seq![view_opt(primary)->0] + secondary_targets(va.take(i as int)),
            views_of(kept@) == other_attrs(va.take(i as int)),
            forall|j: int| 0 <= j < i ==> !attr_unparsed(#[trigger] va[j]),
    {
        proof {
            broadcast use vstd::prelude::Seq::lemma_take_succ_push;
            broadcast use vstd::prelude::Seq::lemma_filter_push;
            broadcast use vstd::prelude::Seq::lemma_push_map_commute;
            assert(va[i as int] == attrs@[i as int]@);
        }
        match &attrs[i] {
            TraitAttr::Target(opt) => match opt {
                Some(t) => {
                    targets.push(strip_paren(t.clone()));
                },
                None => {
                    return Err(GenError::MissingArgument);
                },
            },
            TraitAttr::Other(s) => {
                kept.push(TraitAttr::Other(s.clone()));
            },
        }
    }
    proof {
        assert(va.take(va.len() as int) =~= va);
    }
    Ok((targets, kept))
}

/// The view of a stage result carrying a pair of vectors.
pub open spec fn view_result_pair(
    r: Result<(Vec<TypeExpr>, Vec<TraitAttr>), GenError>,
) -> Result<(Seq<TypeExprView>, Seq<TraitAttrView>), GenError> {
    match r {
        Ok(p) => Ok((views_of(p.0@), views_of(p.1@))),
        Err(e) => Err(e),
    }
}

} // verus!
