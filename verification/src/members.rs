//! Reading the trait declaration's member list.  Generation works on
//! methods alone: the moment any member is not a method, the whole
//! request is rejected and nothing is emitted.

use vstd::prelude::*;

use crate::GenError;
use crate::ast::{Method, TraitItem};
use crate::model::{views_of, view_result_seq, MethodView, TraitItemView};

verus! {

/// The method a member carries.
pub open spec fn item_method(it: TraitItemView) -> MethodView
    recommends
        it is Method,
{
    match it {
        TraitItemView::Method(m) => m,
        TraitItemView::Other(_) => arbitrary(),
    }
}

/// What member extraction yields: the ordered method list, or
/// `UnsupportedMember` when any member is not a method.
pub open spec fn spec_methods_of(items: Seq<TraitItemView>) -> Result<Seq<MethodView>, GenError> {
    if exists|i: int| 0 <= i < items.len() && !(#[trigger] items[i] is Method) {
        Err(GenError::UnsupportedMember)
    } else {
        Ok(items.map_values(|it: TraitItemView| item_method(it)))
    }
}

/// Extracts the ordered method list, rejecting any non-method member.
pub fn methods_of(items: &Vec<TraitItem>) -> (r: Result<Vec<Method>, GenError>)
    ensures
        view_result_seq(r) == spec_methods_of(views_of(items@)),
{
    let ghost vi = views_of(items@);
    let mut methods: Vec<Method> = Vec::new();
    for i in 0..items.len()
        invariant
            vi == views_of(items@),
            vi.len() == items@.len(),
            views_of(methods@) == vi.take(i as int).map_values(
                |it: TraitItemView| item_method(it),
            ),
            forall|j: int| 0 <= j < i ==> (#[trigger] vi[j]) is Method,
    {
        proof {
            broadcast use vstd::prelude::Seq::lemma_take_succ_push;
            broadcast use vstd::prelude::Seq::lemma_push_map_commute;
            assert(vi[i as int] == items@[i as int]@);
        }
        match &items[i] {
            TraitItem::Method(m) => {
                methods.push(m.clone());
            },
            TraitItem::Other(_) => {
                return Err(GenError::UnsupportedMember);
            },
        }
    }
    proof {
        assert(vi.take(vi.len() as int) =~= vi);
    }
    Ok(methods)
}

} // verus!
