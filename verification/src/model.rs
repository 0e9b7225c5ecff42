//! The mathematical model: one view type per structural type, with
//! strings abstracted to character sequences, and the `View` impls that
//! connect the two.  Every contract of the library speaks over these.

use vstd::prelude::*;

use crate::GenError;
use crate::Receiver;
use crate::ast::{
    ArgList, Bound, ForwardArg, ForwardCall, ForwardPlan, GenericArg, ImplBlock, ImplBody,
    ImplMethod, Method, Output, Param, ParenInner, PathType, TraitAttr, TraitDecl, TraitItem,
    TypeExpr,
};

verus! {

/// The views of a sequence of viewable values, in order.
pub open spec fn views_of<T: View>(s: Seq<T>) -> Seq<T::V> {
    s.map_values(|x: T| x@)
}

/// The view of an optional viewable value.
pub open spec fn view_opt<T: View>(o: Option<T>) -> Option<T::V> {
    match o {
        Some(x) => Some(x@),
        None => None,
    }
}

pub struct BoundView {
    pub name: Seq<char>,
    pub plain: bool,
}

pub enum GenericArgView {
    Opaque(Seq<char>),
    Constraint { ident: Seq<char>, bounds: Seq<BoundView> },
}

pub enum ArgListView {
    Absent,
    Angle(Seq<GenericArgView>),
    Paren(Seq<char>),
}

pub struct PathTypeView {
    pub prefix: Seq<Seq<char>>,
    pub name: Seq<char>,
    pub args: ArgListView,
}

pub enum ParenInnerView {
    Path(PathTypeView),
    Opaque(Seq<char>),
}

pub enum TypeExprView {
    Path(PathTypeView),
    Paren(ParenInnerView),
    Opaque(Seq<char>),
}

pub struct ParamView {
    pub name: Seq<char>,
    pub ty: Seq<char>,
}

pub struct MethodView {
    pub name: Seq<char>,
    pub receiver: Receiver,
    pub params: Seq<ParamView>,
    pub body: Option<Seq<char>>,
}

pub enum TraitItemView {
    Method(MethodView),
    Other(Seq<char>),
}

pub enum TraitAttrView {
    Target(Option<TypeExprView>),
    Other(Seq<char>),
}

pub struct TraitDeclView {
    pub name: Seq<char>,
    pub generics: Seq<Seq<char>>,
    pub attrs: Seq<TraitAttrView>,
    pub items: Seq<TraitItemView>,
}

pub enum ForwardArgView {
    Deref,
    DerefMut,
    Convert,
    Named(Seq<char>),
}

pub struct ForwardCallView {
    pub callee: PathTypeView,
    pub method: Seq<char>,
    pub args: Seq<ForwardArgView>,
}

pub enum ImplBodyView {
    Kept(Seq<char>),
    Generated(ForwardCallView),
}

pub struct ImplMethodView {
    pub name: Seq<char>,
    pub receiver: Receiver,
    pub params: Seq<ParamView>,
    pub body: ImplBodyView,
}

pub struct ImplBlockView {
    pub generics: Option<Seq<GenericArgView>>,
    pub trait_name: Seq<char>,
    pub target: PathTypeView,
    pub methods: Seq<ImplMethodView>,
}

pub struct ForwardPlanView {
    pub generics: Option<Seq<GenericArgView>>,
    pub target: PathTypeView,
    pub forward_to: PathTypeView,
}

pub struct OutputView {
    pub decl: TraitDeclView,
    pub impls: Seq<ImplBlockView>,
}

impl View for Bound {
    type V = BoundView;

    open spec fn view(&self) -> BoundView {
        BoundView { name: self.name@, plain: self.plain }
    }
}

impl View for GenericArg {
    type V = GenericArgView;

    open spec fn view(&self) -> GenericArgView {
        match self {
            GenericArg::Opaque(s) => GenericArgView::Opaque(s@),
            GenericArg::Constraint { ident, bounds } => GenericArgView::Constraint {
                ident: ident@,
                bounds: views_of(bounds@),
            },
        }
    }
}

impl View for ArgList {
    type V = ArgListView;

    open spec fn view(&self) -> ArgListView {
        match self {
            ArgList::Absent => ArgListView::Absent,
            ArgList::Angle(args) => ArgListView::Angle(views_of(args@)),
            ArgList::Paren(s) => ArgListView::Paren(s@),
        }
    }
}

impl View for PathType {
    type V = PathTypeView;

    open spec fn view(&self) -> PathTypeView {
        PathTypeView { prefix: views_of(self.prefix@), name: self.name@, args: self.args@ }
    }
}

impl View for ParenInner {
    type V = ParenInnerView;

    open spec fn view(&self) -> ParenInnerView {
        match self {
            ParenInner::Path(p) => ParenInnerView::Path(p@),
            ParenInner::Opaque(s) => ParenInnerView::Opaque(s@),
        }
    }
}

impl View for TypeExpr {
    type V = TypeExprView;

    open spec fn view(&self) -> TypeExprView {
        match self {
            TypeExpr::Path(p) => TypeExprView::Path(p@),
            TypeExpr::Paren(inner) => TypeExprView::Paren(inner@),
            TypeExpr::Opaque(s) => TypeExprView::Opaque(s@),
        }
    }
}

impl View for Param {
    type V = ParamView;

    open spec fn view(&self) -> ParamView {
        ParamView { name: self.name@, ty: self.ty@ }
    }
}

impl View for Method {
    type V = MethodView;

    open spec fn view(&self) -> MethodView {
        MethodView {
            name: self.name@,
            receiver: self.receiver,
            params: views_of(self.params@),
            body: view_opt(self.body),
        }
    }
}

impl View for TraitItem {
    type V = TraitItemView;

    open spec fn view(&self) -> TraitItemView {
        match self {
            TraitItem::Method(m) => TraitItemView::Method(m@),
            TraitItem::Other(s) => TraitItemView::Other(s@),
        }
    }
}

impl View for TraitAttr {
    type V = TraitAttrView;

    open spec fn view(&self) -> TraitAttrView {
        match self {
            TraitAttr::Target(t) => TraitAttrView::Target(view_opt(*t)),
            TraitAttr::Other(s) => TraitAttrView::Other(s@),
        }
    }
}

impl View for TraitDecl {
    type V = TraitDeclView;

    open spec fn view(&self) -> TraitDeclView {
        TraitDeclView {
            name: self.name@,
            generics: views_of(self.generics@),
            attrs: views_of(self.attrs@),
            items: views_of(self.items@),
        }
    }
}

impl View for ForwardArg {
    type V = ForwardArgView;

    open spec fn view(&self) -> ForwardArgView {
        match self {
            ForwardArg::Deref => ForwardArgView::Deref,
            ForwardArg::DerefMut => ForwardArgView::DerefMut,
            ForwardArg::Convert => ForwardArgView::Convert,
            ForwardArg::Named(s) => ForwardArgView::Named(s@),
        }
    }
}

impl View for ForwardCall {
    type V = ForwardCallView;

    open spec fn view(&self) -> ForwardCallView {
        ForwardCallView { callee: self.callee@, method: self.method@, args: views_of(self.args@) }
    }
}

impl View for ImplBody {
    type V = ImplBodyView;

    open spec fn view(&self) -> ImplBodyView {
        match self {
            ImplBody::Kept(s) => ImplBodyView::Kept(s@),
            ImplBody::Generated(c) => ImplBodyView::Generated(c@),
        }
    }
}

impl View for ImplMethod {
    type V = ImplMethodView;

    open spec fn view(&self) -> ImplMethodView {
        ImplMethodView {
            name: self.name@,
            receiver: self.receiver,
            params: views_of(self.params@),
            body: self.body@,
        }
    }
}

impl View for ImplBlock {
    type V = ImplBlockView;

    open spec fn view(&self) -> ImplBlockView {
        ImplBlockView {
            generics: match &self.generics {
                Some(g) => Some(views_of(g@)),
                None => None,
            },
            trait_name: self.trait_name@,
            target: self.target@,
            methods: views_of(self.methods@),
        }
    }
}

impl View for ForwardPlan {
    type V = ForwardPlanView;

    open spec fn view(&self) -> ForwardPlanView {
        ForwardPlanView {
            generics: match &self.generics {
                Some(g) => Some(views_of(g@)),
                None => None,
            },
            target: self.target@,
            forward_to: self.forward_to@,
        }
    }
}

impl View for Output {
    type V = OutputView;

    open spec fn view(&self) -> OutputView {
        OutputView { decl: self.decl@, impls: views_of(self.impls@) }
    }
}

/// The result of a stage, with the success value abstracted to its view.
pub open spec fn view_result<T: View>(r: Result<T, GenError>) -> Result<T::V, GenError> {
    match r {
        Ok(v) => Ok(v@),
        Err(e) => Err(e),
    }
}

/// The result of a stage carrying a vector, with the vector abstracted
/// to the sequence of its elements' views.
pub open spec fn view_result_seq<T: View>(r: Result<Vec<T>, GenError>) -> Result<
    Seq<T::V>,
    GenError,
> {
    match r {
        Ok(v) => Ok(views_of(v@)),
        Err(e) => Err(e),
    }
}

} // verus!
