//! The structural model of the input and of the generated output.
//!
//! Identifiers and every type fragment the generator does not inspect
//! are carried as opaque strings; the fragments the generator does
//! inspect (a path target's generic arguments and their bounds) are
//! modeled structurally.

use vstd::prelude::*;

use crate::Receiver;
use crate::model::views_of;

verus! {

/// One bound of a constrained generic argument.  `plain` is true when
/// the bound is a bare single-segment path without arguments, the only
/// shape that can name the trait under generation; otherwise `name`
/// carries the bound's opaque text.
#[derive(Debug, PartialEq, Eq)]
pub struct Bound {
    pub name: String,
    pub plain: bool,
}

/// A generic argument of a target type: either an opaque fragment the
/// generator passes through unchanged, or a constrained parameter
/// `ident: bounds`.
#[derive(Debug, PartialEq, Eq)]
pub enum GenericArg {
    Opaque(String),
    Constraint { ident: String, bounds: Vec<Bound> },
}

/// The argument list of a path type's last segment.
#[derive(Debug, PartialEq, Eq)]
pub enum ArgList {
    /// No argument list at all.
    Absent,
    /// Angle-bracketed arguments.
    Angle(Vec<GenericArg>),
    /// Parenthesized, function-style arguments (not projectable).
    Paren(String),
}

/// A named, path-style type.  Only the last segment may carry an
/// argument list; earlier segments are opaque.
#[derive(Debug, PartialEq, Eq)]
pub struct PathType {
    pub prefix: Vec<String>,
    pub name: String,
    pub args: ArgList,
}

/// What stands inside one pair of parentheses around a target type.
#[derive(Debug, PartialEq, Eq)]
pub enum ParenInner {
    Path(PathType),
    Opaque(String),
}

/// A target type expression as supplied by the caller.
#[derive(Debug, PartialEq, Eq)]
pub enum TypeExpr {
    Path(PathType),
    Paren(ParenInner),
    Opaque(String),
}

/// A non-receiver method parameter: its pattern and its declared type,
/// both opaque.
#[derive(Debug, PartialEq, Eq)]
pub struct Param {
    pub name: String,
    pub ty: String,
}

/// One method signature of the trait declaration.
#[derive(Debug, PartialEq, Eq)]
pub struct Method {
    pub name: String,
    pub receiver: Receiver,
    pub params: Vec<Param>,
    /// The method's pre-existing body, if it declares one.
    pub body: Option<String>,
}

/// One member of the trait declaration.
#[derive(Debug, PartialEq, Eq)]
pub enum TraitItem {
    Method(Method),
    /// Any non-method member, kept only to be rejected.
    Other(String),
}

/// One attribute on the trait declaration.
#[derive(Debug, PartialEq, Eq)]
pub enum TraitAttr {
    /// A target-specification annotation; `None` when its argument does
    /// not parse as a type expression.
    Target(Option<TypeExpr>),
    /// Any other attribute, passed through unchanged.
    Other(String),
}

/// The trait declaration.
#[derive(Debug, PartialEq, Eq)]
pub struct TraitDecl {
    pub name: String,
    pub generics: Vec<String>,
    pub attrs: Vec<TraitAttr>,
    pub items: Vec<TraitItem>,
}

/// One argument of a generated forwarding call.
#[derive(Debug, PartialEq, Eq)]
pub enum ForwardArg {
    /// A read-only dereference projection of the receiver.
    Deref,
    /// A mutable dereference projection of the receiver.
    DerefMut,
    /// A value conversion of the receiver to the forward target.
    Convert,
    /// A declared parameter, passed by its identifier.
    Named(String),
}

/// The call a generated method body makes: the forward target's
/// associated function of the method's own name.
#[derive(Debug, PartialEq, Eq)]
pub struct ForwardCall {
    pub callee: PathType,
    pub method: String,
    pub args: Vec<ForwardArg>,
}

/// The body of a method inside a generated implementation block.
#[derive(Debug, PartialEq, Eq)]
pub enum ImplBody {
    /// The method's pre-existing body, reproduced unchanged.
    Kept(String),
    /// A generated forwarding body.
    Generated(ForwardCall),
}

/// One method of a generated implementation block.
#[derive(Debug, PartialEq, Eq)]
pub struct ImplMethod {
    pub name: String,
    pub receiver: Receiver,
    pub params: Vec<Param>,
    pub body: ImplBody,
}

/// One generated implementation block.
#[derive(Debug, PartialEq, Eq)]
pub struct ImplBlock {
    /// The `impl<...>` header: the target's original generic argument
    /// list, bounds and all, or `None` when the target has none.
    pub generics: Option<Vec<GenericArg>>,
    pub trait_name: String,
    /// The target type with every constrained argument rewritten to a
    /// plain parameter.
    pub target: PathType,
    pub methods: Vec<ImplMethod>,
}

/// The resolved plan for one target type.
#[derive(Debug, PartialEq, Eq)]
pub struct ForwardPlan {
    /// The implementation header's generic arguments, as written.
    pub generics: Option<Vec<GenericArg>>,
    /// The target type with constraints rewritten to plain parameters.
    pub target: PathType,
    /// The type whose associated functions the generated bodies call.
    pub forward_to: PathType,
}

/// The whole emitted unit: the annotation-stripped declaration followed
/// by one implementation block per target.
#[derive(Debug, PartialEq, Eq)]
pub struct Output {
    pub decl: TraitDecl,
    pub impls: Vec<ImplBlock>,
}

/// A copy of a string vector whose view is unchanged.
fn clone_strings(v: &Vec<String>) -> (r: Vec<String>)
    ensures
        views_of(r@) == views_of(v@),
{
    let mut r: Vec<String> = Vec::new();
    for i in 0..v.len()
        invariant
            views_of(r@) == views_of(v@.take(i as int)),
    {
        r.push(v[i].clone());
        proof {
            broadcast use vstd::prelude::Seq::lemma_take_succ_push;
            broadcast use vstd::prelude::Seq::lemma_push_map_commute;
        }
    }
    proof {
        assert(v@.take(v@.len() as int) =~= v@);
    }
    r
}

impl Clone for Bound {
    fn clone(&self) -> (r: Self)
        ensures
            r@ == self@,
    {
        Bound { name: self.name.clone(), plain: self.plain }
    }
}

/// A copy of a bound vector whose view is unchanged.
fn clone_bounds(v: &Vec<Bound>) -> (r: Vec<Bound>)
    ensures
        views_of(r@) == views_of(v@),
{
    let mut r: Vec<Bound> = Vec::new();
    for i in 0..v.len()
        invariant
            views_of(r@) == views_of(v@.take(i as int)),
    {
        r.push(v[i].clone());
        proof {
            broadcast use vstd::prelude::Seq::lemma_take_succ_push;
            broadcast use vstd::prelude::Seq::lemma_push_map_commute;
        }
    }
    proof {
        assert(v@.take(v@.len() as int) =~= v@);
    }
    r
}

impl Clone for GenericArg {
    fn clone(&self) -> (r: Self)
        ensures
            r@ == self@,
    {
        match self {
            GenericArg::Opaque(s) => GenericArg::Opaque(s.clone()),
            GenericArg::Constraint { ident, bounds } => GenericArg::Constraint {
                ident: ident.clone(),
                bounds: clone_bounds(bounds),
            },
        }
    }
}

/// A copy of a generic-argument vector whose view is unchanged.
pub(crate) fn clone_generic_args(v: &Vec<GenericArg>) -> (r: Vec<GenericArg>)
    ensures
        views_of(r@) == views_of(v@),
{
    let mut r: Vec<GenericArg> = Vec::new();
    for i in 0..v.len()
        invariant
            views_of(r@) == views_of(v@.take(i as int)),
    {
        r.push(v[i].clone());
        proof {
            broadcast use vstd::prelude::Seq::lemma_take_succ_push;
            broadcast use vstd::prelude::Seq::lemma_push_map_commute;
        }
    }
    proof {
        assert(v@.take(v@.len() as int) =~= v@);
    }
    r
}

impl Clone for ArgList {
    fn clone(&self) -> (r: Self)
        ensures
            r@ == self@,
    {
        match self {
            ArgList::Absent => ArgList::Absent,
            ArgList::Angle(args) => ArgList::Angle(clone_generic_args(args)),
            ArgList::Paren(s) => ArgList::Paren(s.clone()),
        }
    }
}

impl Clone for PathType {
    fn clone(&self) -> (r: Self)
        ensures
            r@ == self@,
    {
        PathType {
            prefix: clone_strings(&self.prefix),
            name: self.name.clone(),
            args: self.args.clone(),
        }
    }
}

impl Clone for ParenInner {
    fn clone(&self) -> (r: Self)
        ensures
            r@ == self@,
    {
        match self {
            ParenInner::Path(p) => ParenInner::Path(p.clone()),
            ParenInner::Opaque(s) => ParenInner::Opaque(s.clone()),
        }
    }
}

impl Clone for TypeExpr {
    fn clone(&self) -> (r: Self)
        ensures
            r@ == self@,
    {
        match self {
            TypeExpr::Path(p) => TypeExpr::Path(p.clone()),
            TypeExpr::Paren(inner) => TypeExpr::Paren(inner.clone()),
            TypeExpr::Opaque(s) => TypeExpr::Opaque(s.clone()),
        }
    }
}

impl Clone for Param {
    fn clone(&self) -> (r: Self)
        ensures
            r@ == self@,
    {
        Param { name: self.name.clone(), ty: self.ty.clone() }
    }
}

/// A copy of a parameter vector whose view is unchanged.
pub(crate) fn clone_params(v: &Vec<Param>) -> (r: Vec<Param>)
    ensures
        views_of(r@) == views_of(v@),
{
    let mut r: Vec<Param> = Vec::new();
    for i in 0..v.len()
        invariant
            views_of(r@) == views_of(v@.take(i as int)),
    {
        r.push(v[i].clone());
        proof {
            broadcast use vstd::prelude::Seq::lemma_take_succ_push;
            broadcast use vstd::prelude::Seq::lemma_push_map_commute;
        }
    }
    proof {
        assert(v@.take(v@.len() as int) =~= v@);
    }
    r
}

impl Clone for Method {
    fn clone(&self) -> (r: Self)
        ensures
            r@ == self@,
    {
        Method {
            name: self.name.clone(),
            receiver: self.receiver,
            params: clone_params(&self.params),
            body: match &self.body {
                Some(b) => Some(b.clone()),
                None => None,
            },
        }
    }
}

} // verus!
