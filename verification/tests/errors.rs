use auto_trait::ast::{
    ArgList, Bound, GenericArg, ImplBody, Method, ParenInner, PathType, TraitAttr, TraitDecl,
    TraitItem, TypeExpr,
};
use auto_trait::auto_trait;
use auto_trait::{GenError, Receiver};

fn s(x: &str) -> String {
    x.to_string()
}

fn ident_type(name: &str) -> TypeExpr {
    TypeExpr::Path(PathType { prefix: Vec::new(), name: s(name), args: ArgList::Absent })
}

fn bound_arg(ident: &str, trait_name: &str) -> GenericArg {
    GenericArg::Constraint {
        ident: s(ident),
        bounds: vec![Bound { name: s(trait_name), plain: true }],
    }
}

fn decl_with(items: Vec<TraitItem>) -> TraitDecl {
    TraitDecl { name: s("Lolka"), generics: Vec::new(), attrs: Vec::new(), items }
}

fn simple_decl() -> TraitDecl {
    decl_with(vec![TraitItem::Method(Method {
        name: s("lolka_ref"),
        receiver: Receiver::ByRef,
        params: Vec::new(),
        body: None,
    })])
}

#[test]
fn absent_primary_is_a_missing_argument() {
    assert_eq!(auto_trait(None, simple_decl()), Err(GenError::MissingArgument));
}

#[test]
fn unparseable_annotation_is_a_missing_argument() {
    let mut decl = simple_decl();
    decl.attrs.push(TraitAttr::Target(None));
    assert_eq!(auto_trait(Some(ident_type("Wrapper")), decl), Err(GenError::MissingArgument));
}

#[test]
fn absent_primary_is_reported_before_anything_else() {
    let mut decl = simple_decl();
    decl.items.push(TraitItem::Other(s("const N: usize;")));
    assert_eq!(auto_trait(None, decl), Err(GenError::MissingArgument));
}

#[test]
fn non_method_member_is_unsupported() {
    let mut decl = simple_decl();
    decl.items.push(TraitItem::Other(s("type Out;")));
    assert_eq!(
        auto_trait(Some(ident_type("Wrapper")), decl),
        Err(GenError::UnsupportedMember)
    );
}

#[test]
fn non_method_member_is_reported_before_target_shape_errors() {
    let mut decl = simple_decl();
    decl.items.push(TraitItem::Other(s("const N: usize;")));
    assert_eq!(
        auto_trait(Some(TypeExpr::Opaque(s("fn(u32) -> u32"))), decl),
        Err(GenError::UnsupportedMember)
    );
}

#[test]
fn two_bound_arguments_are_ambiguous() {
    let target = TypeExpr::Path(PathType {
        prefix: Vec::new(),
        name: s("Pair"),
        args: ArgList::Angle(vec![bound_arg("A", "Lolka"), bound_arg("B", "Lolka")]),
    });
    assert_eq!(
        auto_trait(Some(target), simple_decl()),
        Err(GenError::AmbiguousForwardTarget)
    );
}

#[test]
fn one_argument_with_a_repeated_bound_is_not_ambiguous() {
    let target = TypeExpr::Path(PathType {
        prefix: Vec::new(),
        name: s("Box"),
        args: ArgList::Angle(vec![GenericArg::Constraint {
            ident: s("T"),
            bounds: vec![
                Bound { name: s("Lolka"), plain: true },
                Bound { name: s("Lolka"), plain: true },
            ],
        }]),
    });
    let out = auto_trait(Some(target), simple_decl()).unwrap();
    match &out.impls[0].methods[0].body {
        ImplBody::Generated(call) => assert_eq!(call.callee.name, s("T")),
        ImplBody::Kept(_) => panic!("expected a generated body"),
    }
}

#[test]
fn bound_naming_another_trait_does_not_count() {
    let target = TypeExpr::Path(PathType {
        prefix: Vec::new(),
        name: s("Box"),
        args: ArgList::Angle(vec![bound_arg("T", "Display")]),
    });
    let out = auto_trait(Some(target), simple_decl()).unwrap();
    match &out.impls[0].methods[0].body {
        ImplBody::Generated(call) => {
            // No self-referential bound: the target itself is forwarded to.
            assert_eq!(call.callee.name, s("Box"));
            assert_eq!(call.callee.args, ArgList::Angle(vec![GenericArg::Opaque(s("T"))]));
        },
        ImplBody::Kept(_) => panic!("expected a generated body"),
    }
}

#[test]
fn non_path_primary_target_is_unsupported() {
    assert_eq!(
        auto_trait(Some(TypeExpr::Opaque(s("fn(u32) -> u32"))), simple_decl()),
        Err(GenError::UnsupportedTargetType)
    );
}

#[test]
fn parenthesized_primary_target_is_unsupported() {
    let target = TypeExpr::Paren(ParenInner::Path(PathType {
        prefix: Vec::new(),
        name: s("Wrapper"),
        args: ArgList::Absent,
    }));
    assert_eq!(auto_trait(Some(target), simple_decl()), Err(GenError::UnsupportedTargetType));
}

#[test]
fn function_style_argument_list_is_unsupported() {
    let target = TypeExpr::Path(PathType {
        prefix: Vec::new(),
        name: s("Fn"),
        args: ArgList::Paren(s("(u32) -> u32")),
    });
    assert_eq!(auto_trait(Some(target), simple_decl()), Err(GenError::UnsupportedTargetType));
}

#[test]
fn doubly_parenthesized_secondary_is_unsupported() {
    let mut decl = simple_decl();
    decl.attrs.push(TraitAttr::Target(Some(TypeExpr::Paren(ParenInner::Opaque(s("(Wrapper)"))))));
    assert_eq!(
        auto_trait(Some(ident_type("Wrapper")), decl),
        Err(GenError::UnsupportedTargetType)
    );
}

#[test]
fn first_failing_target_decides_the_error() {
    let ambiguous = TypeExpr::Path(PathType {
        prefix: Vec::new(),
        name: s("Pair"),
        args: ArgList::Angle(vec![bound_arg("A", "Lolka"), bound_arg("B", "Lolka")]),
    });
    let mut decl = simple_decl();
    decl.attrs.push(TraitAttr::Target(Some(TypeExpr::Opaque(s("fn()")))));
    // The ambiguous primary is examined before the unsupported secondary.
    assert_eq!(auto_trait(Some(ambiguous), decl), Err(GenError::AmbiguousForwardTarget));
}
