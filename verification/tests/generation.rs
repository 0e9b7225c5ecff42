use auto_trait::ast::{
    ArgList, Bound, ForwardArg, GenericArg, ImplBody, Method, Param, ParenInner, PathType,
    TraitAttr, TraitDecl, TraitItem, TypeExpr,
};
use auto_trait::auto_trait;
use auto_trait::Receiver;

fn s(x: &str) -> String {
    x.to_string()
}

fn ident_type(name: &str) -> TypeExpr {
    TypeExpr::Path(PathType { prefix: Vec::new(), name: s(name), args: ArgList::Absent })
}

fn method(name: &str, receiver: Receiver) -> Method {
    Method { name: s(name), receiver, params: Vec::new(), body: None }
}

fn boxed_target() -> TypeExpr {
    TypeExpr::Path(PathType {
        prefix: Vec::new(),
        name: s("Box"),
        args: ArgList::Angle(vec![GenericArg::Constraint {
            ident: s("T"),
            bounds: vec![
                Bound { name: s("Lolka"), plain: true },
                Bound { name: s("From<Box<T>>"), plain: false },
            ],
        }]),
    })
}

fn lolka_decl() -> TraitDecl {
    TraitDecl {
        name: s("Lolka"),
        generics: Vec::new(),
        attrs: Vec::new(),
        items: vec![
            TraitItem::Method(method("lolka", Receiver::Static)),
            TraitItem::Method(method("lolka_ref", Receiver::ByRef)),
            TraitItem::Method(method("lolka_mut", Receiver::ByMutRef)),
            TraitItem::Method(method("lolka_self", Receiver::ByValue)),
        ],
    }
}

#[test]
fn example_scenario_forwards_through_bound_parameter() {
    let out = auto_trait(Some(boxed_target()), lolka_decl()).unwrap();

    assert_eq!(out.decl, lolka_decl());
    assert_eq!(out.impls.len(), 1);

    let block = &out.impls[0];
    assert_eq!(block.trait_name, s("Lolka"));
    // The header keeps the argument list as written, bounds and all.
    assert_eq!(
        block.generics,
        Some(vec![GenericArg::Constraint {
            ident: s("T"),
            bounds: vec![
                Bound { name: s("Lolka"), plain: true },
                Bound { name: s("From<Box<T>>"), plain: false },
            ],
        }])
    );
    // The target rewrites the constrained argument to a plain parameter.
    assert_eq!(
        block.target,
        PathType {
            prefix: Vec::new(),
            name: s("Box"),
            args: ArgList::Angle(vec![GenericArg::Opaque(s("T"))]),
        }
    );

    assert_eq!(block.methods.len(), 4);
    let callee = PathType { prefix: Vec::new(), name: s("T"), args: ArgList::Absent };
    for (i, (name, args)) in [
        ("lolka", Vec::new()),
        ("lolka_ref", vec![ForwardArg::Deref]),
        ("lolka_mut", vec![ForwardArg::DerefMut]),
        ("lolka_self", vec![ForwardArg::Convert]),
    ]
    .into_iter()
    .enumerate()
    {
        let m = &block.methods[i];
        assert_eq!(m.name, s(name));
        match &m.body {
            ImplBody::Generated(call) => {
                assert_eq!(call.callee, callee);
                assert_eq!(call.method, s(name));
                assert_eq!(call.args, args);
            },
            ImplBody::Kept(_) => panic!("expected a generated body for {}", name),
        }
    }
}

#[test]
fn primary_and_parenthesized_secondary_make_two_blocks_in_order() {
    let mut decl = lolka_decl();
    decl.attrs.push(TraitAttr::Target(Some(TypeExpr::Paren(ParenInner::Path(PathType {
        prefix: Vec::new(),
        name: s("Wrapper"),
        args: ArgList::Absent,
    })))));

    let out = auto_trait(Some(boxed_target()), decl).unwrap();
    assert_eq!(out.impls.len(), 2);
    assert_eq!(out.impls[0].target.name, s("Box"));
    assert_eq!(out.impls[1].target.name, s("Wrapper"));
    assert!(out.decl.attrs.is_empty());

    // Without a bound parameter the target itself is the forward target.
    match &out.impls[1].methods[1].body {
        ImplBody::Generated(call) => {
            assert_eq!(call.callee.name, s("Wrapper"));
            assert_eq!(call.args, vec![ForwardArg::Deref]);
        },
        ImplBody::Kept(_) => panic!("expected a generated body"),
    }
}

#[test]
fn pre_existing_body_is_never_overwritten() {
    let mut decl = lolka_decl();
    let with_body = Method {
        name: s("ready"),
        receiver: Receiver::ByRef,
        params: Vec::new(),
        body: Some(s("{ 42 }")),
    };
    decl.items.push(TraitItem::Method(with_body));

    let out = auto_trait(Some(boxed_target()), decl).unwrap();
    let m = &out.impls[0].methods[4];
    assert_eq!(m.name, s("ready"));
    assert_eq!(m.body, ImplBody::Kept(s("{ 42 }")));
}

#[test]
fn declared_parameters_are_passed_by_identifier_in_order() {
    let mut decl = lolka_decl();
    decl.items = vec![TraitItem::Method(Method {
        name: s("blend"),
        receiver: Receiver::ByMutRef,
        params: vec![
            Param { name: s("amount"), ty: s("u32") },
            Param { name: s("label"), ty: s("&str") },
        ],
        body: None,
    })];

    let out = auto_trait(Some(boxed_target()), decl).unwrap();
    match &out.impls[0].methods[0].body {
        ImplBody::Generated(call) => {
            assert_eq!(
                call.args,
                vec![
                    ForwardArg::DerefMut,
                    ForwardArg::Named(s("amount")),
                    ForwardArg::Named(s("label")),
                ]
            );
        },
        ImplBody::Kept(_) => panic!("expected a generated body"),
    }
}

#[test]
fn static_method_forwards_without_a_receiver_argument() {
    let mut decl = lolka_decl();
    decl.items = vec![TraitItem::Method(Method {
        name: s("make"),
        receiver: Receiver::Static,
        params: vec![Param { name: s("seed"), ty: s("u32") }],
        body: None,
    })];

    let out = auto_trait(Some(boxed_target()), decl).unwrap();
    match &out.impls[0].methods[0].body {
        ImplBody::Generated(call) => {
            assert_eq!(call.method, s("make"));
            assert_eq!(call.args, vec![ForwardArg::Named(s("seed"))]);
        },
        ImplBody::Kept(_) => panic!("expected a generated body"),
    }
}

#[test]
fn stripping_consumed_annotations_is_idempotent() {
    let mut decl = lolka_decl();
    decl.attrs.push(TraitAttr::Other(s("#[allow(dead_code)]")));
    decl.attrs.push(TraitAttr::Target(Some(ident_type("Wrapper"))));
    decl.attrs.push(TraitAttr::Other(s("#[doc = \"d\"]")));

    let expected = {
        let mut d = lolka_decl();
        d.attrs = vec![
            TraitAttr::Other(s("#[allow(dead_code)]")),
            TraitAttr::Other(s("#[doc = \"d\"]")),
        ];
        d
    };

    let out = auto_trait(Some(boxed_target()), decl).unwrap();
    assert_eq!(out.decl, expected);

    let again = auto_trait(Some(ident_type("Wrapper")), out.decl).unwrap();
    assert_eq!(again.decl, expected);
    assert_eq!(again.impls.len(), 1);
}

#[test]
fn opaque_arguments_and_unmatched_constraints_are_kept_in_order() {
    let target = TypeExpr::Path(PathType {
        prefix: vec![s("alloc"), s("sync")],
        name: s("Arc"),
        args: ArgList::Angle(vec![
            GenericArg::Opaque(s("u32")),
            GenericArg::Constraint {
                ident: s("S"),
                bounds: vec![Bound { name: s("Clone"), plain: true }],
            },
            GenericArg::Constraint {
                ident: s("T"),
                bounds: vec![Bound { name: s("Lolka"), plain: true }],
            },
        ]),
    });

    let out = auto_trait(Some(target), lolka_decl()).unwrap();
    let block = &out.impls[0];
    assert_eq!(block.target.prefix, vec![s("alloc"), s("sync")]);
    assert_eq!(
        block.target.args,
        ArgList::Angle(vec![
            GenericArg::Opaque(s("u32")),
            GenericArg::Opaque(s("S")),
            GenericArg::Opaque(s("T")),
        ])
    );
    match &block.methods[1].body {
        ImplBody::Generated(call) => assert_eq!(call.callee.name, s("T")),
        ImplBody::Kept(_) => panic!("expected a generated body"),
    }
}
