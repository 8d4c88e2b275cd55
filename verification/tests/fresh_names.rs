use qsc_passes::assigner::{Assigner, NodeId};
use qsc_passes::common::{create_gen_core_ref, push_decimal, IdentTemplate};
use qsc_passes::ty::{LocalItemId, PackageId};
use qsc_passes::global::{substitute_in, Scheme, Table, Term};
use qsc_passes::hir::{ExprKind, Mutability, PatKind, Res, StmtKind};
use qsc_passes::span::Span;
use qsc_passes::ty::{CallableKind, FunctorSetValue, GenericArg, ItemId, Prim, Ty};

fn decimal(n: u32) -> String {
    let mut text = String::new();
    push_decimal(&mut text, n);
    text
}

#[test]
fn decimal_has_no_leading_zeros() {
    assert_eq!(decimal(0), "0");
    assert_eq!(decimal(7), "7");
    assert_eq!(decimal(10), "10");
    assert_eq!(decimal(1905), "1905");
    assert_eq!(decimal(4294967294), "4294967294");
}

#[test]
fn decimal_is_appended() {
    let mut text = "index_id_".to_string();
    push_decimal(&mut text, 19);
    assert_eq!(text, "index_id_19");
}

#[test]
fn allocator_hands_out_each_identity_once() {
    let mut assigner = Assigner::new();
    assert_eq!(assigner.next_id(), NodeId(0));
    assert_eq!(assigner.next_id(), NodeId(1));
    assert_eq!(assigner.next_id(), NodeId(2));
    assert_eq!(assigner.remaining(), u32::MAX - 3);
    let mut later = Assigner::starting_at(NodeId(40));
    assert_eq!(later.next_id(), NodeId(40));
    assert_eq!(NodeId(40).successor(), NodeId(41));
    assert!(NodeId::default().is_default());
    assert!(!NodeId(0).is_default());
}

#[test]
fn fresh_local_is_named_by_role_and_identity() {
    let mut assigner = Assigner::starting_at(NodeId(17));
    let span = Span { lo: 75, hi: 78 };
    let local = IdentTemplate::new(&mut assigner, "array_id", Ty::Prim(Prim::Int), span);
    assert_eq!(local.id, NodeId(17));
    assert_eq!(local.name, "array_id_17");
    assert_eq!(local.span, span);
    assert_eq!(assigner.remaining(), u32::MAX - 18);

    let pat = local.gen_pat();
    assert!(pat.id.is_default());
    assert_eq!(pat.span, span);
    let PatKind::Bind(name) = &pat.kind else { panic!("a binding") };
    assert_eq!((name.id, name.name.as_str()), (NodeId(17), "array_id_17"));

    let reference = local.gen_local_ref();
    assert!(reference.id.is_default());
    assert!(matches!(&reference.kind, ExprKind::Var(Res::Local(NodeId(17)), args) if args.is_empty()));

    let init = local.gen_id_init(Mutability::Mutable, local.gen_local_ref());
    assert!(init.id.is_default());
    assert_eq!(init.span, span);
    assert!(matches!(&init.kind, StmtKind::Local(Mutability::Mutable, _, _)));
}

fn length() -> Term {
    Term {
        namespace: "Microsoft.Quantum.Core".to_string(),
        name: "Length".to_string(),
        id: ItemId { package: Some(PackageId(0)), item: LocalItemId(1) },
        scheme: Scheme {
            params: 1,
            ty: Ty::Arrow(
                CallableKind::Function,
                Box::new(Ty::Array(Box::new(Ty::Param(0)))),
                Box::new(Ty::Prim(Prim::Int)),
                FunctorSetValue::Empty,
            ),
        },
    }
}

fn shadow() -> Term {
    Term {
        namespace: "Microsoft.Quantum.Core".to_string(),
        name: "Length".to_string(),
        id: ItemId { package: Some(PackageId(0)), item: LocalItemId(9) },
        scheme: Scheme { params: 0, ty: Ty::Prim(Prim::Int) },
    }
}

#[test]
fn table_finds_the_first_entry_with_namespace_and_name() {
    let table = Table { terms: vec![length(), shadow()] };
    let found = table.resolve_term("Microsoft.Quantum.Core", "Length").unwrap();
    assert_eq!(found.id.item, LocalItemId(1));
    assert!(table.resolve_term("Microsoft.Quantum.Core", "Len").is_none());
    assert!(table.resolve_term("Microsoft.Quantum", "Length").is_none());
    assert!(Table { terms: Vec::new() }.resolve_term("Microsoft.Quantum.Core", "Length").is_none());
}

#[test]
fn scheme_puts_arguments_for_parameters() {
    let scheme = length().scheme;
    let at_int = scheme.instantiate(&vec![GenericArg::Ty(Ty::Prim(Prim::Int))]).unwrap();
    assert_eq!(
        format!("{at_int:?}"),
        "Arrow(Function, Array(Prim(Int)), Prim(Int), Empty)"
    );
    let pair = Ty::Tuple(vec![Ty::Prim(Prim::Int), Ty::Prim(Prim::Double)]);
    let at_pair = scheme.instantiate(&vec![GenericArg::Ty(pair)]).unwrap();
    assert_eq!(
        format!("{at_pair:?}"),
        "Arrow(Function, Array(Tuple([Prim(Int), Prim(Double)])), Prim(Int), Empty)"
    );
}

#[test]
fn scheme_refuses_arguments_that_do_not_fit() {
    let scheme = length().scheme;
    assert!(scheme.instantiate(&Vec::new()).is_none());
    assert!(scheme
        .instantiate(&vec![GenericArg::Ty(Ty::Prim(Prim::Int)), GenericArg::Ty(Ty::Prim(Prim::Int))])
        .is_none());
    assert!(scheme.instantiate(&vec![GenericArg::Functor(FunctorSetValue::Adj)]).is_none());
}

#[test]
fn substitution_leaves_a_parameter_without_argument() {
    let ty = Ty::Tuple(vec![Ty::Param(0), Ty::Param(1), Ty::Udt(ItemId { package: None, item: LocalItemId(2) })]);
    let result = substitute_in(&ty, &vec![Ty::Prim(Prim::Bool)]);
    assert_eq!(
        format!("{result:?}"),
        "Tuple([Prim(Bool), Param(1), Udt(ItemId { package: None, item: LocalItemId(2) })])"
    );
}

#[test]
fn core_reference_carries_the_instantiated_type() {
    let table = Table { terms: vec![length()] };
    let span = Span { lo: 75, hi: 78 };
    let callee = create_gen_core_ref(
        &table,
        "Microsoft.Quantum.Core",
        "Length",
        vec![GenericArg::Ty(Ty::Prim(Prim::Int))],
        span,
    )
    .unwrap();
    assert!(callee.id.is_default());
    assert_eq!(callee.span, span);
    assert_eq!(format!("{:?}", callee.ty), "Arrow(Function, Array(Prim(Int)), Prim(Int), Empty)");
    assert!(matches!(
        &callee.kind,
        ExprKind::Var(Res::Item(ItemId { package: Some(PackageId(0)), item: LocalItemId(1) }), args)
            if args.len() == 1
    ));
    assert!(create_gen_core_ref(&table, "Microsoft.Quantum.Core", "Size", Vec::new(), span).is_none());
    assert!(create_gen_core_ref(&table, "Microsoft.Quantum.Core", "Length", Vec::new(), span).is_none());
}

#[test]
fn type_clone_is_equal_in_every_part() {
    let ty = Ty::Arrow(
        CallableKind::Operation,
        Box::new(Ty::Tuple(vec![Ty::Array(Box::new(Ty::Prim(Prim::Qubit))), Ty::Param(3)])),
        Box::new(Ty::Tuple(Vec::new())),
        FunctorSetValue::CtlAdj,
    );
    assert_eq!(format!("{:?}", ty.clone()), format!("{ty:?}"));
    assert_eq!(format!("{:?}", Ty::unit()), "Tuple([])");
}

#[test]
fn span_contains_its_start_but_not_its_end() {
    let span = Span { lo: 3, hi: 6 };
    assert!(span.contains(3));
    assert!(span.contains(5));
    assert!(!span.contains(6));
    assert!(!span.contains(2));
}
