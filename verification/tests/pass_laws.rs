use qsc_passes::assigner::{Assigner, NodeId};
use qsc_passes::ty::{LocalItemId, PackageId};
use qsc_passes::global::{Scheme, Table, Term};
use qsc_passes::hir::{
    Block, Expr, ExprKind, Ident, Item, ItemKind, Lit, Mutability, Package, Pat, PatKind, Res,
    Stmt, StmtKind, StringComponent, Visibility,
};
use qsc_passes::loop_unification::{InternalError, LoopUni};
use qsc_passes::span::Span;
use qsc_passes::ty::{CallableKind, FunctorSetValue, ItemId, Prim, Ty};

// The core library as far as the pass needs it: `Length`, for arrays of any
// item type.
fn core_table() -> Table {
    Table {
        terms: vec![Term {
            namespace: "Microsoft.Quantum.Core".to_string(),
            name: "Length".to_string(),
            id: ItemId { package: Some(PackageId(0)), item: LocalItemId(1) },
            scheme: Scheme {
                params: 1,
                ty: Ty::Arrow(
                    CallableKind::Function,
                    Box::new(Ty::Array(Box::new(Ty::Param(0)))),
                    Box::new(Ty::Prim(Prim::Int)),
                    FunctorSetValue::Empty,
                ),
            },
        }],
    }
}

// Builders for trees.

fn sp(lo: u32, hi: u32) -> Span {
    Span { lo, hi }
}

fn int_ty() -> Ty {
    Ty::Prim(Prim::Int)
}

fn unit_ty() -> Ty {
    Ty::Tuple(Vec::new())
}

fn array_of(item: Ty) -> Ty {
    Ty::Array(Box::new(item))
}

fn name(id: u32, span: Span, text: &str) -> Ident {
    Ident { id: NodeId(id), span, name: text.to_string() }
}

fn bind(id: u32, span: Span, ty: Ty, ident_id: u32, text: &str) -> Pat {
    Pat { id: NodeId(id), span, ty, kind: PatKind::Bind(name(ident_id, span, text)) }
}

// The parameter `arr`, whose pattern covers its type as well.
fn arr_input(span: Span, ty: Ty) -> Pat {
    Pat { id: NodeId(2), span, ty, kind: PatKind::Bind(name(3, sp(36, 39), "arr")) }
}

fn ex(id: u32, span: Span, ty: Ty, kind: ExprKind) -> Expr {
    Expr { id: NodeId(id), span, ty, kind }
}

fn local(id: u32, span: Span, ty: Ty, node: u32) -> Expr {
    ex(id, span, ty, ExprKind::Var(Res::Local(NodeId(node)), Vec::new()))
}

fn lit_int(id: u32, span: Span, value: i64) -> Expr {
    ex(id, span, int_ty(), ExprKind::Lit(Lit::Int(value)))
}

fn lit_bool(id: u32, span: Span, value: bool) -> Expr {
    ex(id, span, Ty::Prim(Prim::Bool), ExprKind::Lit(Lit::Bool(value)))
}

fn text(id: u32, span: Span, value: &str) -> Expr {
    ex(
        id,
        span,
        Ty::Prim(Prim::String),
        ExprKind::String(vec![StringComponent::Lit(value.to_string())]),
    )
}

fn st(id: u32, span: Span, kind: StmtKind) -> Stmt {
    Stmt { id: NodeId(id), span, kind }
}

fn blk(id: u32, span: Span, stmts: Vec<Stmt>) -> Block {
    Block { id: NodeId(id), span, ty: unit_ty(), stmts }
}


// Everything of a tree that a test looks at, written out node by node.
fn show(e: &Expr) -> String {
    format!("{e:?}")
}

fn count(haystack: &str, needle: &str) -> usize {
    haystack.matches(needle).count()
}

fn string_ty() -> Ty {
    Ty::Prim(Prim::String)
}

fn body_with(id: u32, stmts: Vec<Stmt>) -> Block {
    blk(id, sp(79, 125), stmts)
}

fn hello(first: u32) -> Stmt {
    st(
        first,
        sp(93, 115),
        StmtKind::Local(
            Mutability::Immutable,
            bind(first + 1, sp(97, 98), string_ty(), first + 2, "x"),
            text(first + 3, sp(101, 114), "Hello World"),
        ),
    )
}

// `for i in arr { let x = "Hello World"; }` with identities from `first` on.
fn for_over(first: u32, iterable: Expr, body: Vec<Stmt>) -> Expr {
    ex(
        first,
        sp(66, 125),
        unit_ty(),
        ExprKind::For(
            bind(first + 1, sp(70, 71), int_ty(), first + 2, "i"),
            Box::new(iterable),
            body_with(first + 3, body),
        ),
    )
}

fn arr(id: u32) -> Expr {
    local(id, sp(75, 78), array_of(int_ty()), 3)
}

fn repeat(first: u32, until: Expr, body: Vec<Stmt>) -> Expr {
    ex(first, sp(55, 119), unit_ty(), ExprKind::Repeat(body_with(first + 1, body), Box::new(until), None))
}

fn package_of(e: Expr) -> Package {
    Package { items: Vec::new(), entry: Some(e) }
}

fn lower(mut e: Expr, next: u32) -> (Expr, Assigner) {
    let table = core_table();
    let mut assigner = Assigner::starting_at(NodeId(next));
    LoopUni { core: &table, assigner: &mut assigner }.visit_expr(&mut e);
    (e, assigner)
}

#[test]
fn lowering_twice_changes_nothing_more() {
    let source = for_over(
        7,
        arr(20),
        vec![st(30, sp(90, 120), StmtKind::Expr(repeat(31, lit_bool(40, sp(115, 119), true), vec![hello(41)])))],
    );
    let (once, assigner) = lower(source, 100);
    assert_eq!(assigner.remaining(), u32::MAX - 104);
    let before = show(&once);
    let (twice, assigner) = lower(once, 104);
    assert_eq!(show(&twice), before);
    assert_eq!(assigner.remaining(), u32::MAX - 104);
}

#[test]
fn result_holds_no_for_and_no_repeat() {
    let source = for_over(
        7,
        arr(20),
        vec![st(30, sp(90, 120), StmtKind::Expr(repeat(31, lit_bool(40, sp(115, 119), true), vec![hello(41)])))],
    );
    assert_eq!(count(&show(&source), "kind: For("), 1);
    assert_eq!(count(&show(&source), "kind: Repeat("), 1);
    let (lowered, _) = lower(source, 100);
    assert_eq!(count(&show(&lowered), "kind: For("), 0);
    assert_eq!(count(&show(&lowered), "kind: Repeat("), 0);
    assert_eq!(count(&show(&lowered), "kind: While("), 2);
}

#[test]
fn same_tree_and_same_allocator_give_the_same_result() {
    let source = || for_over(7, arr(20), vec![hello(41)]);
    let (first, first_assigner) = lower(source(), 17);
    let (second, second_assigner) = lower(source(), 17);
    assert_eq!(show(&first), show(&second));
    assert_eq!(first_assigner.remaining(), second_assigner.remaining());
    let (third, _) = lower(source(), 18);
    assert_ne!(show(&first), show(&third));
}

#[test]
fn iterable_occurs_once_after_lowering() {
    let iterable = local(4242, sp(75, 78), array_of(int_ty()), 3);
    let (lowered, _) = lower(for_over(7, iterable, vec![hello(41), hello(51), hello(61)]), 100);
    assert_eq!(count(&show(&lowered), "id: NodeId(4242)"), 1);
}

#[test]
fn until_occurs_once_after_lowering() {
    let until = lit_bool(4242, sp(115, 119), true);
    let (lowered, _) = lower(repeat(31, until, vec![hello(41)]), 100);
    assert_eq!(count(&show(&lowered), "id: NodeId(4242)"), 1);
}

#[test]
fn inner_loop_gets_its_identities_before_the_outer_one() {
    // for i in arr { repeat { .. } until true; }
    let inner = repeat(31, lit_bool(40, sp(115, 119), true), vec![hello(41)]);
    let source = for_over(7, arr(20), vec![st(30, sp(90, 120), StmtKind::Semi(inner))]);
    let (lowered, assigner) = lower(source, 100);
    let text = show(&lowered);
    for name in ["continue_cond_100", "array_id_101", "len_id_102", "index_id_103"] {
        assert_eq!(count(&text, &format!("name: \"{name}\"")), 1, "{name}");
    }
    assert_eq!(assigner.remaining(), u32::MAX - 104);
}

#[test]
fn outer_loop_in_a_repeat_gets_its_identity_last() {
    // repeat { for i in arr { .. } } until true
    let inner = for_over(7, arr(20), vec![hello(41)]);
    let source = repeat(
        31,
        lit_bool(40, sp(115, 119), true),
        vec![st(30, sp(90, 120), StmtKind::Expr(inner))],
    );
    let (lowered, _) = lower(source, 100);
    let text = show(&lowered);
    for name in ["array_id_100", "len_id_101", "index_id_102", "continue_cond_103"] {
        assert_eq!(count(&text, &format!("name: \"{name}\"")), 1, "{name}");
    }
}

#[test]
fn untouched_nodes_keep_identity_span_and_type() {
    let source = for_over(7, arr(20), vec![hello(41)]);
    let (lowered, _) = lower(source, 100);
    let text = show(&lowered);
    let kept = show(&Expr {
        id: NodeId(44),
        span: sp(101, 114),
        ty: string_ty(),
        kind: ExprKind::String(vec![StringComponent::Lit("Hello World".to_string())]),
    });
    assert_eq!(count(&text, &kept), 1);
    assert_eq!(count(&text, &show(&arr(20))), 1);
}

#[test]
fn check_accepts_what_the_pass_can_lower() {
    let table = core_table();
    let mut assigner = Assigner::starting_at(NodeId(17));
    let package = package_of(for_over(7, arr(20), vec![hello(41)]));
    let pass = LoopUni { core: &table, assigner: &mut assigner };
    assert_eq!(pass.check_package(&package), Ok(()));
}

#[test]
fn check_refuses_a_for_over_an_integer() {
    let table = core_table();
    let mut assigner = Assigner::starting_at(NodeId(17));
    let package = package_of(for_over(7, local(20, sp(75, 78), int_ty(), 3), vec![hello(41)]));
    let pass = LoopUni { core: &table, assigner: &mut assigner };
    assert_eq!(pass.check_package(&package), Err(InternalError::MalformedLoop));
}

#[test]
fn check_refuses_a_for_over_a_loop() {
    let table = core_table();
    let mut assigner = Assigner::starting_at(NodeId(17));
    let mut inner = repeat(31, lit_bool(40, sp(115, 119), true), vec![]);
    inner.ty = array_of(int_ty());
    let package = package_of(for_over(7, inner, vec![]));
    let pass = LoopUni { core: &table, assigner: &mut assigner };
    assert_eq!(pass.check_package(&package), Err(InternalError::MalformedLoop));
}

#[test]
fn check_refuses_an_until_that_is_no_boolean() {
    let table = core_table();
    let mut assigner = Assigner::starting_at(NodeId(17));
    let package = package_of(repeat(31, lit_int(40, sp(115, 116), 1), vec![hello(41)]));
    let pass = LoopUni { core: &table, assigner: &mut assigner };
    assert_eq!(pass.check_package(&package), Err(InternalError::MalformedLoop));
}

#[test]
fn check_refuses_an_array_loop_without_length() {
    let table = Table { terms: Vec::new() };
    let mut assigner = Assigner::starting_at(NodeId(17));
    let package = package_of(for_over(7, arr(20), vec![hello(41)]));
    let pass = LoopUni { core: &table, assigner: &mut assigner };
    assert_eq!(pass.check_package(&package), Err(InternalError::MalformedLoop));
}

#[test]
fn check_needs_no_length_for_a_range_loop() {
    let table = Table { terms: Vec::new() };
    let mut assigner = Assigner::starting_at(NodeId(17));
    let range = ex(
        20,
        sp(64, 68),
        Ty::Prim(Prim::Range),
        ExprKind::Range(
            Some(Box::new(lit_int(21, sp(64, 65), 0))),
            None,
            Some(Box::new(lit_int(22, sp(67, 68), 4))),
        ),
    );
    let package = package_of(for_over(7, range, vec![hello(41)]));
    let pass = LoopUni { core: &table, assigner: &mut assigner };
    assert_eq!(pass.check_package(&package), Ok(()));
}

#[test]
fn check_counts_the_identities_that_are_left() {
    let table = core_table();
    let package = package_of(for_over(7, arr(20), vec![hello(41)]));
    // Three identities are needed: u32::MAX - 3 is the last state that has them.
    let mut enough = Assigner::starting_at(NodeId(u32::MAX - 3));
    let pass = LoopUni { core: &table, assigner: &mut enough };
    assert_eq!(pass.check_package(&package), Ok(()));
    let mut short = Assigner::starting_at(NodeId(u32::MAX - 2));
    let pass = LoopUni { core: &table, assigner: &mut short };
    assert_eq!(pass.check_package(&package), Err(InternalError::OutOfIdentities));
}

#[test]
fn run_lowers_what_check_accepts() {
    let table = core_table();
    let mut assigner = Assigner::starting_at(NodeId(17));
    let mut package = package_of(for_over(7, arr(20), vec![hello(41)]));
    let result = LoopUni { core: &table, assigner: &mut assigner }.run(&mut package);
    assert_eq!(result, Ok(()));
    assert_eq!(assigner.remaining(), u32::MAX - 20);
    let text = format!("{package:?}");
    assert_eq!(count(&text, "kind: For("), 0);
    assert_eq!(count(&text, "name: \"array_id_17\""), 1);
    assert_eq!(count(&text, "name: \"len_id_18\""), 1);
    assert_eq!(count(&text, "name: \"index_id_19\""), 1);
}

#[test]
fn run_changes_nothing_when_it_refuses() {
    let table = core_table();
    let mut assigner = Assigner::starting_at(NodeId(17));
    let source = || {
        package_of(for_over(
            7,
            arr(20),
            vec![st(30, sp(90, 120), StmtKind::Expr(repeat(31, lit_int(40, sp(115, 116), 1), vec![])))],
        ))
    };
    let mut package = source();
    let result = LoopUni { core: &table, assigner: &mut assigner }.run(&mut package);
    assert_eq!(result, Err(InternalError::MalformedLoop));
    assert_eq!(format!("{package:?}"), format!("{:?}", source()));
    assert_eq!(assigner.remaining(), u32::MAX - 17);
}

#[test]
fn package_is_lowered_item_by_item_then_its_entry() {
    let table = core_table();
    let mut assigner = Assigner::starting_at(NodeId(50));
    let callable = |id: u32, body: Block| Item {
        id: LocalItemId(id as usize),
        span: sp(0, 10),
        parent: None,
        visibility: Visibility::Public,
        kind: ItemKind::Callable(qsc_passes::hir::CallableDecl {
            id: NodeId(id),
            span: sp(0, 10),
            kind: CallableKind::Operation,
            name: name(id + 1, sp(1, 2), "Op"),
            input: Pat { id: NodeId(id + 2), span: sp(2, 4), ty: unit_ty(), kind: PatKind::Tuple(Vec::new()) },
            output: unit_ty(),
            functors: FunctorSetValue::Empty,
            body: qsc_passes::hir::SpecDecl {
                id: NodeId(id + 3),
                span: sp(0, 10),
                body: qsc_passes::hir::SpecBody::Impl(None, body),
            },
            adj: None,
            ctl: None,
            ctl_adj: None,
        }),
    };
    let loop_stmt = |first: u32| st(first, sp(5, 9), StmtKind::Expr(repeat(first + 1, lit_bool(first + 3, sp(7, 8), true), vec![])));
    let mut package = Package {
        items: vec![
            callable(0, blk(4, sp(4, 10), vec![loop_stmt(5)])),
            callable(10, blk(14, sp(4, 10), vec![loop_stmt(15)])),
        ],
        entry: Some(repeat(31, lit_bool(40, sp(115, 119), true), vec![])),
    };
    LoopUni { core: &table, assigner: &mut assigner }.visit_package(&mut package);
    let first = format!("{:?}", package.items[0]);
    let second = format!("{:?}", package.items[1]);
    let entry = format!("{:?}", package.entry);
    assert_eq!(count(&first, "continue_cond_50"), 1);
    assert_eq!(count(&second, "continue_cond_51"), 1);
    assert_eq!(count(&entry, "continue_cond_52"), 1);
    assert_eq!(assigner.remaining(), u32::MAX - 53);
}

#[test]
fn block_and_statement_are_lowered_in_place() {
    let table = core_table();
    let mut assigner = Assigner::starting_at(NodeId(50));
    let mut block = blk(
        4,
        sp(4, 10),
        vec![st(5, sp(5, 9), StmtKind::Expr(repeat(6, lit_bool(8, sp(7, 8), true), vec![])))],
    );
    LoopUni { core: &table, assigner: &mut assigner }.visit_block(&mut block);
    assert_eq!(count(&format!("{block:?}"), "continue_cond_50"), 1);
    assert_eq!(block.id, NodeId(4));
    let mut stmt = st(5, sp(5, 9), StmtKind::Semi(repeat(6, lit_bool(8, sp(7, 8), true), vec![])));
    LoopUni { core: &table, assigner: &mut assigner }.visit_stmt(&mut stmt);
    assert_eq!(count(&format!("{stmt:?}"), "continue_cond_51"), 1);
    assert!(matches!(stmt.kind, StmtKind::Semi(_)));
}

#[test]
fn literal_and_name_are_left_alone() {
    let (lowered, assigner) = lower(lit_int(1, sp(0, 1), 5), 9);
    assert_eq!(show(&lowered), show(&lit_int(1, sp(0, 1), 5)));
    assert_eq!(assigner.remaining(), u32::MAX - 9);
    let (lowered, _) = lower(arr(2), 9);
    assert_eq!(show(&lowered), show(&arr(2)));
    let _ = (Res::Invalid, Lit::Bool(true), Ident { id: NodeId(0), span: sp(0, 0), name: String::new() });
}
