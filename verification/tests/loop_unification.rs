use qsc_passes::assigner::{Assigner, NodeId};
use qsc_passes::ty::{LocalItemId, PackageId};
use qsc_passes::global::{Scheme, Table, Term};
use qsc_passes::hir::{
    BinOp, Block, CallableDecl, Expr, ExprKind, Field, Ident, Item, ItemKind, Lit, Mutability,
    Package, Pat, PatKind, PrimField, Res, SpecBody, SpecDecl, Stmt, StmtKind, StringComponent,
    UnOp, Visibility,
};
use qsc_passes::loop_unification::LoopUni;
use qsc_passes::span::Span;
use qsc_passes::ty::{CallableKind, FunctorSetValue, GenericArg, ItemId, Prim, Ty};

// The core library as far as the pass needs it: `Length`, for arrays of any
// item type.
fn core_table() -> Table {
    Table {
        terms: vec![Term {
            namespace: "Microsoft.Quantum.Core".to_string(),
            name: "Length".to_string(),
            id: ItemId { package: Some(PackageId(0)), item: LocalItemId(1) },
            scheme: Scheme {
                params: 1,
                ty: Ty::Arrow(
                    CallableKind::Function,
                    Box::new(Ty::Array(Box::new(Ty::Param(0)))),
                    Box::new(Ty::Prim(Prim::Int)),
                    FunctorSetValue::Empty,
                ),
            },
        }],
    }
}

// Rendering of a tree, one node per line, children indented by four spaces.

struct Out {
    text: String,
    level: usize,
}

impl Out {
    fn new() -> Self {
        Out { text: String::new(), level: 0 }
    }

    fn put(&mut self, s: &str) {
        self.text.push_str(s);
    }

    fn line(&mut self) {
        self.text.push('\n');
        for _ in 0..self.level {
            self.text.push_str("    ");
        }
    }
}

fn id_text(id: NodeId) -> String {
    if id.0 == u32::MAX {
        "_id_".to_string()
    } else {
        id.0.to_string()
    }
}

fn span_text(span: Span) -> String {
    format!("[{}-{}]", span.lo, span.hi)
}

fn ty_text(ty: &Ty) -> String {
    match ty {
        Ty::Array(item) => format!("({})[]", ty_text(item)),
        Ty::Arrow(kind, input, output, functors) => {
            let arrow = match kind {
                CallableKind::Function => "->",
                CallableKind::Operation => "=>",
            };
            let is = match functors {
                FunctorSetValue::Empty => "",
                FunctorSetValue::Adj => " is Adj",
                FunctorSetValue::Ctl => " is Ctl",
                FunctorSetValue::CtlAdj => " is Adj + Ctl",
            };
            format!("({} {} {}{})", ty_text(input), arrow, ty_text(output), is)
        }
        Ty::Param(index) => format!("Param<{index}>"),
        Ty::Prim(prim) => format!("{prim:?}"),
        Ty::Tuple(items) => {
            if items.is_empty() {
                "Unit".to_string()
            } else if items.len() == 1 {
                format!("({},)", ty_text(&items[0]))
            } else {
                let parts: Vec<String> = items.iter().map(ty_text).collect();
                format!("({})", parts.join(", "))
            }
        }
        Ty::Udt(item) => format!("UDT<{}>", item_id_text(item)),
        Ty::Invalid => "?".to_string(),
    }
}

fn item_id_text(item: &ItemId) -> String {
    match item.package {
        Some(package) => format!("Item {} (Package {})", item.item.0, package.0),
        None => format!("Item {}", item.item.0),
    }
}

fn ident(out: &mut Out, name: &Ident) {
    out.put(&format!("Ident {} {} \"{}\"", id_text(name.id), span_text(name.span), name.name));
}

fn pat(out: &mut Out, p: &Pat) {
    out.put(&format!("Pat {} {} [Type {}]: ", id_text(p.id), span_text(p.span), ty_text(&p.ty)));
    match &p.kind {
        PatKind::Bind(name) => {
            out.put("Bind: ");
            ident(out, name);
        }
        PatKind::Discard => out.put("Discard"),
        PatKind::Tuple(items) => {
            if items.is_empty() {
                out.put("Unit");
            } else {
                out.put("Tuple:");
                out.level += 1;
                for item in items {
                    out.line();
                    pat(out, item);
                }
                out.level -= 1;
            }
        }
    }
}

fn block(out: &mut Out, b: &Block) {
    out.put(&format!("Block {} {} [Type {}]:", id_text(b.id), span_text(b.span), ty_text(&b.ty)));
    if b.stmts.is_empty() {
        out.put(" <empty>");
    } else {
        out.level += 1;
        for s in &b.stmts {
            out.line();
            stmt(out, s);
        }
        out.level -= 1;
    }
}

fn stmt(out: &mut Out, s: &Stmt) {
    out.put(&format!("Stmt {} {}: ", id_text(s.id), span_text(s.span)));
    match &s.kind {
        StmtKind::Expr(e) => {
            out.put("Expr: ");
            expr(out, e);
        }
        StmtKind::Item(item) => out.put(&format!("Item: {}", item.0)),
        StmtKind::Local(mutability, p, e) => {
            out.put(&format!("Local ({mutability:?}):"));
            out.level += 1;
            out.line();
            pat(out, p);
            out.line();
            expr(out, e);
            out.level -= 1;
        }
        StmtKind::Semi(e) => {
            out.put("Semi: ");
            expr(out, e);
        }
    }
}

fn children(out: &mut Out, head: &str, parts: &[&Expr]) {
    out.put(head);
    out.level += 1;
    for part in parts {
        out.line();
        expr(out, part);
    }
    out.level -= 1;
}

fn optional(out: &mut Out, part: &Option<Box<Expr>>, missing: &str) {
    out.line();
    match part {
        Some(e) => expr(out, e),
        None => out.put(missing),
    }
}

fn expr(out: &mut Out, e: &Expr) {
    out.put(&format!("Expr {} {} [Type {}]: ", id_text(e.id), span_text(e.span), ty_text(&e.ty)));
    match &e.kind {
        ExprKind::Array(items) => {
            let parts: Vec<&Expr> = items.iter().collect();
            children(out, "Array:", &parts);
        }
        ExprKind::Assign(lhs, rhs) => children(out, "Assign:", &[lhs, rhs]),
        ExprKind::AssignOp(op, lhs, rhs) => {
            children(out, &format!("AssignOp ({op:?}):"), &[lhs, rhs]);
        }
        ExprKind::BinOp(op, lhs, rhs) => children(out, &format!("BinOp ({op:?}):"), &[lhs, rhs]),
        ExprKind::Block(b) => {
            out.put("Expr Block: ");
            block(out, b);
        }
        ExprKind::Call(callee, arg) => children(out, "Call:", &[callee, arg]),
        ExprKind::Fail(message) => children(out, "Fail:", &[message]),
        ExprKind::Field(record, field) => {
            out.put("Field:");
            out.level += 1;
            out.line();
            expr(out, record);
            out.line();
            match field {
                Field::Path(indices) => out.put(&format!("Path({indices:?})")),
                Field::Prim(prim) => out.put(&format!("Prim({prim:?})")),
            }
            out.level -= 1;
        }
        ExprKind::For(p, iterable, body) => {
            out.put("For:");
            out.level += 1;
            out.line();
            pat(out, p);
            out.line();
            expr(out, iterable);
            out.line();
            block(out, body);
            out.level -= 1;
        }
        ExprKind::If(cond, body, otherwise) => {
            out.put("If:");
            out.level += 1;
            out.line();
            expr(out, cond);
            out.line();
            expr(out, body);
            if let Some(otherwise) = otherwise {
                out.line();
                expr(out, otherwise);
            }
            out.level -= 1;
        }
        ExprKind::Index(array, index) => children(out, "Index:", &[array, index]),
        ExprKind::Lit(lit) => out.put(&format!("Lit: {lit:?}")),
        ExprKind::Range(start, step, end) => {
            out.put("Range:");
            out.level += 1;
            optional(out, start, "<no start>");
            optional(out, step, "<no step>");
            optional(out, end, "<no end>");
            out.level -= 1;
        }
        ExprKind::Repeat(body, until, fixup) => {
            out.put("Repeat:");
            out.level += 1;
            out.line();
            block(out, body);
            out.line();
            expr(out, until);
            out.line();
            match fixup {
                Some(fixup) => block(out, fixup),
                None => out.put("<no fixup>"),
            }
            out.level -= 1;
        }
        ExprKind::Return(value) => children(out, "Return:", &[value]),
        ExprKind::String(components) => {
            out.put("String:");
            out.level += 1;
            for component in components {
                out.line();
                match component {
                    StringComponent::Expr(e) => {
                        out.put("Expr: ");
                        expr(out, e);
                    }
                    StringComponent::Lit(text) => out.put(&format!("Lit: {text:?}")),
                }
            }
            out.level -= 1;
        }
        ExprKind::Tuple(items) => {
            if items.is_empty() {
                out.put("Unit");
            } else {
                let parts: Vec<&Expr> = items.iter().collect();
                children(out, "Tuple:", &parts);
            }
        }
        ExprKind::UnOp(op, operand) => {
            let head = match op {
                UnOp::Functor(functor) => format!("UnOp (Functor {functor:?}):"),
                other => format!("UnOp ({other:?}):"),
            };
            children(out, &head, &[operand]);
        }
        ExprKind::Var(res, args) => {
            let res_text = match res {
                Res::Invalid => "Err".to_string(),
                Res::Item(item) => item_id_text(item),
                Res::Local(node) => format!("Local {}", id_text(*node)),
            };
            if args.is_empty() {
                out.put(&format!("Var: {res_text}"));
            } else {
                out.put("Var:");
                out.level += 1;
                out.line();
                out.put(&format!("res: {res_text}"));
                out.line();
                out.put("generics:");
                out.level += 1;
                for arg in args {
                    out.line();
                    match arg {
                        GenericArg::Ty(ty) => out.put(&ty_text(ty)),
                        GenericArg::Functor(functors) => out.put(&format!("{functors:?}")),
                    }
                }
                out.level -= 2;
            }
        }
        ExprKind::While(cond, body) => {
            out.put("While:");
            out.level += 1;
            out.line();
            expr(out, cond);
            out.line();
            block(out, body);
            out.level -= 1;
        }
    }
}

fn spec_decl(out: &mut Out, spec: &SpecDecl) {
    out.put(&format!("SpecDecl {} {}: ", id_text(spec.id), span_text(spec.span)));
    match &spec.body {
        SpecBody::Gen(gen) => out.put(&format!("Gen: {gen:?}")),
        SpecBody::Impl(p, b) => {
            out.put("Impl:");
            out.level += 1;
            if let Some(p) = p {
                out.line();
                pat(out, p);
            }
            out.line();
            block(out, b);
            out.level -= 1;
        }
    }
}

fn optional_spec(out: &mut Out, label: &str, spec: &Option<SpecDecl>) {
    out.line();
    out.put(label);
    match spec {
        Some(spec) => spec_decl(out, spec),
        None => out.put("<none>"),
    }
}

fn callable(out: &mut Out, decl: &CallableDecl) {
    let kind = match decl.kind {
        CallableKind::Function => "function",
        CallableKind::Operation => "operation",
    };
    out.put(&format!("Callable {} {} ({}):", id_text(decl.id), span_text(decl.span), kind));
    out.level += 1;
    out.line();
    out.put("name: ");
    ident(out, &decl.name);
    out.line();
    out.put("input: ");
    pat(out, &decl.input);
    out.line();
    out.put(&format!("output: {}", ty_text(&decl.output)));
    out.line();
    out.put(match decl.functors {
        FunctorSetValue::Empty => "functors: empty set",
        FunctorSetValue::Adj => "functors: Adj",
        FunctorSetValue::Ctl => "functors: Ctl",
        FunctorSetValue::CtlAdj => "functors: CtlAdj",
    });
    out.line();
    out.put("body: ");
    spec_decl(out, &decl.body);
    optional_spec(out, "adj: ", &decl.adj);
    optional_spec(out, "ctl: ", &decl.ctl);
    optional_spec(out, "ctl-adj: ", &decl.ctl_adj);
    out.level -= 1;
}

fn item(out: &mut Out, i: &Item) {
    out.put(&format!("Item {} {} ({:?}):", i.id.0, span_text(i.span), i.visibility));
    out.level += 1;
    if let Some(parent) = i.parent {
        out.line();
        out.put(&format!("Parent: {}", parent.0));
    }
    out.line();
    match &i.kind {
        ItemKind::Callable(decl) => callable(out, decl),
        ItemKind::Namespace(name, items) => {
            out.put("Namespace (");
            ident(out, name);
            out.put("):");
            if items.is_empty() {
                out.put(" <empty>");
            } else {
                let parts: Vec<String> = items.iter().map(|i| format!("Item {}", i.0)).collect();
                out.put(&format!(" {}", parts.join(", ")));
            }
        }
    }
    out.level -= 1;
}

fn render(package: &Package) -> String {
    let mut out = Out::new();
    out.put("Package:");
    out.level += 1;
    for i in &package.items {
        out.line();
        item(&mut out, i);
    }
    if let Some(e) = &package.entry {
        out.line();
        out.put("entry expression: ");
        expr(&mut out, e);
    }
    out.text
}

// Builders for the trees that the frontend hands to the pass.

fn sp(lo: u32, hi: u32) -> Span {
    Span { lo, hi }
}

fn int_ty() -> Ty {
    Ty::Prim(Prim::Int)
}

fn unit_ty() -> Ty {
    Ty::Tuple(Vec::new())
}

fn array_of(item: Ty) -> Ty {
    Ty::Array(Box::new(item))
}

fn name(id: u32, span: Span, text: &str) -> Ident {
    Ident { id: NodeId(id), span, name: text.to_string() }
}

fn bind(id: u32, span: Span, ty: Ty, ident_id: u32, text: &str) -> Pat {
    Pat { id: NodeId(id), span, ty, kind: PatKind::Bind(name(ident_id, span, text)) }
}

// The parameter `arr`, whose pattern covers its type as well.
fn arr_input(span: Span, ty: Ty) -> Pat {
    Pat { id: NodeId(2), span, ty, kind: PatKind::Bind(name(3, sp(36, 39), "arr")) }
}

fn ex(id: u32, span: Span, ty: Ty, kind: ExprKind) -> Expr {
    Expr { id: NodeId(id), span, ty, kind }
}

fn local(id: u32, span: Span, ty: Ty, node: u32) -> Expr {
    ex(id, span, ty, ExprKind::Var(Res::Local(NodeId(node)), Vec::new()))
}

fn lit_int(id: u32, span: Span, value: i64) -> Expr {
    ex(id, span, int_ty(), ExprKind::Lit(Lit::Int(value)))
}

fn lit_bool(id: u32, span: Span, value: bool) -> Expr {
    ex(id, span, Ty::Prim(Prim::Bool), ExprKind::Lit(Lit::Bool(value)))
}

fn text(id: u32, span: Span, value: &str) -> Expr {
    ex(
        id,
        span,
        Ty::Prim(Prim::String),
        ExprKind::String(vec![StringComponent::Lit(value.to_string())]),
    )
}

fn st(id: u32, span: Span, kind: StmtKind) -> Stmt {
    Stmt { id: NodeId(id), span, kind }
}

fn blk(id: u32, span: Span, stmts: Vec<Stmt>) -> Block {
    Block { id: NodeId(id), span, ty: unit_ty(), stmts }
}

// `let <name> = "<value>";` with the identities `first` to `first + 3`.
fn let_text(first: u32, span: Span, pat_span: Span, name: &str, value_span: Span, value: &str) -> Stmt {
    st(
        first,
        span,
        StmtKind::Local(
            Mutability::Immutable,
            bind(first + 1, pat_span, Ty::Prim(Prim::String), first + 2, name),
            text(first + 3, value_span, value),
        ),
    )
}

// A package with the namespace `test` and the operation `Main` in it.
fn main_package(
    whole: Span,
    callable_span: Span,
    namespace_ident: u32,
    input: Pat,
    spec_id: u32,
    body: Block,
) -> Package {
    Package {
        items: vec![
            Item {
                id: LocalItemId(0),
                span: whole,
                parent: None,
                visibility: Visibility::Public,
                kind: ItemKind::Namespace(
                    name(namespace_ident, sp(10, 14), "test"),
                    vec![LocalItemId(1)],
                ),
            },
            Item {
                id: LocalItemId(1),
                span: callable_span,
                parent: Some(LocalItemId(0)),
                visibility: Visibility::Public,
                kind: ItemKind::Callable(CallableDecl {
                    id: NodeId(0),
                    span: callable_span,
                    kind: CallableKind::Operation,
                    name: name(1, sp(31, 35), "Main"),
                    input,
                    output: unit_ty(),
                    functors: FunctorSetValue::Empty,
                    body: SpecDecl {
                        id: NodeId(spec_id),
                        span: callable_span,
                        body: SpecBody::Impl(None, body),
                    },
                    adj: None,
                    ctl: None,
                    ctl_adj: None,
                }),
            },
        ],
        entry: None,
    }
}

fn unit_input() -> Pat {
    Pat { id: NodeId(2), span: sp(35, 37), ty: unit_ty(), kind: PatKind::Tuple(Vec::new()) }
}

// Runs the pass on `package` with an allocator that goes on from `next`, and
// holds the rendered result against `expected`.
fn check(mut package: Package, next: u32, expected: &str) {
    let table = core_table();
    let mut assigner = Assigner::starting_at(NodeId(next));
    LoopUni { core: &table, assigner: &mut assigner }.visit_package(&mut package);
    assert_eq!(render(&package), expected);
}

#[test]
fn convert_for_array() {
    let body = blk(
        5,
        sp(56, 131),
        vec![st(
            6,
            sp(66, 125),
            StmtKind::Expr(ex(
                7,
                sp(66, 125),
                unit_ty(),
                ExprKind::For(
                    bind(8, sp(70, 71), int_ty(), 9, "i"),
                    Box::new(local(10, sp(75, 78), array_of(int_ty()), 3)),
                    blk(
                        11,
                        sp(79, 125),
                        vec![let_text(12, sp(93, 115), sp(97, 98), "x", sp(101, 114), "Hello World")],
                    ),
                ),
            )),
        )],
    );
    let package =
        main_package(sp(0, 133), sp(21, 131), 16, arr_input(sp(36, 47), array_of(int_ty())), 4, body);
    check(
        package,
        17,
        r#"Package:
    Item 0 [0-133] (Public):
        Namespace (Ident 16 [10-14] "test"): Item 1
    Item 1 [21-131] (Public):
        Parent: 0
        Callable 0 [21-131] (operation):
            name: Ident 1 [31-35] "Main"
            input: Pat 2 [36-47] [Type (Int)[]]: Bind: Ident 3 [36-39] "arr"
            output: Unit
            functors: empty set
            body: SpecDecl 4 [21-131]: Impl:
                Block 5 [56-131] [Type Unit]:
                    Stmt 6 [66-125]: Expr: Expr _id_ [66-125] [Type Unit]: Expr Block: Block _id_ [66-125] [Type Unit]:
                        Stmt _id_ [75-78]: Local (Immutable):
                            Pat _id_ [75-78] [Type (Int)[]]: Bind: Ident 17 [75-78] "array_id_17"
                            Expr 10 [75-78] [Type (Int)[]]: Var: Local 3
                        Stmt _id_ [75-78]: Local (Immutable):
                            Pat _id_ [75-78] [Type Int]: Bind: Ident 18 [75-78] "len_id_18"
                            Expr _id_ [75-78] [Type (Int)[]]: Call:
                                Expr _id_ [75-78] [Type ((Int)[] -> Int)]: Var:
                                    res: Item 1 (Package 0)
                                    generics:
                                        Int
                                Expr _id_ [75-78] [Type (Int)[]]: Var: Local 17
                        Stmt _id_ [75-78]: Local (Mutable):
                            Pat _id_ [75-78] [Type Int]: Bind: Ident 19 [75-78] "index_id_19"
                            Expr _id_ [75-78] [Type Int]: Lit: Int(0)
                        Stmt _id_ [66-125]: Expr: Expr _id_ [66-125] [Type Unit]: While:
                            Expr _id_ [75-78] [Type Bool]: BinOp (Lt):
                                Expr _id_ [75-78] [Type Int]: Var: Local 19
                                Expr _id_ [75-78] [Type Int]: Var: Local 18
                            Block 11 [79-125] [Type Unit]:
                                Stmt _id_ [66-125]: Local (Immutable):
                                    Pat 8 [70-71] [Type Int]: Bind: Ident 9 [70-71] "i"
                                    Expr _id_ [75-78] [Type Int]: Index:
                                        Expr _id_ [75-78] [Type (Int)[]]: Var: Local 17
                                        Expr _id_ [75-78] [Type Int]: Var: Local 19
                                Stmt 12 [93-115]: Local (Immutable):
                                    Pat 13 [97-98] [Type String]: Bind: Ident 14 [97-98] "x"
                                    Expr 15 [101-114] [Type String]: String:
                                        Lit: "Hello World"
                                Stmt _id_ [75-78]: Semi: Expr _id_ [75-78] [Type Unit]: AssignOp (Add):
                                    Expr _id_ [75-78] [Type Int]: Var: Local 19
                                    Expr _id_ [75-78] [Type Int]: Lit: Int(1)
            adj: <none>
            ctl: <none>
            ctl-adj: <none>"#,
    );
}

#[test]
fn convert_for_array_deconstruct() {
    let pair = || Ty::Tuple(vec![int_ty(), Ty::Prim(Prim::Double)]);
    let pattern = Pat {
        id: NodeId(8),
        span: sp(80, 86),
        ty: pair(),
        kind: PatKind::Tuple(vec![
            bind(9, sp(81, 82), int_ty(), 10, "i"),
            bind(11, sp(84, 85), Ty::Prim(Prim::Double), 12, "d"),
        ]),
    };
    let body = blk(
        5,
        sp(66, 146),
        vec![st(
            6,
            sp(76, 140),
            StmtKind::Expr(ex(
                7,
                sp(76, 140),
                unit_ty(),
                ExprKind::For(
                    pattern,
                    Box::new(local(13, sp(90, 93), array_of(pair()), 3)),
                    blk(
                        14,
                        sp(94, 140),
                        vec![let_text(15, sp(108, 130), sp(112, 113), "x", sp(116, 129), "Hello World")],
                    ),
                ),
            )),
        )],
    );
    let package =
        main_package(sp(0, 148), sp(21, 146), 19, arr_input(sp(36, 57), array_of(pair())), 4, body);
    check(
        package,
        20,
        r#"Package:
    Item 0 [0-148] (Public):
        Namespace (Ident 19 [10-14] "test"): Item 1
    Item 1 [21-146] (Public):
        Parent: 0
        Callable 0 [21-146] (operation):
            name: Ident 1 [31-35] "Main"
            input: Pat 2 [36-57] [Type ((Int, Double))[]]: Bind: Ident 3 [36-39] "arr"
            output: Unit
            functors: empty set
            body: SpecDecl 4 [21-146]: Impl:
                Block 5 [66-146] [Type Unit]:
                    Stmt 6 [76-140]: Expr: Expr _id_ [76-140] [Type Unit]: Expr Block: Block _id_ [76-140] [Type Unit]:
                        Stmt _id_ [90-93]: Local (Immutable):
                            Pat _id_ [90-93] [Type ((Int, Double))[]]: Bind: Ident 20 [90-93] "array_id_20"
                            Expr 13 [90-93] [Type ((Int, Double))[]]: Var: Local 3
                        Stmt _id_ [90-93]: Local (Immutable):
                            Pat _id_ [90-93] [Type Int]: Bind: Ident 21 [90-93] "len_id_21"
                            Expr _id_ [90-93] [Type ((Int, Double))[]]: Call:
                                Expr _id_ [90-93] [Type (((Int, Double))[] -> Int)]: Var:
                                    res: Item 1 (Package 0)
                                    generics:
                                        (Int, Double)
                                Expr _id_ [90-93] [Type ((Int, Double))[]]: Var: Local 20
                        Stmt _id_ [90-93]: Local (Mutable):
                            Pat _id_ [90-93] [Type Int]: Bind: Ident 22 [90-93] "index_id_22"
                            Expr _id_ [90-93] [Type Int]: Lit: Int(0)
                        Stmt _id_ [76-140]: Expr: Expr _id_ [76-140] [Type Unit]: While:
                            Expr _id_ [90-93] [Type Bool]: BinOp (Lt):
                                Expr _id_ [90-93] [Type Int]: Var: Local 22
                                Expr _id_ [90-93] [Type Int]: Var: Local 21
                            Block 14 [94-140] [Type Unit]:
                                Stmt _id_ [76-140]: Local (Immutable):
                                    Pat 8 [80-86] [Type (Int, Double)]: Tuple:
                                        Pat 9 [81-82] [Type Int]: Bind: Ident 10 [81-82] "i"
                                        Pat 11 [84-85] [Type Double]: Bind: Ident 12 [84-85] "d"
                                    Expr _id_ [90-93] [Type (Int, Double)]: Index:
                                        Expr _id_ [90-93] [Type ((Int, Double))[]]: Var: Local 20
                                        Expr _id_ [90-93] [Type Int]: Var: Local 22
                                Stmt 15 [108-130]: Local (Immutable):
                                    Pat 16 [112-113] [Type String]: Bind: Ident 17 [112-113] "x"
                                    Expr 18 [116-129] [Type String]: String:
                                        Lit: "Hello World"
                                Stmt _id_ [90-93]: Semi: Expr _id_ [90-93] [Type Unit]: AssignOp (Add):
                                    Expr _id_ [90-93] [Type Int]: Var: Local 22
                                    Expr _id_ [90-93] [Type Int]: Lit: Int(1)
            adj: <none>
            ctl: <none>
            ctl-adj: <none>"#,
    );
}

#[test]
fn convert_for_slice() {
    let range = ex(
        12,
        sp(79, 87),
        Ty::Prim(Prim::Range),
        ExprKind::Range(
            Some(Box::new(lit_int(13, sp(79, 80), 6))),
            Some(Box::new(ex(
                14,
                sp(82, 84),
                int_ty(),
                ExprKind::UnOp(UnOp::Neg, Box::new(lit_int(15, sp(83, 84), 2))),
            ))),
            Some(Box::new(lit_int(16, sp(86, 87), 2))),
        ),
    );
    let slice = ex(
        10,
        sp(75, 88),
        array_of(int_ty()),
        ExprKind::Index(Box::new(local(11, sp(75, 78), array_of(int_ty()), 3)), Box::new(range)),
    );
    let body = blk(
        5,
        sp(56, 141),
        vec![st(
            6,
            sp(66, 135),
            StmtKind::Expr(ex(
                7,
                sp(66, 135),
                unit_ty(),
                ExprKind::For(
                    bind(8, sp(70, 71), int_ty(), 9, "i"),
                    Box::new(slice),
                    blk(
                        17,
                        sp(89, 135),
                        vec![let_text(18, sp(103, 125), sp(107, 108), "x", sp(111, 124), "Hello World")],
                    ),
                ),
            )),
        )],
    );
    let package =
        main_package(sp(0, 143), sp(21, 141), 22, arr_input(sp(36, 47), array_of(int_ty())), 4, body);
    check(
        package,
        23,
        r#"Package:
    Item 0 [0-143] (Public):
        Namespace (Ident 22 [10-14] "test"): Item 1
    Item 1 [21-141] (Public):
        Parent: 0
        Callable 0 [21-141] (operation):
            name: Ident 1 [31-35] "Main"
            input: Pat 2 [36-47] [Type (Int)[]]: Bind: Ident 3 [36-39] "arr"
            output: Unit
            functors: empty set
            body: SpecDecl 4 [21-141]: Impl:
                Block 5 [56-141] [Type Unit]:
                    Stmt 6 [66-135]: Expr: Expr _id_ [66-135] [Type Unit]: Expr Block: Block _id_ [66-135] [Type Unit]:
                        Stmt _id_ [75-88]: Local (Immutable):
                            Pat _id_ [75-88] [Type (Int)[]]: Bind: Ident 23 [75-88] "array_id_23"
                            Expr 10 [75-88] [Type (Int)[]]: Index:
                                Expr 11 [75-78] [Type (Int)[]]: Var: Local 3
                                Expr 12 [79-87] [Type Range]: Range:
                                    Expr 13 [79-80] [Type Int]: Lit: Int(6)
                                    Expr 14 [82-84] [Type Int]: UnOp (Neg):
                                        Expr 15 [83-84] [Type Int]: Lit: Int(2)
                                    Expr 16 [86-87] [Type Int]: Lit: Int(2)
                        Stmt _id_ [75-88]: Local (Immutable):
                            Pat _id_ [75-88] [Type Int]: Bind: Ident 24 [75-88] "len_id_24"
                            Expr _id_ [75-88] [Type (Int)[]]: Call:
                                Expr _id_ [75-88] [Type ((Int)[] -> Int)]: Var:
                                    res: Item 1 (Package 0)
                                    generics:
                                        Int
                                Expr _id_ [75-88] [Type (Int)[]]: Var: Local 23
                        Stmt _id_ [75-88]: Local (Mutable):
                            Pat _id_ [75-88] [Type Int]: Bind: Ident 25 [75-88] "index_id_25"
                            Expr _id_ [75-88] [Type Int]: Lit: Int(0)
                        Stmt _id_ [66-135]: Expr: Expr _id_ [66-135] [Type Unit]: While:
                            Expr _id_ [75-88] [Type Bool]: BinOp (Lt):
                                Expr _id_ [75-88] [Type Int]: Var: Local 25
                                Expr _id_ [75-88] [Type Int]: Var: Local 24
                            Block 17 [89-135] [Type Unit]:
                                Stmt _id_ [66-135]: Local (Immutable):
                                    Pat 8 [70-71] [Type Int]: Bind: Ident 9 [70-71] "i"
                                    Expr _id_ [75-88] [Type Int]: Index:
                                        Expr _id_ [75-88] [Type (Int)[]]: Var: Local 23
                                        Expr _id_ [75-88] [Type Int]: Var: Local 25
                                Stmt 18 [103-125]: Local (Immutable):
                                    Pat 19 [107-108] [Type String]: Bind: Ident 20 [107-108] "x"
                                    Expr 21 [111-124] [Type String]: String:
                                        Lit: "Hello World"
                                Stmt _id_ [75-88]: Semi: Expr _id_ [75-88] [Type Unit]: AssignOp (Add):
                                    Expr _id_ [75-88] [Type Int]: Var: Local 25
                                    Expr _id_ [75-88] [Type Int]: Lit: Int(1)
            adj: <none>
            ctl: <none>
            ctl-adj: <none>"#,
    );
}

#[test]
fn convert_for_range() {
    let range = ex(
        9,
        sp(64, 68),
        Ty::Prim(Prim::Range),
        ExprKind::Range(
            Some(Box::new(lit_int(10, sp(64, 65), 0))),
            None,
            Some(Box::new(lit_int(11, sp(67, 68), 4))),
        ),
    );
    let body = blk(
        4,
        sp(45, 121),
        vec![st(
            5,
            sp(55, 115),
            StmtKind::Expr(ex(
                6,
                sp(55, 115),
                unit_ty(),
                ExprKind::For(
                    bind(7, sp(59, 60), int_ty(), 8, "i"),
                    Box::new(range),
                    blk(
                        12,
                        sp(69, 115),
                        vec![let_text(13, sp(83, 105), sp(87, 88), "x", sp(91, 104), "Hello World")],
                    ),
                ),
            )),
        )],
    );
    let package = main_package(sp(0, 123), sp(21, 121), 17, unit_input(), 3, body);
    check(
        package,
        18,
        r#"Package:
    Item 0 [0-123] (Public):
        Namespace (Ident 17 [10-14] "test"): Item 1
    Item 1 [21-121] (Public):
        Parent: 0
        Callable 0 [21-121] (operation):
            name: Ident 1 [31-35] "Main"
            input: Pat 2 [35-37] [Type Unit]: Unit
            output: Unit
            functors: empty set
            body: SpecDecl 3 [21-121]: Impl:
                Block 4 [45-121] [Type Unit]:
                    Stmt 5 [55-115]: Expr: Expr _id_ [55-115] [Type Unit]: Expr Block: Block _id_ [55-115] [Type Unit]:
                        Stmt _id_ [64-68]: Local (Immutable):
                            Pat _id_ [64-68] [Type Range]: Bind: Ident 18 [64-68] "range_id_18"
                            Expr 9 [64-68] [Type Range]: Range:
                                Expr 10 [64-65] [Type Int]: Lit: Int(0)
                                <no step>
                                Expr 11 [67-68] [Type Int]: Lit: Int(4)
                        Stmt _id_ [64-68]: Local (Mutable):
                            Pat _id_ [64-68] [Type Int]: Bind: Ident 19 [64-68] "index_id_19"
                            Expr _id_ [64-68] [Type Int]: Field:
                                Expr _id_ [64-68] [Type Range]: Var: Local 18
                                Prim(Start)
                        Stmt _id_ [64-68]: Local (Immutable):
                            Pat _id_ [64-68] [Type Int]: Bind: Ident 20 [64-68] "step_id_20"
                            Expr _id_ [64-68] [Type Int]: Field:
                                Expr _id_ [64-68] [Type Range]: Var: Local 18
                                Prim(Step)
                        Stmt _id_ [64-68]: Local (Immutable):
                            Pat _id_ [64-68] [Type Int]: Bind: Ident 21 [64-68] "end_id_21"
                            Expr _id_ [64-68] [Type Int]: Field:
                                Expr _id_ [64-68] [Type Range]: Var: Local 18
                                Prim(End)
                        Stmt _id_ [55-115]: Expr: Expr _id_ [55-115] [Type Unit]: While:
                            Expr _id_ [64-68] [Type Bool]: BinOp (OrL):
                                Expr _id_ [64-68] [Type Bool]: BinOp (AndL):
                                    Expr _id_ [64-68] [Type Bool]: BinOp (Gt):
                                        Expr _id_ [64-68] [Type Int]: Var: Local 20
                                        Expr _id_ [64-68] [Type Int]: Lit: Int(0)
                                    Expr _id_ [64-68] [Type Bool]: BinOp (Lte):
                                        Expr _id_ [64-68] [Type Int]: Var: Local 19
                                        Expr _id_ [64-68] [Type Int]: Var: Local 21
                                Expr _id_ [64-68] [Type Bool]: BinOp (AndL):
                                    Expr _id_ [64-68] [Type Bool]: BinOp (Lt):
                                        Expr _id_ [64-68] [Type Int]: Var: Local 20
                                        Expr _id_ [64-68] [Type Int]: Lit: Int(0)
                                    Expr _id_ [64-68] [Type Bool]: BinOp (Gte):
                                        Expr _id_ [64-68] [Type Int]: Var: Local 19
                                        Expr _id_ [64-68] [Type Int]: Var: Local 21
                            Block 12 [69-115] [Type Unit]:
                                Stmt _id_ [55-115]: Local (Immutable):
                                    Pat 7 [59-60] [Type Int]: Bind: Ident 8 [59-60] "i"
                                    Expr _id_ [64-68] [Type Int]: Var: Local 19
                                Stmt 13 [83-105]: Local (Immutable):
                                    Pat 14 [87-88] [Type String]: Bind: Ident 15 [87-88] "x"
                                    Expr 16 [91-104] [Type String]: String:
                                        Lit: "Hello World"
                                Stmt _id_ [64-68]: Semi: Expr _id_ [64-68] [Type Unit]: AssignOp (Add):
                                    Expr _id_ [64-68] [Type Int]: Var: Local 19
                                    Expr _id_ [64-68] [Type Int]: Var: Local 20
            adj: <none>
            ctl: <none>
            ctl-adj: <none>"#,
    );
}

#[test]
fn convert_for_reverse_range() {
    let range = ex(
        9,
        sp(64, 72),
        Ty::Prim(Prim::Range),
        ExprKind::Range(
            Some(Box::new(lit_int(10, sp(64, 65), 4))),
            Some(Box::new(ex(
                11,
                sp(67, 69),
                int_ty(),
                ExprKind::UnOp(UnOp::Neg, Box::new(lit_int(12, sp(68, 69), 1))),
            ))),
            Some(Box::new(lit_int(13, sp(71, 72), 0))),
        ),
    );
    let body = blk(
        4,
        sp(45, 125),
        vec![st(
            5,
            sp(55, 119),
            StmtKind::Expr(ex(
                6,
                sp(55, 119),
                unit_ty(),
                ExprKind::For(
                    bind(7, sp(59, 60), int_ty(), 8, "i"),
                    Box::new(range),
                    blk(
                        14,
                        sp(73, 119),
                        vec![let_text(15, sp(87, 109), sp(91, 92), "x", sp(95, 108), "Hello World")],
                    ),
                ),
            )),
        )],
    );
    let package = main_package(sp(0, 127), sp(21, 125), 19, unit_input(), 3, body);
    check(
        package,
        20,
        r#"Package:
    Item 0 [0-127] (Public):
        Namespace (Ident 19 [10-14] "test"): Item 1
    Item 1 [21-125] (Public):
        Parent: 0
        Callable 0 [21-125] (operation):
            name: Ident 1 [31-35] "Main"
            input: Pat 2 [35-37] [Type Unit]: Unit
            output: Unit
            functors: empty set
            body: SpecDecl 3 [21-125]: Impl:
                Block 4 [45-125] [Type Unit]:
                    Stmt 5 [55-119]: Expr: Expr _id_ [55-119] [Type Unit]: Expr Block: Block _id_ [55-119] [Type Unit]:
                        Stmt _id_ [64-72]: Local (Immutable):
                            Pat _id_ [64-72] [Type Range]: Bind: Ident 20 [64-72] "range_id_20"
                            Expr 9 [64-72] [Type Range]: Range:
                                Expr 10 [64-65] [Type Int]: Lit: Int(4)
                                Expr 11 [67-69] [Type Int]: UnOp (Neg):
                                    Expr 12 [68-69] [Type Int]: Lit: Int(1)
                                Expr 13 [71-72] [Type Int]: Lit: Int(0)
                        Stmt _id_ [64-72]: Local (Mutable):
                            Pat _id_ [64-72] [Type Int]: Bind: Ident 21 [64-72] "index_id_21"
                            Expr _id_ [64-72] [Type Int]: Field:
                                Expr _id_ [64-72] [Type Range]: Var: Local 20
                                Prim(Start)
                        Stmt _id_ [64-72]: Local (Immutable):
                            Pat _id_ [64-72] [Type Int]: Bind: Ident 22 [64-72] "step_id_22"
                            Expr _id_ [64-72] [Type Int]: Field:
                                Expr _id_ [64-72] [Type Range]: Var: Local 20
                                Prim(Step)
                        Stmt _id_ [64-72]: Local (Immutable):
                            Pat _id_ [64-72] [Type Int]: Bind: Ident 23 [64-72] "end_id_23"
                            Expr _id_ [64-72] [Type Int]: Field:
                                Expr _id_ [64-72] [Type Range]: Var: Local 20
                                Prim(End)
                        Stmt _id_ [55-119]: Expr: Expr _id_ [55-119] [Type Unit]: While:
                            Expr _id_ [64-72] [Type Bool]: BinOp (OrL):
                                Expr _id_ [64-72] [Type Bool]: BinOp (AndL):
                                    Expr _id_ [64-72] [Type Bool]: BinOp (Gt):
                                        Expr _id_ [64-72] [Type Int]: Var: Local 22
                                        Expr _id_ [64-72] [Type Int]: Lit: Int(0)
                                    Expr _id_ [64-72] [Type Bool]: BinOp (Lte):
                                        Expr _id_ [64-72] [Type Int]: Var: Local 21
                                        Expr _id_ [64-72] [Type Int]: Var: Local 23
                                Expr _id_ [64-72] [Type Bool]: BinOp (AndL):
                                    Expr _id_ [64-72] [Type Bool]: BinOp (Lt):
                                        Expr _id_ [64-72] [Type Int]: Var: Local 22
                                        Expr _id_ [64-72] [Type Int]: Lit: Int(0)
                                    Expr _id_ [64-72] [Type Bool]: BinOp (Gte):
                                        Expr _id_ [64-72] [Type Int]: Var: Local 21
                                        Expr _id_ [64-72] [Type Int]: Var: Local 23
                            Block 14 [73-119] [Type Unit]:
                                Stmt _id_ [55-119]: Local (Immutable):
                                    Pat 7 [59-60] [Type Int]: Bind: Ident 8 [59-60] "i"
                                    Expr _id_ [64-72] [Type Int]: Var: Local 21
                                Stmt 15 [87-109]: Local (Immutable):
                                    Pat 16 [91-92] [Type String]: Bind: Ident 17 [91-92] "x"
                                    Expr 18 [95-108] [Type String]: String:
                                        Lit: "Hello World"
                                Stmt _id_ [64-72]: Semi: Expr _id_ [64-72] [Type Unit]: AssignOp (Add):
                                    Expr _id_ [64-72] [Type Int]: Var: Local 21
                                    Expr _id_ [64-72] [Type Int]: Var: Local 22
            adj: <none>
            ctl: <none>
            ctl-adj: <none>"#,
    );
}

#[test]
fn convert_repeat() {
    let body = blk(
        4,
        sp(45, 126),
        vec![st(
            5,
            sp(55, 120),
            StmtKind::Semi(ex(
                6,
                sp(55, 119),
                unit_ty(),
                ExprKind::Repeat(
                    blk(
                        7,
                        sp(62, 108),
                        vec![let_text(8, sp(76, 98), sp(80, 81), "x", sp(84, 97), "Hello World")],
                    ),
                    Box::new(lit_bool(12, sp(115, 119), true)),
                    None,
                ),
            )),
        )],
    );
    let package = main_package(sp(0, 128), sp(21, 126), 13, unit_input(), 3, body);
    check(
        package,
        14,
        r#"Package:
    Item 0 [0-128] (Public):
        Namespace (Ident 13 [10-14] "test"): Item 1
    Item 1 [21-126] (Public):
        Parent: 0
        Callable 0 [21-126] (operation):
            name: Ident 1 [31-35] "Main"
            input: Pat 2 [35-37] [Type Unit]: Unit
            output: Unit
            functors: empty set
            body: SpecDecl 3 [21-126]: Impl:
                Block 4 [45-126] [Type Unit]:
                    Stmt 5 [55-120]: Semi: Expr _id_ [55-119] [Type Unit]: Expr Block: Block _id_ [55-119] [Type Unit]:
                        Stmt _id_ [115-119]: Local (Mutable):
                            Pat _id_ [115-119] [Type Bool]: Bind: Ident 14 [115-119] "continue_cond_14"
                            Expr _id_ [115-119] [Type Bool]: Lit: Bool(true)
                        Stmt _id_ [55-119]: Expr: Expr _id_ [55-119] [Type Unit]: While:
                            Expr _id_ [115-119] [Type Bool]: Var: Local 14
                            Block 7 [62-108] [Type Unit]:
                                Stmt 8 [76-98]: Local (Immutable):
                                    Pat 9 [80-81] [Type String]: Bind: Ident 10 [80-81] "x"
                                    Expr 11 [84-97] [Type String]: String:
                                        Lit: "Hello World"
                                Stmt _id_ [115-119]: Semi: Expr _id_ [115-119] [Type Unit]: Assign:
                                    Expr _id_ [115-119] [Type Bool]: Var: Local 14
                                    Expr _id_ [115-119] [Type Bool]: UnOp (NotL):
                                        Expr 12 [115-119] [Type Bool]: Lit: Bool(true)
            adj: <none>
            ctl: <none>
            ctl-adj: <none>"#,
    );
}

#[test]
fn convert_repeat_fixup() {
    let body = blk(
        4,
        sp(45, 180),
        vec![st(
            5,
            sp(55, 174),
            StmtKind::Expr(ex(
                6,
                sp(55, 174),
                unit_ty(),
                ExprKind::Repeat(
                    blk(
                        7,
                        sp(62, 108),
                        vec![let_text(8, sp(76, 98), sp(80, 81), "x", sp(84, 97), "Hello World")],
                    ),
                    Box::new(lit_bool(12, sp(115, 119), true)),
                    Some(blk(
                        13,
                        sp(134, 174),
                        vec![let_text(14, sp(148, 164), sp(152, 153), "y", sp(156, 163), "Fixup")],
                    )),
                ),
            )),
        )],
    );
    let package = main_package(sp(0, 182), sp(21, 180), 18, unit_input(), 3, body);
    check(
        package,
        19,
        r#"Package:
    Item 0 [0-182] (Public):
        Namespace (Ident 18 [10-14] "test"): Item 1
    Item 1 [21-180] (Public):
        Parent: 0
        Callable 0 [21-180] (operation):
            name: Ident 1 [31-35] "Main"
            input: Pat 2 [35-37] [Type Unit]: Unit
            output: Unit
            functors: empty set
            body: SpecDecl 3 [21-180]: Impl:
                Block 4 [45-180] [Type Unit]:
                    Stmt 5 [55-174]: Expr: Expr _id_ [55-174] [Type Unit]: Expr Block: Block _id_ [55-174] [Type Unit]:
                        Stmt _id_ [115-119]: Local (Mutable):
                            Pat _id_ [115-119] [Type Bool]: Bind: Ident 19 [115-119] "continue_cond_19"
                            Expr _id_ [115-119] [Type Bool]: Lit: Bool(true)
                        Stmt _id_ [55-174]: Expr: Expr _id_ [55-174] [Type Unit]: While:
                            Expr _id_ [115-119] [Type Bool]: Var: Local 19
                            Block 7 [62-108] [Type Unit]:
                                Stmt 8 [76-98]: Local (Immutable):
                                    Pat 9 [80-81] [Type String]: Bind: Ident 10 [80-81] "x"
                                    Expr 11 [84-97] [Type String]: String:
                                        Lit: "Hello World"
                                Stmt _id_ [115-119]: Semi: Expr _id_ [115-119] [Type Unit]: Assign:
                                    Expr _id_ [115-119] [Type Bool]: Var: Local 19
                                    Expr _id_ [115-119] [Type Bool]: UnOp (NotL):
                                        Expr 12 [115-119] [Type Bool]: Lit: Bool(true)
                                Stmt _id_ [134-174]: Expr: Expr _id_ [134-174] [Type Unit]: If:
                                    Expr _id_ [115-119] [Type Bool]: Var: Local 19
                                    Expr _id_ [134-174] [Type Unit]: Expr Block: Block 13 [134-174] [Type Unit]:
                                        Stmt 14 [148-164]: Local (Immutable):
                                            Pat 15 [152-153] [Type String]: Bind: Ident 16 [152-153] "y"
                                            Expr 17 [156-163] [Type String]: String:
                                                Lit: "Fixup"
            adj: <none>
            ctl: <none>
            ctl-adj: <none>"#,
    );
}

#[test]
fn convert_repeat_nested() {
    let flag = |first: u32, span: Span, pat_span: Span, name: &str, value_span: Span, value: bool| {
        st(
            first,
            span,
            StmtKind::Local(
                Mutability::Immutable,
                bind(first + 1, pat_span, Ty::Prim(Prim::Bool), first + 2, name),
                lit_bool(first + 3, value_span, value),
            ),
        )
    };
    let first = ex(
        21,
        sp(143, 274),
        unit_ty(),
        ExprKind::Repeat(
            blk(
                22,
                sp(150, 198),
                vec![let_text(23, sp(168, 184), sp(172, 173), "x", sp(176, 183), "First")],
            ),
            Box::new(local(27, sp(205, 206), Ty::Prim(Prim::Bool), 7)),
            Some(blk(
                28,
                sp(225, 274),
                vec![let_text(29, sp(243, 260), sp(247, 248), "y", sp(251, 259), "Second")],
            )),
        ),
    );
    let third = ex(
        36,
        sp(321, 384),
        unit_ty(),
        ExprKind::Repeat(
            blk(
                37,
                sp(328, 376),
                vec![let_text(38, sp(346, 362), sp(350, 351), "z", sp(354, 361), "Third")],
            ),
            Box::new(local(42, sp(383, 384), Ty::Prim(Prim::Bool), 15)),
            None,
        ),
    );
    let outer = ex(
        18,
        sp(122, 395),
        unit_ty(),
        ExprKind::Repeat(
            blk(19, sp(129, 284), vec![st(20, sp(143, 274), StmtKind::Expr(first))]),
            Box::new(local(33, sp(291, 292), Ty::Prim(Prim::Bool), 11)),
            Some(blk(34, sp(307, 395), vec![st(35, sp(321, 385), StmtKind::Semi(third))])),
        ),
    );
    let body = blk(
        4,
        sp(45, 401),
        vec![
            flag(5, sp(55, 68), sp(59, 60), "a", sp(63, 67), true),
            flag(9, sp(77, 91), sp(81, 82), "b", sp(85, 90), false),
            flag(13, sp(100, 113), sp(104, 105), "c", sp(108, 112), true),
            st(17, sp(122, 395), StmtKind::Expr(outer)),
        ],
    );
    let package = main_package(sp(0, 403), sp(21, 401), 43, unit_input(), 3, body);
    check(
        package,
        44,
        r#"Package:
    Item 0 [0-403] (Public):
        Namespace (Ident 43 [10-14] "test"): Item 1
    Item 1 [21-401] (Public):
        Parent: 0
        Callable 0 [21-401] (operation):
            name: Ident 1 [31-35] "Main"
            input: Pat 2 [35-37] [Type Unit]: Unit
            output: Unit
            functors: empty set
            body: SpecDecl 3 [21-401]: Impl:
                Block 4 [45-401] [Type Unit]:
                    Stmt 5 [55-68]: Local (Immutable):
                        Pat 6 [59-60] [Type Bool]: Bind: Ident 7 [59-60] "a"
                        Expr 8 [63-67] [Type Bool]: Lit: Bool(true)
                    Stmt 9 [77-91]: Local (Immutable):
                        Pat 10 [81-82] [Type Bool]: Bind: Ident 11 [81-82] "b"
                        Expr 12 [85-90] [Type Bool]: Lit: Bool(false)
                    Stmt 13 [100-113]: Local (Immutable):
                        Pat 14 [104-105] [Type Bool]: Bind: Ident 15 [104-105] "c"
                        Expr 16 [108-112] [Type Bool]: Lit: Bool(true)
                    Stmt 17 [122-395]: Expr: Expr _id_ [122-395] [Type Unit]: Expr Block: Block _id_ [122-395] [Type Unit]:
                        Stmt _id_ [291-292]: Local (Mutable):
                            Pat _id_ [291-292] [Type Bool]: Bind: Ident 46 [291-292] "continue_cond_46"
                            Expr _id_ [291-292] [Type Bool]: Lit: Bool(true)
                        Stmt _id_ [122-395]: Expr: Expr _id_ [122-395] [Type Unit]: While:
                            Expr _id_ [291-292] [Type Bool]: Var: Local 46
                            Block 19 [129-284] [Type Unit]:
                                Stmt 20 [143-274]: Expr: Expr _id_ [143-274] [Type Unit]: Expr Block: Block _id_ [143-274] [Type Unit]:
                                    Stmt _id_ [205-206]: Local (Mutable):
                                        Pat _id_ [205-206] [Type Bool]: Bind: Ident 44 [205-206] "continue_cond_44"
                                        Expr _id_ [205-206] [Type Bool]: Lit: Bool(true)
                                    Stmt _id_ [143-274]: Expr: Expr _id_ [143-274] [Type Unit]: While:
                                        Expr _id_ [205-206] [Type Bool]: Var: Local 44
                                        Block 22 [150-198] [Type Unit]:
                                            Stmt 23 [168-184]: Local (Immutable):
                                                Pat 24 [172-173] [Type String]: Bind: Ident 25 [172-173] "x"
                                                Expr 26 [176-183] [Type String]: String:
                                                    Lit: "First"
                                            Stmt _id_ [205-206]: Semi: Expr _id_ [205-206] [Type Unit]: Assign:
                                                Expr _id_ [205-206] [Type Bool]: Var: Local 44
                                                Expr _id_ [205-206] [Type Bool]: UnOp (NotL):
                                                    Expr 27 [205-206] [Type Bool]: Var: Local 7
                                            Stmt _id_ [225-274]: Expr: Expr _id_ [225-274] [Type Unit]: If:
                                                Expr _id_ [205-206] [Type Bool]: Var: Local 44
                                                Expr _id_ [225-274] [Type Unit]: Expr Block: Block 28 [225-274] [Type Unit]:
                                                    Stmt 29 [243-260]: Local (Immutable):
                                                        Pat 30 [247-248] [Type String]: Bind: Ident 31 [247-248] "y"
                                                        Expr 32 [251-259] [Type String]: String:
                                                            Lit: "Second"
                                Stmt _id_ [291-292]: Semi: Expr _id_ [291-292] [Type Unit]: Assign:
                                    Expr _id_ [291-292] [Type Bool]: Var: Local 46
                                    Expr _id_ [291-292] [Type Bool]: UnOp (NotL):
                                        Expr 33 [291-292] [Type Bool]: Var: Local 11
                                Stmt _id_ [307-395]: Expr: Expr _id_ [307-395] [Type Unit]: If:
                                    Expr _id_ [291-292] [Type Bool]: Var: Local 46
                                    Expr _id_ [307-395] [Type Unit]: Expr Block: Block 34 [307-395] [Type Unit]:
                                        Stmt 35 [321-385]: Semi: Expr _id_ [321-384] [Type Unit]: Expr Block: Block _id_ [321-384] [Type Unit]:
                                            Stmt _id_ [383-384]: Local (Mutable):
                                                Pat _id_ [383-384] [Type Bool]: Bind: Ident 45 [383-384] "continue_cond_45"
                                                Expr _id_ [383-384] [Type Bool]: Lit: Bool(true)
                                            Stmt _id_ [321-384]: Expr: Expr _id_ [321-384] [Type Unit]: While:
                                                Expr _id_ [383-384] [Type Bool]: Var: Local 45
                                                Block 37 [328-376] [Type Unit]:
                                                    Stmt 38 [346-362]: Local (Immutable):
                                                        Pat 39 [350-351] [Type String]: Bind: Ident 40 [350-351] "z"
                                                        Expr 41 [354-361] [Type String]: String:
                                                            Lit: "Third"
                                                    Stmt _id_ [383-384]: Semi: Expr _id_ [383-384] [Type Unit]: Assign:
                                                        Expr _id_ [383-384] [Type Bool]: Var: Local 45
                                                        Expr _id_ [383-384] [Type Bool]: UnOp (NotL):
                                                            Expr 42 [383-384] [Type Bool]: Var: Local 15
            adj: <none>
            ctl: <none>
            ctl-adj: <none>"#,
    );
}
