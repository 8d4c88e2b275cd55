//! The table of the core library's callables.

use vstd::prelude::*;
use crate::ty::{args_view, tys_view, GenericArg, GenericArgView, ItemId, Ty, TyView};

verus! {

/// A type that is generic in `params` type parameters: inside `ty`,
/// `Ty::Param(i)` stands for the argument with index `i`.
#[derive(Debug)]
pub struct Scheme {
    pub params: usize,
    pub ty: Ty,
}

/// What a `Scheme` stands for.
pub struct SchemeView {
    pub params: usize,
    pub ty: TyView,
}

/// A callable that the table knows.
#[derive(Debug)]
pub struct Term {
    pub namespace: String,
    pub name: String,
    pub id: ItemId,
    pub scheme: Scheme,
}

/// What a `Term` stands for.
pub struct TermView {
    pub namespace: Seq<char>,
    pub name: Seq<char>,
    pub id: ItemId,
    pub scheme: SchemeView,
}

/// The callables of the core library. Where two entries share a namespace
/// and a name, the earlier one is found.
#[derive(Debug)]
pub struct Table {
    pub terms: Vec<Term>,
}

/// `ty` with every type parameter replaced by its argument. A parameter
/// without an argument stays.
pub open spec fn substitute(ty: TyView, args: Seq<TyView>) -> TyView
    decreases ty,
{
    match ty {
        TyView::Array(item) => TyView::Array(Box::new(substitute(*item, args))),
        TyView::Arrow(kind, input, output, functors) => TyView::Arrow(
            kind,
            Box::new(substitute(*input, args)),
            Box::new(substitute(*output, args)),
            functors,
        ),
        TyView::Param(index) => if index < args.len() {
            args[index as int]
        } else {
            ty
        },
        TyView::Prim(_) => ty,
        TyView::Tuple(items) => TyView::Tuple(
            Seq::new(
                items.len(),
                |i: int|
                    if 0 <= i < items.len() {
                        substitute(items[i], args)
                    } else {
                        TyView::Invalid
                    },
            ),
        ),
        TyView::Udt(_) => ty,
        TyView::Invalid => ty,
    }
}

/// Whether every argument is a type.
pub open spec fn all_types(args: Seq<GenericArgView>) -> bool {
    forall|i: int| 0 <= i < args.len() ==> args[i] is Ty
}

/// The types that the arguments hold, in order.
pub open spec fn arg_types(args: Seq<GenericArgView>) -> Seq<TyView> {
    Seq::new(args.len(), |i: int| args[i]->Ty_0)
}

/// The type that `scheme` gives for `args`: there is one where there are as
/// many arguments as parameters and each argument is a type.
pub open spec fn instantiate(scheme: SchemeView, args: Seq<GenericArgView>) -> Option<TyView> {
    if args.len() == scheme.params && all_types(args) {
        Some(substitute(scheme.ty, arg_types(args)))
    } else {
        None
    }
}

/// The first entry at or after `from` with the given namespace and name.
pub open spec fn resolve_from(
    terms: Seq<TermView>,
    namespace: Seq<char>,
    name: Seq<char>,
    from: int,
) -> Option<TermView>
    decreases terms.len() - from,
{
    if from < 0 || from >= terms.len() {
        None
    } else if terms[from].namespace == namespace && terms[from].name == name {
        Some(terms[from])
    } else {
        resolve_from(terms, namespace, name, from + 1)
    }
}

/// The entry that the table finds for a namespace and a name.
pub open spec fn resolve(terms: Seq<TermView>, namespace: Seq<char>, name: Seq<char>) -> Option<
    TermView,
> {
    resolve_from(terms, namespace, name, 0)
}

impl Scheme {
    pub open spec fn view(&self) -> SchemeView {
        SchemeView { params: self.params, ty: self.ty@ }
    }

    /// The type that the scheme gives for `args`, or `None` where the
    /// arguments do not fit the parameters.
    pub fn instantiate(&self, args: &Vec<GenericArg>) -> (r: Option<Ty>)
        ensures
            match instantiate(self@, args_view(args@)) {
                Some(ty) => r.is_some() && r.unwrap()@ == ty,
                None => r.is_none(),
            },
    {
        if args.len() != self.params {
            return None;
        }
        let mut tys: Vec<Ty> = Vec::new();
        let mut i: usize = 0;
        while i < args.len()
            invariant
                i <= args.len(),
                tys.len() == i,
                forall|j: int| 0 <= j < i ==> #[trigger] args[j]@ is Ty,
                forall|j: int| 0 <= j < i ==> #[trigger] tys[j]@ == args[j]@->Ty_0,
            decreases args.len() - i,
        {
            match &args[i] {
                GenericArg::Ty(ty) => {
                    tys.push(ty.clone());
                },
                GenericArg::Functor(_) => {
                    assert(!(args_view(args@)[i as int] is Ty));
                    return None;
                },
            }
            i += 1;
        }
        assert forall|j: int| 0 <= j < args_view(args@).len() implies args_view(args@)[j] is Ty by {
            assert(args_view(args@)[j] == args[j]@);
        }
        assert forall|j: int| 0 <= j < tys.len() implies tys_view(tys@)[j] == arg_types(
            args_view(args@),
        )[j] by {
            assert(tys[j]@ == args[j]@->Ty_0);
        }
        assert(tys_view(tys@) =~= arg_types(args_view(args@)));
        Some(substitute_in(&self.ty, &tys))
    }
}

/// `ty` with every type parameter replaced by a copy of its argument.
pub fn substitute_in(ty: &Ty, args: &Vec<Ty>) -> (r: Ty)
    ensures
        r@ == substitute(ty@, tys_view(args@)),
    decreases ty,
{
    match ty {
        Ty::Array(item) => Ty::Array(Box::new(substitute_in(item, args))),
        Ty::Arrow(kind, input, output, functors) => Ty::Arrow(
            *kind,
            Box::new(substitute_in(input, args)),
            Box::new(substitute_in(output, args)),
            *functors,
        ),
        Ty::Param(index) => if *index < args.len() {
            args[*index].clone()
        } else {
            Ty::Param(*index)
        },
        Ty::Prim(prim) => Ty::Prim(*prim),
        Ty::Tuple(items) => {
            let mut out: Vec<Ty> = Vec::new();
            let mut i: usize = 0;
            while i < items.len()
                invariant
                    i <= items.len(),
                    *ty == Ty::Tuple(*items),
                    out.len() == i,
                    forall|j: int|
                        0 <= j < i ==> out[j]@ == substitute(items[j]@, tys_view(args@)),
                decreases items.len() - i,
            {
                assert(decreases_to!(ty => ty->Tuple_0));
                assert(decreases_to!(*items => items[i as int]));
                let item = substitute_in(&items[i], args);
                out.push(item);
                i += 1;
            }
            proof {
                let want = substitute(ty@, tys_view(args@))->Tuple_0;
                assert(ty@ == TyView::Tuple(tys_view(items@)));
                assert(want.len() == items.len());
                assert forall|j: int| 0 <= j < out.len() implies tys_view(out@)[j] == want[j] by {
                    assert(tys_view(items@)[j] == items[j]@);
                }
                assert(tys_view(out@) =~= want);
            }
            Ty::Tuple(out)
        },
        Ty::Udt(id) => Ty::Udt(*id),
        Ty::Invalid => Ty::Invalid,
    }
}

impl Term {
    pub open spec fn view(&self) -> TermView {
        TermView {
            namespace: self.namespace@,
            name: self.name@,
            id: self.id,
            scheme: self.scheme@,
        }
    }
}

impl Table {
    pub open spec fn view(&self) -> Seq<TermView> {
        Seq::new(self.terms.len() as nat, |i: int| self.terms[i]@)
    }

    /// Finds the callable with the given namespace and name.
    pub fn resolve_term(&self, namespace: &str, name: &str) -> (r: Option<&Term>)
        ensures
            match resolve(self@, namespace@, name@) {
                Some(term) => r.is_some() && r.unwrap()@ == term,
                None => r.is_none(),
            },
    {
        let wanted_namespace = String::from_str(namespace);
        let wanted_name = String::from_str(name);
        let mut i: usize = 0;
        while i < self.terms.len()
            invariant
                i <= self.terms.len(),
                wanted_namespace@ == namespace@,
                wanted_name@ == name@,
                resolve(self@, namespace@, name@) == resolve_from(
                    self@,
                    namespace@,
                    name@,
                    i as int,
                ),
            decreases self.terms.len() - i,
        {
            let term = &self.terms[i];
            if term.namespace == wanted_namespace && term.name == wanted_name {
                return Some(term);
            }
            i += 1;
        }
        None
    }
}

} // verus!
