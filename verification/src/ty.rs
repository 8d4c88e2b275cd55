//! Resolved types.

use vstd::prelude::*;

verus! {

/// The index of a package in the store.
#[derive(Clone, Copy, Debug, PartialEq, Eq, Structural)]
pub struct PackageId(pub usize);

/// The index of an item inside its package.
#[derive(Clone, Copy, Debug, PartialEq, Eq, Structural)]
pub struct LocalItemId(pub usize);

/// An item, named from any package.
#[derive(Clone, Copy, Debug, PartialEq, Eq, Structural)]
pub struct ItemId {
    /// The package that holds the item; `None` for the package at hand.
    pub package: Option<PackageId>,
    /// The item inside that package.
    pub item: LocalItemId,
}

/// A primitive type.
#[derive(Clone, Copy, Debug, PartialEq, Eq, Structural)]
pub enum Prim {
    BigInt,
    Bool,
    Double,
    Int,
    Pauli,
    Qubit,
    Range,
    Result,
    String,
}

/// The two kinds of callable.
#[derive(Clone, Copy, Debug, PartialEq, Eq, Structural)]
pub enum CallableKind {
    Function,
    Operation,
}

/// The functors a callable supports.
#[derive(Clone, Copy, Debug, PartialEq, Eq, Structural)]
pub enum FunctorSetValue {
    Empty,
    Adj,
    Ctl,
    CtlAdj,
}

/// A resolved type.
#[derive(Debug)]
pub enum Ty {
    /// An array of the item type.
    Array(Box<Ty>),
    /// A callable from the first type to the second.
    Arrow(CallableKind, Box<Ty>, Box<Ty>, FunctorSetValue),
    /// The type parameter with the given index.
    Param(usize),
    /// A primitive type.
    Prim(Prim),
    /// A tuple; the empty tuple is the unit type.
    Tuple(Vec<Ty>),
    /// A user-defined type.
    Udt(ItemId),
    /// A type that could not be resolved.
    Invalid,
}

/// What a `Ty` stands for.
pub enum TyView {
    Array(Box<TyView>),
    Arrow(CallableKind, Box<TyView>, Box<TyView>, FunctorSetValue),
    Param(usize),
    Prim(Prim),
    Tuple(Seq<TyView>),
    Udt(ItemId),
    Invalid,
}

/// An argument for a generic parameter.
#[derive(Debug)]
pub enum GenericArg {
    /// A type for a type parameter.
    Ty(Ty),
    /// A functor set for a functor parameter.
    Functor(FunctorSetValue),
}

/// What a `GenericArg` stands for.
pub enum GenericArgView {
    Ty(TyView),
    Functor(FunctorSetValue),
}

impl GenericArg {
    pub open spec fn view(&self) -> GenericArgView {
        match self {
            GenericArg::Ty(ty) => GenericArgView::Ty(ty@),
            GenericArg::Functor(functors) => GenericArgView::Functor(*functors),
        }
    }
}

impl Clone for GenericArg {
    fn clone(&self) -> (r: GenericArg)
        ensures
            r@ == self@,
    {
        match self {
            GenericArg::Ty(ty) => GenericArg::Ty(ty.clone()),
            GenericArg::Functor(functors) => GenericArg::Functor(*functors),
        }
    }
}

/// The views of a list of generic arguments, in order.
pub open spec fn args_view(args: Seq<GenericArg>) -> Seq<GenericArgView> {
    Seq::new(args.len(), |i: int| args[i]@)
}

/// The views of a list of types, in order.
pub open spec fn tys_view(tys: Seq<Ty>) -> Seq<TyView>
    decreases tys,
{
    Seq::new(
        tys.len(),
        |i: int|
            if 0 <= i < tys.len() {
                tys[i].view()
            } else {
                TyView::Invalid
            },
    )
}

/// The unit type.
pub open spec fn unit_ty() -> TyView {
    TyView::Tuple(Seq::empty())
}

impl Ty {
    pub open spec fn view(&self) -> TyView
        decreases self,
    {
        match self {
            Ty::Array(item) => TyView::Array(Box::new(item.view())),
            Ty::Arrow(kind, input, output, functors) => TyView::Arrow(
                *kind,
                Box::new(input.view()),
                Box::new(output.view()),
                *functors,
            ),
            Ty::Param(index) => TyView::Param(*index),
            Ty::Prim(prim) => TyView::Prim(*prim),
            Ty::Tuple(items) => TyView::Tuple(tys_view(items@)),
            Ty::Udt(id) => TyView::Udt(*id),
            Ty::Invalid => TyView::Invalid,
        }
    }

    /// The unit type.
    pub fn unit() -> (r: Ty)
        ensures
            r@ == unit_ty(),
    {
        let items: Vec<Ty> = Vec::new();
        assert(tys_view(items@) =~= Seq::<TyView>::empty());
        Ty::Tuple(items)
    }
}

impl Clone for Ty {
    fn clone(&self) -> (r: Ty)
        ensures
            r@ == self@,
        decreases self,
    {
        match self {
            Ty::Array(item) => Ty::Array(Box::new((**item).clone())),
            Ty::Arrow(kind, input, output, functors) => Ty::Arrow(
                *kind,
                Box::new((**input).clone()),
                Box::new((**output).clone()),
                *functors,
            ),
            Ty::Param(index) => Ty::Param(*index),
            Ty::Prim(prim) => Ty::Prim(*prim),
            Ty::Tuple(items) => {
                let mut out: Vec<Ty> = Vec::new();
                let mut i: usize = 0;
                while i < items.len()
                    invariant
                        i <= items.len(),
                        *self == Ty::Tuple(*items),
                        out.len() == i,
                        forall|j: int| 0 <= j < i ==> out[j]@ == items[j]@,
                    decreases items.len() - i,
                {
                    assert(decreases_to!(self => self->Tuple_0));
                    assert(decreases_to!(*items => items[i as int]));
                    let item = items[i].clone();
                    out.push(item);
                    i += 1;
                }
                assert(tys_view(out@) =~= tys_view(items@));
                Ty::Tuple(out)
            },
            Ty::Udt(id) => Ty::Udt(*id),
            Ty::Invalid => Ty::Invalid,
        }
    }
}

} // verus!
