//! The pass that replaces `for` and `repeat` loops by `while` loops.
//!
//! `LoopUni` is the pass. `expansion` says what stands in place of each kind
//! of loop, and `model` what the pass makes of a whole tree; `rules` and
//! `walk` build it, and `survey` tells beforehand whether the pass can be
//! asked. `guard` says what the tests of the lowered loops mean, and which
//! values a loop over a range or an array visits.
//!
//! The other modules hold what is proved of the pass:
//! - its result holds no `for` and no `repeat` loop (`primitive`, `free`,
//!   `removal`), and a tree without them is left as it is (`fixed`), so that
//!   a second run changes nothing (`laws`);
//! - the parts of a loop stand where they should in what replaces it
//!   (`shape`);
//! - every expression of the tree that is no loop itself occurs as often
//!   after the pass as before, and what the pass adds carries the placeholder
//!   (`occurrences`, `once`, `kept`);
//! - every local that the pass adds carries an identity that the pass drew
//!   for it, and the loops inside a loop draw theirs before the loop itself
//!   (`added`, `widening`, `fresh_locals`, `hygiene`, `order`).
//!
//! The proofs that go by induction over the tree stand one lemma to a
//! module, as the functions of the walk do.

pub mod expansion;
pub mod model;
pub mod rules;
pub mod walk;
pub mod survey;
pub mod guard;

pub mod primitive;
pub mod free;
pub mod removal;
pub mod fixed;
pub mod occurrences;
pub mod once;
pub mod kept;
pub mod added;
pub mod widening;
pub mod fresh_locals;
pub mod hygiene;
pub mod order;
pub mod shape;
pub mod laws;

use vstd::prelude::*;
use crate::assigner::{Assigner, NodeId, PLACEHOLDER};
use crate::ty::LocalItemId;
use crate::global::Table;
use crate::hir::{Block, Expr, ExprKind, Lit, Package, Stmt, StmtKind};
use crate::loop_unification::model::{
    fresh_block, fresh_expr, fresh_package, fresh_stmt, lowerable_block, lowerable_expr,
    lowerable_package, lowerable_stmt,
};
use crate::span::Span;
use crate::ty::Ty;

verus! {

/// Why the pass cannot be run on a tree. Either way an earlier phase is at
/// fault, not the program's author.
#[derive(Clone, Copy, Debug, PartialEq, Eq, Structural)]
pub enum InternalError {
    /// Some `for` loops over what is neither an array nor a range, or over an
    /// array while the core library's `Length` is not at hand, or some
    /// `repeat` has a condition that is not Boolean.
    MalformedLoop,
    /// The allocator has fewer identities left than the pass would draw.
    OutOfIdentities,
}

/// What `check_package` and `run` answer for a package, a first free
/// identity and a core library's table.
pub open spec fn verdict(package: crate::hir::PackageView, next: nat, core: Seq<
    crate::global::TermView,
>) -> Result<(), InternalError> {
    if !lowerable_package(package, core) {
        Err(InternalError::MalformedLoop)
    } else if next + fresh_package(package) > PLACEHOLDER {
        Err(InternalError::OutOfIdentities)
    } else {
        Ok(())
    }
}

/// The pass: it reads the core library's table and draws fresh identities
/// from the allocator that the whole compilation shares.
pub struct LoopUni<'a> {
    pub core: &'a Table,
    pub assigner: &'a mut Assigner,
}

fn hollow_expr() -> Expr {
    Expr {
        id: NodeId::default(),
        span: Span { lo: 0, hi: 0 },
        ty: Ty::Invalid,
        kind: ExprKind::Lit(Lit::Bool(false)),
    }
}

impl<'a> LoopUni<'a> {
    /// Tells whether the pass can be run on `package`: whether every loop in
    /// it is well formed and the allocator has enough identities left.
    pub fn check_package(&self, package: &Package) -> (r: Result<(), InternalError>)
        ensures
            r == verdict(package@, old(self.assigner)@, self.core@),
    {
        let survey = survey::package::survey_package(self.core, package);
        if !survey.lowerable {
            return Err(InternalError::MalformedLoop);
        }
        match survey.fresh {
            Some(fresh) => {
                if fresh <= self.assigner.remaining() {
                    Ok(())
                } else {
                    Err(InternalError::OutOfIdentities)
                }
            },
            None => Err(InternalError::OutOfIdentities),
        }
    }

    /// Lowers every loop in `package`, in place, if the pass can be run on
    /// it; otherwise says why not and changes nothing.
    pub fn run(&mut self, package: &mut Package) -> (r: Result<(), InternalError>)
        ensures
            r == verdict(old(package)@, old(self).assigner@, old(self).core@),
            r is Ok ==> final(package)@ == model::lower_package(
                old(package)@,
                old(self).assigner@,
                old(self).core@,
            ) && final(self).assigner@ == old(self).assigner@ + fresh_package(old(package)@),
            r is Err ==> *final(package) == *old(package) && final(self).assigner@ == old(
                self,
            ).assigner@,
            final(self).core == old(self).core,
            *final(final(self).assigner) == *final(old(self).assigner),
    {
        match self.check_package(package) {
            Ok(()) => {
                self.visit_package(package);
                Ok(())
            },
            Err(error) => Err(error),
        }
    }

    /// Lowers every loop in `package`, in place.
    pub fn visit_package(&mut self, package: &mut Package)
        requires
            lowerable_package(old(package)@, old(self).core@),
            old(self).assigner@ + fresh_package(old(package)@) <= PLACEHOLDER,
        ensures
            final(package)@ == model::lower_package(
                old(package)@,
                old(self).assigner@,
                old(self).core@,
            ),
            final(self).assigner@ == old(self).assigner@ + fresh_package(old(package)@),
            final(self).core == old(self).core,
            *final(final(self).assigner) == *final(old(self).assigner),
    {
        let mut taken = Package { items: Vec::new(), entry: None };
        std::mem::swap(package, &mut taken);
        *package = walk::package::lower_package(self.core, self.assigner, taken);
    }

    /// Lowers every loop in `block`, in place.
    pub fn visit_block(&mut self, block: &mut Block)
        requires
            lowerable_block(old(block)@, old(self).core@),
            old(self).assigner@ + fresh_block(old(block)@) <= PLACEHOLDER,
        ensures
            final(block)@ == model::lower_block(old(block)@, old(self).assigner@, old(self).core@),
            final(self).assigner@ == old(self).assigner@ + fresh_block(old(block)@),
            final(self).core == old(self).core,
            *final(final(self).assigner) == *final(old(self).assigner),
    {
        let mut taken = Block {
            id: NodeId::default(),
            span: Span { lo: 0, hi: 0 },
            ty: Ty::Invalid,
            stmts: Vec::new(),
        };
        std::mem::swap(block, &mut taken);
        *block = walk::block::lower_block(self.core, self.assigner, taken);
    }

    /// Lowers every loop in `stmt`, in place.
    pub fn visit_stmt(&mut self, stmt: &mut Stmt)
        requires
            lowerable_stmt(old(stmt)@, old(self).core@),
            old(self).assigner@ + fresh_stmt(old(stmt)@) <= PLACEHOLDER,
        ensures
            final(stmt)@ == model::lower_stmt(old(stmt)@, old(self).assigner@, old(self).core@),
            final(self).assigner@ == old(self).assigner@ + fresh_stmt(old(stmt)@),
            final(self).core == old(self).core,
            *final(final(self).assigner) == *final(old(self).assigner),
    {
        let mut taken = Stmt {
            id: NodeId::default(),
            span: Span { lo: 0, hi: 0 },
            kind: StmtKind::Item(LocalItemId(0)),
        };
        std::mem::swap(stmt, &mut taken);
        *stmt = walk::stmt::lower_stmt(self.core, self.assigner, taken);
    }

    /// Lowers every loop in `expr`, in place: the loops inside it first, then
    /// `expr` itself if it is one.
    pub fn visit_expr(&mut self, expr: &mut Expr)
        requires
            lowerable_expr(old(expr)@, old(self).core@),
            old(self).assigner@ + fresh_expr(old(expr)@) <= PLACEHOLDER,
        ensures
            final(expr)@ == model::lower_expr(old(expr)@, old(self).assigner@, old(self).core@),
            final(self).assigner@ == old(self).assigner@ + fresh_expr(old(expr)@),
            final(self).core == old(self).core,
            *final(final(self).assigner) == *final(old(self).assigner),
    {
        let mut taken = hollow_expr();
        std::mem::swap(expr, &mut taken);
        *expr = walk::expr::lower_expr(self.core, self.assigner, taken);
    }
}

} // verus!
