//! Renaming: what can be renamed under the cursor, and where its other
//! occurrences are to be looked for.
//!
//! The locator reports what stands under the cursor as a `Located`. From
//! that, `prepare_rename` tells the range and the text of the name that a
//! rename would replace, and `get_rename` tells which search finds every
//! occurrence of it. Only what the package at hand declares can be renamed.

use vstd::prelude::*;
use crate::assigner::NodeId;
use crate::hir::{Ident, IdentView};
use crate::span::Span;
use crate::ty::ItemId;

verus! {

/// What a name resolves to.
#[derive(Clone, Copy, Debug, PartialEq, Eq, Structural)]
pub enum Res {
    /// An item.
    Item(ItemId),
    /// A local variable, by the identity of its name.
    Local(NodeId),
    /// Something that is neither: a primitive type, a parameter.
    Other,
}

/// What stands under the cursor.
#[derive(Debug)]
pub enum Located {
    /// The name in a callable's declaration, with what it resolves to.
    CallableDef { name: Ident, res: Option<Res> },
    /// A use of a callable.
    CallableRef { name: Ident, item: ItemId },
    /// The name in a type's declaration, with what it resolves to.
    NewTypeDef { name: Ident, res: Option<Res> },
    /// A use of a declared type.
    NewTypeRef { name: Ident, item: ItemId },
    /// The name of a field in a type's declaration, with that type where it
    /// is known.
    FieldDef { name: Ident, udt: Option<ItemId> },
    /// A use of a field of the given type.
    FieldRef { name: Ident, item: ItemId },
    /// The name in a local variable's declaration, with the callable around
    /// it where there is one.
    LocalDef { name: Ident, callable: Option<NodeId> },
    /// A use of the local variable whose name has the identity `node`, with
    /// the callable around it where there is one.
    LocalRef { name: Ident, node: NodeId, callable: Option<NodeId> },
}

/// What a `Located` stands for.
pub enum LocatedView {
    CallableDef { name: IdentView, res: Option<Res> },
    CallableRef { name: IdentView, item: ItemId },
    NewTypeDef { name: IdentView, res: Option<Res> },
    NewTypeRef { name: IdentView, item: ItemId },
    FieldDef { name: IdentView, udt: Option<ItemId> },
    FieldRef { name: IdentView, item: ItemId },
    LocalDef { name: IdentView, callable: Option<NodeId> },
    LocalRef { name: IdentView, node: NodeId, callable: Option<NodeId> },
}

impl Located {
    pub open spec fn view(&self) -> LocatedView {
        match self {
            Located::CallableDef { name, res } => LocatedView::CallableDef { name: name@, res: *res },
            Located::CallableRef { name, item } => LocatedView::CallableRef {
                name: name@,
                item: *item,
            },
            Located::NewTypeDef { name, res } => LocatedView::NewTypeDef { name: name@, res: *res },
            Located::NewTypeRef { name, item } => LocatedView::NewTypeRef {
                name: name@,
                item: *item,
            },
            Located::FieldDef { name, udt } => LocatedView::FieldDef { name: name@, udt: *udt },
            Located::FieldRef { name, item } => LocatedView::FieldRef { name: name@, item: *item },
            Located::LocalDef { name, callable } => LocatedView::LocalDef {
                name: name@,
                callable: *callable,
            },
            Located::LocalRef { name, node, callable } => LocatedView::LocalRef {
                name: name@,
                node: *node,
                callable: *callable,
            },
        }
    }
}

/// The search that finds every occurrence of a name.
#[derive(Debug)]
pub enum Search {
    /// Every occurrence of an item.
    Item(ItemId),
    /// Every occurrence of the field with the given name of a type.
    Field(ItemId, String),
    /// Every occurrence, inside the callable with the second identity, of
    /// the local variable whose name has the first.
    Local(NodeId, NodeId),
}

/// What a `Search` stands for.
pub enum SearchView {
    Item(ItemId),
    Field(ItemId, Seq<char>),
    Local(NodeId, NodeId),
}

impl Search {
    pub open spec fn view(&self) -> SearchView {
        match self {
            Search::Item(item) => SearchView::Item(*item),
            Search::Field(item, name) => SearchView::Field(*item, name@),
            Search::Local(node, callable) => SearchView::Local(*node, *callable),
        }
    }
}

/// The view of a search that may be absent.
pub open spec fn opt_search_view(search: Option<Search>) -> Option<SearchView> {
    match search {
        Some(search) => Some(search@),
        None => None,
    }
}

/// Whether an item belongs to the package at hand.
pub open spec fn is_local(item: ItemId) -> bool {
    item.package is None
}

/// The item that a declaration's name resolves to, where it resolves to
/// one.
pub open spec fn declared_item(res: Option<Res>) -> Option<ItemId> {
    match res {
        Some(Res::Item(item)) => Some(item),
        _ => None,
    }
}

/// The name that a rename would replace, where what stands under the cursor
/// can be renamed: an item or a field of the package at hand, or a local
/// variable inside a callable.
pub open spec fn rename_target(located: LocatedView) -> Option<IdentView> {
    match located {
        LocatedView::CallableDef { name, res } | LocatedView::NewTypeDef { name, res } => {
            match declared_item(res) {
                Some(item) if is_local(item) => Some(name),
                _ => None,
            }
        },
        LocatedView::CallableRef { name, item }
        | LocatedView::NewTypeRef { name, item }
        | LocatedView::FieldRef { name, item } => if is_local(item) {
            Some(name)
        } else {
            None
        },
        LocatedView::FieldDef { name, udt } => match udt {
            Some(item) if is_local(item) => Some(name),
            _ => None,
        },
        LocatedView::LocalDef { name, callable } | LocatedView::LocalRef { name, callable, .. } => {
            if callable is Some {
                Some(name)
            } else {
                None
            }
        },
    }
}

/// The search that finds every occurrence of what stands under the cursor,
/// where it can be renamed.
pub open spec fn rename_search(located: LocatedView) -> Option<SearchView> {
    match located {
        LocatedView::CallableDef { name, res } | LocatedView::NewTypeDef { name, res } => {
            match declared_item(res) {
                Some(item) if is_local(item) => Some(SearchView::Item(item)),
                _ => None,
            }
        },
        LocatedView::CallableRef { name, item } | LocatedView::NewTypeRef { name, item } => {
            if is_local(item) {
                Some(SearchView::Item(item))
            } else {
                None
            }
        },
        LocatedView::FieldDef { name, udt } => match udt {
            Some(item) if is_local(item) => Some(SearchView::Field(item, name.name)),
            _ => None,
        },
        LocatedView::FieldRef { name, item } => if is_local(item) {
            Some(SearchView::Field(item, name.name))
        } else {
            None
        },
        LocatedView::LocalDef { name, callable } => match callable {
            Some(callable) => Some(SearchView::Local(name.id, callable)),
            None => None,
        },
        LocatedView::LocalRef { name, node, callable } => match callable {
            Some(callable) => Some(SearchView::Local(node, callable)),
            None => None,
        },
    }
}

/// A source file of a compilation: its name, and where it starts among all
/// the sources laid end to end.
#[derive(Debug)]
pub struct Source {
    pub name: String,
    pub offset: u32,
}

/// What a `Source` stands for.
pub struct SourceView {
    pub name: Seq<char>,
    pub offset: u32,
}

impl Source {
    pub open spec fn view(&self) -> SourceView {
        SourceView { name: self.name@, offset: self.offset }
    }
}

/// What a rename needs to know of a compilation: its sources, in the order
/// in which they were laid end to end.
#[derive(Debug)]
pub struct Compilation {
    pub sources: Vec<Source>,
}

impl Compilation {
    pub open spec fn view(&self) -> Seq<SourceView> {
        Seq::new(self.sources.len() as nat, |i: int| self.sources[i]@)
    }
}

/// A range inside one source file.
#[derive(Clone, Copy, Debug, PartialEq, Eq, Structural)]
pub struct FileSpan {
    pub start: u32,
    pub end: u32,
}

/// The index of the last of the first `upto` sources that starts at or
/// before `offset`.
pub open spec fn source_before(sources: Seq<SourceView>, offset: u32, upto: int) -> Option<int>
    decreases upto,
{
    if upto <= 0 || upto > sources.len() {
        None
    } else if sources[upto - 1].offset <= offset {
        Some(upto - 1)
    } else {
        source_before(sources, offset, upto - 1)
    }
}

/// The index of the source that holds `offset`: the last one that starts at
/// or before it.
pub open spec fn source_of(sources: Seq<SourceView>, offset: u32) -> Option<int> {
    source_before(sources, offset, sources.len() as int)
}

/// A range among all the sources, as a range inside the source that holds
/// its start; there is none where no source holds that start or the range
/// ends before that source starts.
pub open spec fn file_span(sources: Seq<SourceView>, span: Span) -> Option<FileSpan> {
    match source_of(sources, span.lo) {
        Some(i) => if sources[i].offset <= span.hi {
            Some(
                FileSpan {
                    start: (span.lo - sources[i].offset) as u32,
                    end: (span.hi - sources[i].offset) as u32,
                },
            )
        } else {
            None
        },
        None => None,
    }
}

/// Finds the source that holds `offset`.
pub fn find_by_offset(compilation: &Compilation, offset: u32) -> (r: Option<usize>)
    ensures
        r matches Some(i) ==> source_of(compilation@, offset) == Some(i as int) && i
            < compilation.sources.len() && compilation.sources[i as int].offset <= offset,
        r is None ==> source_of(compilation@, offset) is None,
{
    let mut upto: usize = compilation.sources.len();
    while upto > 0
        invariant
            upto <= compilation.sources.len(),
            source_of(compilation@, offset) == source_before(compilation@, offset, upto as int),
        decreases upto,
    {
        if compilation.sources[upto - 1].offset <= offset {
            return Some(upto - 1);
        }
        upto -= 1;
    }
    None
}

/// Tells a range among all the sources as a range inside its source.
pub fn protocol_span(span: Span, compilation: &Compilation) -> (r: Option<FileSpan>)
    ensures
        r == file_span(compilation@, span),
{
    match find_by_offset(compilation, span.lo) {
        Some(i) => {
            let start = compilation.sources[i].offset;
            assert(compilation@[i as int].offset == start);
            if start <= span.hi {
                Some(FileSpan { start: span.lo - start, end: span.hi - start })
            } else {
                None
            }
        },
        None => None,
    }
}

/// What the locator's report leads to: in a preparing run, the name that
/// would be replaced; otherwise the search for its occurrences.
#[derive(Debug)]
pub struct Rename {
    pub is_prepare: bool,
    pub prepare: Option<(Span, String)>,
    pub search: Option<Search>,
}

/// The range and the text of a name.
pub open spec fn named(name: IdentView) -> (Span, Seq<char>) {
    (name.span, name.name)
}

/// The view of a name's range and text that may be absent.
pub open spec fn opt_named_view(prepare: Option<(Span, String)>) -> Option<(Span, Seq<char>)> {
    match prepare {
        Some((span, text)) => Some((span, text@)),
        None => None,
    }
}

impl Rename {
    /// A run that has found nothing yet.
    pub fn new(is_prepare: bool) -> (r: Rename)
        ensures
            r.is_prepare == is_prepare,
            r.prepare is None,
            r.search is None,
    {
        Rename { is_prepare, prepare: None, search: None }
    }

    /// Takes note of an item: of its name in a preparing run, of the search
    /// for it otherwise. An item of another package is passed over.
    pub fn get_spans_for_item_rename(&mut self, item: ItemId, name: &Ident)
        ensures
            final(self).is_prepare == old(self).is_prepare,
            !is_local(item) ==> *final(self) == *old(self),
            is_local(item) && old(self).is_prepare ==> opt_named_view(final(self).prepare) == Some(
                named(name@),
            ) && final(self).search == old(self).search,
            is_local(item) && !old(self).is_prepare ==> opt_search_view(final(self).search) == Some(
                SearchView::Item(item),
            ) && final(self).prepare == old(self).prepare,
    {
        if item.package.is_none() {
            if self.is_prepare {
                self.prepare = Some((name.span, name.name.clone()));
            } else {
                self.search = Some(Search::Item(item));
            }
        }
    }

    /// Takes note of a field of a type: of its name in a preparing run, of
    /// the search for it otherwise. A type of another package is passed over.
    pub fn get_spans_for_field_rename(&mut self, item: ItemId, name: &Ident)
        ensures
            final(self).is_prepare == old(self).is_prepare,
            !is_local(item) ==> *final(self) == *old(self),
            is_local(item) && old(self).is_prepare ==> opt_named_view(final(self).prepare) == Some(
                named(name@),
            ) && final(self).search == old(self).search,
            is_local(item) && !old(self).is_prepare ==> opt_search_view(final(self).search) == Some(
                SearchView::Field(item, name@.name),
            ) && final(self).prepare == old(self).prepare,
    {
        if item.package.is_none() {
            if self.is_prepare {
                self.prepare = Some((name.span, name.name.clone()));
            } else {
                self.search = Some(Search::Field(item, name.name.clone()));
            }
        }
    }

    /// Takes note of a local variable of the callable `callable`: of its
    /// name in a preparing run, of the search for it otherwise.
    pub fn get_spans_for_local_rename(&mut self, node: NodeId, name: &Ident, callable: NodeId)
        ensures
            final(self).is_prepare == old(self).is_prepare,
            old(self).is_prepare ==> opt_named_view(final(self).prepare) == Some(named(name@))
                && final(self).search == old(self).search,
            !old(self).is_prepare ==> opt_search_view(final(self).search) == Some(
                SearchView::Local(node, callable),
            ) && final(self).prepare == old(self).prepare,
    {
        if self.is_prepare {
            self.prepare = Some((name.span, name.name.clone()));
        } else {
            self.search = Some(Search::Local(node, callable));
        }
    }

    /// What this run has noted where it had noted nothing before: in a
    /// preparing run the name `name`, otherwise the search `search`; nothing
    /// where `found` does not hold.
    pub open spec fn noted(
        &self,
        before: &Rename,
        found: bool,
        name: IdentView,
        search: SearchView,
    ) -> bool {
        &&& self.is_prepare == before.is_prepare
        &&& !found ==> *self == *before
        &&& found && before.is_prepare ==> opt_named_view(self.prepare) == Some(named(name))
            && self.search == before.search
        &&& found && !before.is_prepare ==> opt_search_view(self.search) == Some(search)
            && self.prepare == before.prepare
    }

    /// The cursor is on the name in a callable's declaration, which resolves
    /// to `res`.
    pub fn at_callable_def(&mut self, name: &Ident, res: Option<Res>)
        ensures
            final(self).noted(
                old(self),
                declared_item(res) matches Some(item) && is_local(item),
                name@,
                SearchView::Item(declared_item(res).unwrap()),
            ),
    {
        match res {
            Some(Res::Item(item)) => self.get_spans_for_item_rename(item, name),
            _ => {},
        }
    }

    /// The cursor is on a use of the callable `item`.
    pub fn at_callable_ref(&mut self, name: &Ident, item: ItemId)
        ensures
            final(self).noted(old(self), is_local(item), name@, SearchView::Item(item)),
    {
        self.get_spans_for_item_rename(item, name);
    }

    /// The cursor is on the name in a type's declaration, which resolves to
    /// `res`.
    pub fn at_new_type_def(&mut self, name: &Ident, res: Option<Res>)
        ensures
            final(self).noted(
                old(self),
                declared_item(res) matches Some(item) && is_local(item),
                name@,
                SearchView::Item(declared_item(res).unwrap()),
            ),
    {
        match res {
            Some(Res::Item(item)) => self.get_spans_for_item_rename(item, name),
            _ => {},
        }
    }

    /// The cursor is on a use of the declared type `item`.
    pub fn at_new_type_ref(&mut self, name: &Ident, item: ItemId)
        ensures
            final(self).noted(old(self), is_local(item), name@, SearchView::Item(item)),
    {
        self.get_spans_for_item_rename(item, name);
    }

    /// The cursor is on the name of a field in the declaration of the type
    /// `udt`, where that type is known.
    pub fn at_field_def(&mut self, name: &Ident, udt: Option<ItemId>)
        ensures
            final(self).noted(
                old(self),
                udt matches Some(item) && is_local(item),
                name@,
                SearchView::Field(udt.unwrap(), name@.name),
            ),
    {
        match udt {
            Some(item) => self.get_spans_for_field_rename(item, name),
            None => {},
        }
    }

    /// The cursor is on a use of a field of the type `item`.
    pub fn at_field_ref(&mut self, name: &Ident, item: ItemId)
        ensures
            final(self).noted(
                old(self),
                is_local(item),
                name@,
                SearchView::Field(item, name@.name),
            ),
    {
        self.get_spans_for_field_rename(item, name);
    }

    /// The cursor is on the name in a local variable's declaration, inside
    /// `callable` where there is one around it.
    pub fn at_local_def(&mut self, name: &Ident, callable: Option<NodeId>)
        ensures
            final(self).noted(
                old(self),
                callable is Some,
                name@,
                SearchView::Local(name.id, callable.unwrap()),
            ),
    {
        match callable {
            Some(callable) => self.get_spans_for_local_rename(name.id, name, callable),
            None => {},
        }
    }

    /// The cursor is on a use of the local variable whose name has the
    /// identity `node`, inside `callable` where there is one around it.
    pub fn at_local_ref(&mut self, name: &Ident, node: NodeId, callable: Option<NodeId>)
        ensures
            final(self).noted(
                old(self),
                callable is Some,
                name@,
                SearchView::Local(node, callable.unwrap()),
            ),
    {
        match callable {
            Some(callable) => self.get_spans_for_local_rename(node, name, callable),
            None => {},
        }
    }

    /// Takes the locator's report.
    pub fn at(&mut self, located: &Located)
        requires
            old(self).prepare is None,
            old(self).search is None,
        ensures
            final(self).is_prepare == old(self).is_prepare,
            old(self).is_prepare ==> final(self).search is None && opt_named_view(
                final(self).prepare,
            ) == match rename_target(located@) {
                Some(name) => Some(named(name)),
                None => None,
            },
            !old(self).is_prepare ==> final(self).prepare is None && opt_search_view(
                final(self).search,
            ) == rename_search(located@),
    {
        match located {
            Located::CallableDef { name, res } => self.at_callable_def(name, *res),
            Located::CallableRef { name, item } => self.at_callable_ref(name, *item),
            Located::NewTypeDef { name, res } => self.at_new_type_def(name, *res),
            Located::NewTypeRef { name, item } => self.at_new_type_ref(name, *item),
            Located::FieldDef { name, udt } => self.at_field_def(name, *udt),
            Located::FieldRef { name, item } => self.at_field_ref(name, *item),
            Located::LocalDef { name, callable } => self.at_local_def(name, *callable),
            Located::LocalRef { name, node, callable } => self.at_local_ref(name, *node, *callable),
        }
    }
}

/// The range, inside its source file, and the text of the name that a rename
/// at the cursor would replace.
///
/// There is none where what stands under the cursor cannot be renamed, or
/// where no source holds the name.
pub fn prepare_rename(compilation: &Compilation, located: &Located) -> (r: Option<(FileSpan, String)>)
    ensures
        match rename_target(located@) {
            Some(name) => match file_span(compilation@, name.span) {
                Some(span) => r matches Some((s, text)) && s == span && text@ == name.name,
                None => r is None,
            },
            None => r is None,
        },
{
    let mut rename = Rename::new(true);
    rename.at(located);
    match rename.prepare {
        Some((span, text)) => match protocol_span(span, compilation) {
            Some(span) => Some((span, text)),
            None => None,
        },
        None => None,
    }
}

/// The search that finds every occurrence of the name that a rename at the
/// cursor would replace; `None` where what stands under the cursor cannot be
/// renamed.
pub fn get_rename(located: &Located) -> (r: Option<Search>)
    ensures
        opt_search_view(r) == rename_search(located@),
{
    let mut rename = Rename::new(false);
    rename.at(located);
    rename.search
}

} // verus!
