use qsc_passes::assigner::NodeId;
use qsc_passes::ty::{LocalItemId, PackageId};
use qsc_passes::hir::Ident;
use qsc_passes::rename::{
    find_by_offset, get_rename, prepare_rename, protocol_span, Compilation, FileSpan, Located,
    Rename, Res, Search, Source,
};
use qsc_passes::span::Span;
use qsc_passes::ty::ItemId;

fn sources() -> Compilation {
    Compilation {
        sources: vec![
            Source { name: "first.qs".to_string(), offset: 0 },
            Source { name: "second.qs".to_string(), offset: 100 },
            Source { name: "third.qs".to_string(), offset: 250 },
        ],
    }
}

fn foo() -> Ident {
    Ident { id: NodeId(7), span: Span { lo: 131, hi: 134 }, name: "Foo".to_string() }
}

fn here(item: usize) -> ItemId {
    ItemId { package: None, item: LocalItemId(item) }
}

fn elsewhere(item: usize) -> ItemId {
    ItemId { package: Some(PackageId(1)), item: LocalItemId(item) }
}

fn prepared(located: &Located) -> Option<(FileSpan, String)> {
    prepare_rename(&sources(), located)
}

fn in_second() -> Option<(FileSpan, String)> {
    Some((FileSpan { start: 31, end: 34 }, "Foo".to_string()))
}

fn search_text(search: Option<Search>) -> String {
    format!("{search:?}")
}

#[test]
fn callable_of_this_package_can_be_renamed() {
    let def = Located::CallableDef { name: foo(), res: Some(Res::Item(here(3))) };
    assert_eq!(prepared(&def), in_second());
    assert_eq!(search_text(get_rename(&def)), search_text(Some(Search::Item(here(3)))));
    let reference = Located::CallableRef { name: foo(), item: here(3) };
    assert_eq!(prepared(&reference), in_second());
    assert_eq!(search_text(get_rename(&reference)), search_text(Some(Search::Item(here(3)))));
}

#[test]
fn callable_of_another_package_cannot_be_renamed() {
    let reference = Located::CallableRef { name: foo(), item: elsewhere(3) };
    assert_eq!(prepared(&reference), None);
    assert!(get_rename(&reference).is_none());
    let def = Located::CallableDef { name: foo(), res: Some(Res::Item(elsewhere(3))) };
    assert_eq!(prepared(&def), None);
    assert!(get_rename(&def).is_none());
}

#[test]
fn declaration_that_resolves_to_no_item_cannot_be_renamed() {
    for res in [None, Some(Res::Local(NodeId(4))), Some(Res::Other)] {
        let def = Located::CallableDef { name: foo(), res };
        assert_eq!(prepared(&def), None);
        assert!(get_rename(&def).is_none());
        let ty = Located::NewTypeDef { name: foo(), res };
        assert_eq!(prepared(&ty), None);
        assert!(get_rename(&ty).is_none());
    }
}

#[test]
fn type_of_this_package_can_be_renamed() {
    let def = Located::NewTypeDef { name: foo(), res: Some(Res::Item(here(5))) };
    assert_eq!(prepared(&def), in_second());
    assert_eq!(search_text(get_rename(&def)), search_text(Some(Search::Item(here(5)))));
    let reference = Located::NewTypeRef { name: foo(), item: here(5) };
    assert_eq!(prepared(&reference), in_second());
    assert_eq!(search_text(get_rename(&reference)), search_text(Some(Search::Item(here(5)))));
    let foreign = Located::NewTypeRef { name: foo(), item: elsewhere(5) };
    assert_eq!(prepared(&foreign), None);
    assert!(get_rename(&foreign).is_none());
}

#[test]
fn field_is_searched_by_type_and_name() {
    let def = Located::FieldDef { name: foo(), udt: Some(here(5)) };
    assert_eq!(prepared(&def), in_second());
    assert_eq!(
        search_text(get_rename(&def)),
        search_text(Some(Search::Field(here(5), "Foo".to_string())))
    );
    let reference = Located::FieldRef { name: foo(), item: here(5) };
    assert_eq!(prepared(&reference), in_second());
    assert_eq!(
        search_text(get_rename(&reference)),
        search_text(Some(Search::Field(here(5), "Foo".to_string())))
    );
}

#[test]
fn field_without_a_type_of_this_package_cannot_be_renamed() {
    for located in [
        Located::FieldDef { name: foo(), udt: None },
        Located::FieldDef { name: foo(), udt: Some(elsewhere(5)) },
        Located::FieldRef { name: foo(), item: elsewhere(5) },
    ] {
        assert_eq!(prepared(&located), None);
        assert!(get_rename(&located).is_none());
    }
}

#[test]
fn local_is_searched_inside_its_callable() {
    let def = Located::LocalDef { name: foo(), callable: Some(NodeId(2)) };
    assert_eq!(prepared(&def), in_second());
    assert_eq!(search_text(get_rename(&def)), search_text(Some(Search::Local(NodeId(7), NodeId(2)))));
    let reference = Located::LocalRef { name: foo(), node: NodeId(55), callable: Some(NodeId(2)) };
    assert_eq!(prepared(&reference), in_second());
    assert_eq!(
        search_text(get_rename(&reference)),
        search_text(Some(Search::Local(NodeId(55), NodeId(2))))
    );
}

#[test]
fn local_outside_a_callable_cannot_be_renamed() {
    let def = Located::LocalDef { name: foo(), callable: None };
    assert_eq!(prepared(&def), None);
    assert!(get_rename(&def).is_none());
    let reference = Located::LocalRef { name: foo(), node: NodeId(55), callable: None };
    assert_eq!(prepared(&reference), None);
    assert!(get_rename(&reference).is_none());
}

#[test]
fn name_before_every_source_cannot_be_prepared() {
    let compilation = Compilation {
        sources: vec![Source { name: "late.qs".to_string(), offset: 200 }],
    };
    let reference = Located::CallableRef { name: foo(), item: here(3) };
    assert_eq!(prepare_rename(&compilation, &reference), None);
    assert_eq!(prepare_rename(&Compilation { sources: Vec::new() }, &reference), None);
}

#[test]
fn source_that_holds_an_offset_is_the_last_that_starts_at_or_before_it() {
    let compilation = sources();
    assert_eq!(find_by_offset(&compilation, 0), Some(0));
    assert_eq!(find_by_offset(&compilation, 99), Some(0));
    assert_eq!(find_by_offset(&compilation, 100), Some(1));
    assert_eq!(find_by_offset(&compilation, 249), Some(1));
    assert_eq!(find_by_offset(&compilation, 250), Some(2));
    assert_eq!(find_by_offset(&compilation, u32::MAX), Some(2));
    assert_eq!(find_by_offset(&Compilation { sources: Vec::new() }, 5), None);
}

#[test]
fn range_is_told_from_the_start_of_its_source() {
    let compilation = sources();
    assert_eq!(
        protocol_span(Span { lo: 5, hi: 9 }, &compilation),
        Some(FileSpan { start: 5, end: 9 })
    );
    assert_eq!(
        protocol_span(Span { lo: 260, hi: 300 }, &compilation),
        Some(FileSpan { start: 10, end: 50 })
    );
    assert_eq!(
        protocol_span(Span { lo: 120, hi: 260 }, &compilation),
        Some(FileSpan { start: 20, end: 160 })
    );
    assert_eq!(protocol_span(Span { lo: 120, hi: 90 }, &compilation), None);
}

#[test]
fn preparing_run_notes_the_name_and_another_run_the_search() {
    let mut preparing = Rename::new(true);
    preparing.at(&Located::CallableRef { name: foo(), item: here(3) });
    assert_eq!(preparing.prepare, Some((Span { lo: 131, hi: 134 }, "Foo".to_string())));
    assert!(preparing.search.is_none());

    let mut searching = Rename::new(false);
    searching.get_spans_for_item_rename(elsewhere(3), &foo());
    assert!(searching.search.is_none());
    searching.get_spans_for_field_rename(here(4), &foo());
    assert_eq!(
        search_text(searching.search),
        search_text(Some(Search::Field(here(4), "Foo".to_string())))
    );
    let mut local = Rename::new(false);
    local.get_spans_for_local_rename(NodeId(9), &foo(), NodeId(1));
    assert_eq!(search_text(local.search), search_text(Some(Search::Local(NodeId(9), NodeId(1)))));
    assert!(local.prepare.is_none());
}

#[test]
fn each_kind_of_name_has_its_handler() {
    let mut run = Rename::new(false);
    run.at_callable_def(&foo(), Some(Res::Item(here(1))));
    assert_eq!(search_text(run.search), search_text(Some(Search::Item(here(1)))));

    let mut run = Rename::new(false);
    run.at_callable_ref(&foo(), elsewhere(1));
    assert!(run.search.is_none());

    let mut run = Rename::new(true);
    run.at_new_type_def(&foo(), Some(Res::Other));
    assert!(run.prepare.is_none());
    run.at_new_type_ref(&foo(), here(2));
    assert_eq!(run.prepare, Some((Span { lo: 131, hi: 134 }, "Foo".to_string())));

    let mut run = Rename::new(false);
    run.at_field_def(&foo(), None);
    assert!(run.search.is_none());
    run.at_field_ref(&foo(), here(3));
    assert_eq!(
        search_text(run.search),
        search_text(Some(Search::Field(here(3), "Foo".to_string())))
    );

    let mut run = Rename::new(false);
    run.at_local_def(&foo(), None);
    assert!(run.search.is_none());
    run.at_local_def(&foo(), Some(NodeId(4)));
    assert_eq!(search_text(run.search), search_text(Some(Search::Local(NodeId(7), NodeId(4)))));

    let mut run = Rename::new(false);
    run.at_local_ref(&foo(), NodeId(9), Some(NodeId(4)));
    assert_eq!(search_text(run.search), search_text(Some(Search::Local(NodeId(9), NodeId(4)))));
}
