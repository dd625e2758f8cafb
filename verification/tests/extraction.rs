use shredder_derive::attrs::{extract_flags, find_shredder_flags, Annotation, Flag, MetaEntry};
use shredder_derive::err::DiagKind;

fn ident(name: &str, loc: u64) -> MetaEntry {
    MetaEntry::Ident { name: name.to_string(), loc }
}

fn shredder_list(entries: Vec<MetaEntry>, head_loc: u64) -> Annotation {
    Annotation::List { head: vec!["shredder".to_string()], head_loc, entries }
}

fn names_and_locs(flags: &[Flag]) -> Vec<(String, u64)> {
    flags.iter().map(|f| (f.name.clone(), f.loc)).collect()
}

#[test]
fn extracts_flags_in_order() {
    let attr = shredder_list(vec![ident("skip_scan", 11), ident("unsafe_skip_gc_drop", 12)], 10);
    let flags = find_shredder_flags(&attr).unwrap();
    assert_eq!(
        names_and_locs(&flags),
        vec![("skip_scan".to_string(), 11), ("unsafe_skip_gc_drop".to_string(), 12)]
    );
}

#[test]
fn foreign_head_is_ignored() {
    let attr = Annotation::List {
        head: vec!["serde".to_string()],
        head_loc: 1,
        entries: vec![ident("anything", 2)],
    };
    let flags = find_shredder_flags(&attr).unwrap();
    assert!(flags.is_empty());
}

#[test]
fn opaque_annotation_is_ignored() {
    let flags = find_shredder_flags(&Annotation::Opaque).unwrap();
    assert!(flags.is_empty());
}

#[test]
fn foreign_multi_segment_head_is_ignored() {
    // `other::shredder(...)` does not start with the namespace word.
    let attr = Annotation::List {
        head: vec!["other".to_string(), "shredder".to_string()],
        head_loc: 1,
        entries: vec![ident("skip_scan", 2)],
    };
    let flags = find_shredder_flags(&attr).unwrap();
    assert!(flags.is_empty());
}

#[test]
fn namespaced_multi_segment_head_is_rejected() {
    // `shredder::extra(...)` is an unknown path, reported at the head.
    let attr = Annotation::List {
        head: vec!["shredder".to_string(), "extra".to_string()],
        head_loc: 7,
        entries: vec![],
    };
    let err = find_shredder_flags(&attr).unwrap_err();
    assert_eq!(err.kind, DiagKind::UnknownPath);
    assert_eq!(err.loc, 7);
    assert_eq!(err.message(), "Unknown path shredder::???");
}

#[test]
fn nested_list_entry_is_rejected() {
    let attr = shredder_list(vec![ident("skip_scan", 2), MetaEntry::Nested { loc: 3 }], 1);
    let err = find_shredder_flags(&attr).unwrap_err();
    assert_eq!(err.kind, DiagKind::MalformedEntry);
    assert_eq!(err.loc, 3);
    assert_eq!(err.message(), "Unknown shredder flag");
}

#[test]
fn key_value_entry_is_rejected() {
    let attr = shredder_list(vec![MetaEntry::KeyValue { loc: 4 }], 1);
    let err = find_shredder_flags(&attr).unwrap_err();
    assert_eq!(err.kind, DiagKind::MalformedEntry);
    assert_eq!(err.loc, 4);
}

#[test]
fn literal_entry_is_rejected() {
    let attr = shredder_list(vec![MetaEntry::Literal { loc: 5 }], 1);
    let err = find_shredder_flags(&attr).unwrap_err();
    assert_eq!(err.kind, DiagKind::MalformedEntry);
    assert_eq!(err.loc, 5);
}

#[test]
fn first_bad_entry_wins() {
    let attr = shredder_list(
        vec![MetaEntry::KeyValue { loc: 21 }, MetaEntry::Literal { loc: 22 }],
        20,
    );
    let err = find_shredder_flags(&attr).unwrap_err();
    assert_eq!(err.loc, 21);
}

#[test]
fn extract_flags_concatenates_across_annotations() {
    let attrs = vec![
        Annotation::Opaque,
        shredder_list(vec![ident("can_deref", 2)], 1),
        Annotation::List {
            head: vec!["doc".to_string()],
            head_loc: 3,
            entries: vec![ident("hidden", 4)],
        },
        shredder_list(vec![ident("cant_drop", 6)], 5),
    ];
    let flags = extract_flags(&attrs).unwrap();
    assert_eq!(
        names_and_locs(&flags),
        vec![("can_deref".to_string(), 2), ("cant_drop".to_string(), 6)]
    );
}

#[test]
fn extract_flags_stops_at_first_malformed_annotation() {
    let attrs = vec![
        shredder_list(vec![ident("can_deref", 2)], 1),
        shredder_list(vec![MetaEntry::Nested { loc: 9 }], 8),
        shredder_list(vec![ident("cant_drop", 11)], 10),
    ];
    let err = extract_flags(&attrs).unwrap_err();
    assert_eq!(err.kind, DiagKind::MalformedEntry);
    assert_eq!(err.loc, 9);
}
