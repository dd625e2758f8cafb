use shredder_derive::attrs::{Annotation, MetaEntry};
use shredder_derive::decl::{FieldDecl, TypeDecl};
use shredder_derive::err::DiagKind;
use shredder_derive::finalize_derive::{finalize_derive, finalize_fields_derive};
use shredder_derive::scan_derive::{scan_derive, Fragment};

fn ident(name: &str, loc: u64) -> MetaEntry {
    MetaEntry::Ident { name: name.to_string(), loc }
}

fn shredder_list(entries: Vec<MetaEntry>, head_loc: u64) -> Annotation {
    Annotation::List { head: vec!["shredder".to_string()], head_loc, entries }
}

fn plain_field() -> FieldDecl {
    FieldDecl { attrs: vec![] }
}

fn flagged_field(words: &[&str], loc: u64) -> FieldDecl {
    let entries = words.iter().enumerate().map(|(k, w)| ident(w, loc + 1 + k as u64)).collect();
    FieldDecl { attrs: vec![shredder_list(entries, loc)] }
}

fn plain_struct(n_fields: usize) -> TypeDecl {
    TypeDecl::Struct { attrs: vec![], fields: (0..n_fields).map(|_| plain_field()).collect() }
}

#[test]
fn unannotated_struct_scans_and_drop_checks_every_field() {
    // The drop marker defaults to on, so each field gets a traversal call
    // followed by a drop-capability check; no deref checks appear.
    let out = scan_derive(&plain_struct(3)).unwrap();
    assert!(!out.generate_gc_deref);
    assert!(out.generate_gc_drop);
    assert_eq!(
        out.body,
        vec![
            Fragment::Scan { field: 0 },
            Fragment::CheckGcDrop { field: 0 },
            Fragment::Scan { field: 1 },
            Fragment::CheckGcDrop { field: 1 },
            Fragment::Scan { field: 2 },
            Fragment::CheckGcDrop { field: 2 },
        ]
    );
}

#[test]
fn unannotated_struct_finalizes_every_field_in_order() {
    let body = finalize_derive(&plain_struct(3)).unwrap();
    assert_eq!(body, vec![0, 1, 2]);
}

#[test]
fn drop_opted_out_leaves_one_traversal_call_per_field() {
    // With the drop marker opted out and no deref marker requested, the
    // traversal body is exactly one traversal call per field, in
    // declaration order, and no capability checks at all.
    let decl = TypeDecl::Struct {
        attrs: vec![shredder_list(vec![ident("cant_drop", 2)], 1)],
        fields: vec![plain_field(), plain_field(), plain_field()],
    };
    let out = scan_derive(&decl).unwrap();
    assert!(!out.generate_gc_deref);
    assert!(!out.generate_gc_drop);
    assert_eq!(
        out.body,
        vec![
            Fragment::Scan { field: 0 },
            Fragment::Scan { field: 1 },
            Fragment::Scan { field: 2 },
        ]
    );
    let body = finalize_derive(&decl).unwrap();
    assert_eq!(body, vec![0, 1, 2]);
}

#[test]
fn empty_struct_yields_empty_bodies() {
    let out = scan_derive(&plain_struct(0)).unwrap();
    assert!(out.body.is_empty());
    assert_eq!(finalize_derive(&plain_struct(0)).unwrap(), Vec::<usize>::new());
}

#[test]
fn skipped_second_field_with_deref_marker() {
    // Three fields, the second annotated skip_scan, the type can_deref:
    // every field gets a deref check (the type requests the marker and no
    // field suppressed it) and a drop check (the marker defaults to on);
    // the second field gets a safety-only check in place of its traversal
    // call.
    let decl = TypeDecl::Struct {
        attrs: vec![shredder_list(vec![ident("can_deref", 2)], 1)],
        fields: vec![plain_field(), flagged_field(&["skip_scan"], 10), plain_field()],
    };
    let out = scan_derive(&decl).unwrap();
    assert!(out.generate_gc_deref);
    assert!(out.generate_gc_drop);
    assert_eq!(
        out.body,
        vec![
            Fragment::Scan { field: 0 },
            Fragment::CheckGcDeref { field: 0 },
            Fragment::CheckGcDrop { field: 0 },
            Fragment::CheckGcSafe { field: 1 },
            Fragment::CheckGcDeref { field: 1 },
            Fragment::CheckGcDrop { field: 1 },
            Fragment::Scan { field: 2 },
            Fragment::CheckGcDeref { field: 2 },
            Fragment::CheckGcDrop { field: 2 },
        ]
    );
}

#[test]
fn skip_scan_with_suppressed_safety_emits_nothing_for_the_field() {
    let decl = TypeDecl::Struct {
        attrs: vec![shredder_list(vec![ident("cant_drop", 2)], 1)],
        fields: vec![
            flagged_field(&["skip_scan", "unsafe_skip_gc_safe"], 10),
            plain_field(),
        ],
    };
    let out = scan_derive(&decl).unwrap();
    assert_eq!(out.body, vec![Fragment::Scan { field: 1 }]);
}

#[test]
fn suppress_all_field_under_both_markers() {
    // A field under unsafe_skip_all contributes nothing to the traversal
    // body, even when the type requests both markers for the others.
    let decl = TypeDecl::Struct {
        attrs: vec![shredder_list(vec![ident("can_deref", 2)], 1)],
        fields: vec![flagged_field(&["unsafe_skip_all"], 10), plain_field()],
    };
    let out = scan_derive(&decl).unwrap();
    assert_eq!(
        out.body,
        vec![
            Fragment::Scan { field: 1 },
            Fragment::CheckGcDeref { field: 1 },
            Fragment::CheckGcDrop { field: 1 },
        ]
    );
    // It is still finalized: the alias does not touch skip_finalize.
    assert_eq!(finalize_derive(&decl).unwrap(), vec![0, 1]);
}

#[test]
fn field_deref_suppression_beats_type_marker() {
    let decl = TypeDecl::Struct {
        attrs: vec![shredder_list(vec![ident("can_deref", 2), ident("cant_drop", 3)], 1)],
        fields: vec![flagged_field(&["unsafe_skip_gc_deref"], 10), plain_field()],
    };
    let out = scan_derive(&decl).unwrap();
    assert_eq!(
        out.body,
        vec![
            Fragment::Scan { field: 0 },
            Fragment::Scan { field: 1 },
            Fragment::CheckGcDeref { field: 1 },
        ]
    );
}

#[test]
fn skip_finalize_omits_only_that_field() {
    let decl = TypeDecl::Struct {
        attrs: vec![],
        fields: vec![plain_field(), flagged_field(&["skip_finalize"], 10), plain_field()],
    };
    assert_eq!(finalize_derive(&decl).unwrap(), vec![0, 2]);
    // The traversal body is unaffected by skip_finalize.
    let out = scan_derive(&decl).unwrap();
    assert_eq!(
        out.body,
        vec![
            Fragment::Scan { field: 0 },
            Fragment::CheckGcDrop { field: 0 },
            Fragment::Scan { field: 1 },
            Fragment::CheckGcDrop { field: 1 },
            Fragment::Scan { field: 2 },
            Fragment::CheckGcDrop { field: 2 },
        ]
    );
}

#[test]
fn enum_is_rejected_with_no_output() {
    let decl = TypeDecl::Enum { loc: 42 };
    let err = scan_derive(&decl).unwrap_err();
    assert_eq!(err.kind, DiagKind::UnsupportedShape);
    assert_eq!(err.loc, 42);
    assert_eq!(err.message(), "Unsupported aggregate shape");
    let err = finalize_derive(&decl).unwrap_err();
    assert_eq!(err.kind, DiagKind::UnsupportedShape);
    let err = finalize_fields_derive(&decl).unwrap_err();
    assert_eq!(err.kind, DiagKind::UnsupportedShape);
}

#[test]
fn union_is_rejected_with_no_output() {
    let decl = TypeDecl::Union { loc: 7 };
    let err = scan_derive(&decl).unwrap_err();
    assert_eq!(err.kind, DiagKind::UnsupportedShape);
    assert_eq!(err.loc, 7);
}

#[test]
fn bad_type_flag_aborts_both_derives() {
    let decl = TypeDecl::Struct {
        attrs: vec![shredder_list(vec![ident("mystery", 2)], 1)],
        fields: vec![plain_field()],
    };
    let err = scan_derive(&decl).unwrap_err();
    assert_eq!(err.kind, DiagKind::UnknownFlag);
    assert_eq!(err.loc, 2);
    let err = finalize_derive(&decl).unwrap_err();
    assert_eq!(err.kind, DiagKind::UnknownFlag);
    assert_eq!(err.loc, 2);
}

#[test]
fn later_field_error_discards_whole_output() {
    let decl = TypeDecl::Struct {
        attrs: vec![],
        fields: vec![plain_field(), flagged_field(&["skip_scan", "skip_scan"], 10)],
    };
    let err = scan_derive(&decl).unwrap_err();
    assert_eq!(err.kind, DiagKind::DuplicateFlag);
    assert_eq!(err.loc, 12);
    let err = finalize_derive(&decl).unwrap_err();
    assert_eq!(err.kind, DiagKind::DuplicateFlag);
}

#[test]
fn finalize_fields_plans_the_same_body() {
    let decl = TypeDecl::Struct {
        attrs: vec![],
        fields: vec![flagged_field(&["skip_finalize"], 10), plain_field()],
    };
    assert_eq!(finalize_derive(&decl).unwrap(), finalize_fields_derive(&decl).unwrap());
    assert_eq!(finalize_fields_derive(&decl).unwrap(), vec![1]);
}
