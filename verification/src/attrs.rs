//! Annotation model, marker extraction, and flag validation.
//!
//! An [`Annotation`] is the pipeline's view of one raw attribute attached to
//! a type or a field: a head path plus a flat list of entries, each entry
//! either a bare identifier or some other shape the extractor rejects.
//! Extraction collects the flags of every annotation whose head is the
//! reserved namespace word; validation turns a flag sequence into
//! [`DeriveFlags`] (per type) or [`DeriveFieldFlags`] (per field), failing
//! fast on the first unknown or duplicate flag.

use vstd::prelude::*;

use crate::err::{DeriveError, DiagKind};

verus! {

/// One entry of a namespaced annotation list. Only a bare identifier is
/// legal; the other shapes are recorded by kind and location alone, since
/// the extractor rejects them without reading into them.
#[derive(Debug, Clone)]
pub enum MetaEntry {
    /// A bare identifier, e.g. the `skip_scan` in `#[shredder(skip_scan)]`.
    /// A multi-segment path entry arrives with its segments joined by `::`,
    /// which no flag vocabulary contains.
    Ident { name: String, loc: u64 },
    /// A nested list, e.g. `#[shredder(inner(x))]`.
    Nested { loc: u64 },
    /// A key/value pair, e.g. `#[shredder(key = "v")]`.
    KeyValue { loc: u64 },
    /// A literal, e.g. `#[shredder("text")]`.
    Literal { loc: u64 },
}

/// One raw annotation attached to a type or a field.
#[derive(Debug, Clone)]
pub enum Annotation {
    /// An annotation without a parenthesized list, e.g. `#[inline]` or
    /// `#[doc = "..."]`. The extractor never inspects these.
    Opaque,
    /// A list-shaped annotation `#[path(entries...)]`.
    List { head: Vec<String>, head_loc: u64, entries: Vec<MetaEntry> },
}

/// A flag name paired with the location it was written at.
#[derive(Debug, Clone)]
pub struct Flag {
    pub name: String,
    pub loc: u64,
}

/// The head identifier that marks an annotation as belonging to this system.
pub open spec fn namespace_word() -> Seq<char> {
    "shredder"@
}

pub open spec fn entry_loc(e: MetaEntry) -> u64 {
    match e {
        MetaEntry::Ident { loc, .. } => loc,
        MetaEntry::Nested { loc } => loc,
        MetaEntry::KeyValue { loc } => loc,
        MetaEntry::Literal { loc } => loc,
    }
}

/// The mathematical form of a flag sequence: (name, location) pairs.
pub open spec fn flags_view(v: Seq<Flag>) -> Seq<(Seq<char>, u64)> {
    v.map_values(|f: Flag| (f.name@, f.loc))
}

pub open spec fn flags_result_view(r: Result<Vec<Flag>, DeriveError>) -> Result<
    Seq<(Seq<char>, u64)>,
    DeriveError,
> {
    match r {
        Ok(v) => Ok(flags_view(v@)),
        Err(e) => Err(e),
    }
}

/// Whether the annotation is a list whose head starts with the namespace word.
pub open spec fn annotation_is_namespaced(a: Annotation) -> bool {
    &&& a matches Annotation::List { head, .. }
    &&& head@.len() >= 1
    &&& head@[0]@ == namespace_word()
}

/// Index of the first entry that is not a bare identifier, or the length if
/// every entry is one.
pub open spec fn first_non_ident(es: Seq<MetaEntry>, i: int) -> int
    decreases es.len() - i,
{
    if i < 0 || i >= es.len() {
        es.len() as int
    } else if !(es[i] is Ident) {
        i
    } else {
        first_non_ident(es, i + 1)
    }
}

/// What the Marker Extractor yields for one annotation: the ordered
/// (flag, location) pairs of a well-formed namespaced list, an empty
/// sequence for an annotation with any other head, or the first shape error.
pub open spec fn extract_spec(a: Annotation) -> Result<Seq<(Seq<char>, u64)>, DeriveError> {
    if !annotation_is_namespaced(a) {
        Ok(Seq::<(Seq<char>, u64)>::empty())
    } else if a->head@.len() > 1 {
        Err(DeriveError { kind: DiagKind::UnknownPath, loc: a->head_loc })
    } else if first_non_ident(a->entries@, 0) < a->entries@.len() {
        Err(
            DeriveError {
                kind: DiagKind::MalformedEntry,
                loc: entry_loc(a->entries@[first_non_ident(a->entries@, 0)]),
            },
        )
    } else {
        Ok(a->entries@.map_values(|e: MetaEntry| (e->Ident_name@, e->Ident_loc)))
    }
}

/// The flags of `attrs[i..]`, concatenated in order, or the first
/// extraction error.
pub open spec fn extract_all_from(attrs: Seq<Annotation>, i: int) -> Result<
    Seq<(Seq<char>, u64)>,
    DeriveError,
> recommends 0 <= i <= attrs.len(),
    decreases attrs.len() - i,
{
    if i < 0 || i >= attrs.len() {
        Ok(Seq::<(Seq<char>, u64)>::empty())
    } else {
        match extract_spec(attrs[i]) {
            Err(e) => Err(e),
            Ok(first) => match extract_all_from(attrs, i + 1) {
                Err(e) => Err(e),
                Ok(rest) => Ok(first + rest),
            },
        }
    }
}

/// The flags of a whole annotation list.
pub open spec fn extract_all_spec(attrs: Seq<Annotation>) -> Result<
    Seq<(Seq<char>, u64)>,
    DeriveError,
> {
    extract_all_from(attrs, 0)
}

proof fn lemma_first_non_ident_skip(es: Seq<MetaEntry>, i: int)
    requires
        0 <= i <= es.len(),
        forall|j: int| 0 <= j < i ==> es[j] is Ident,
    ensures
        first_non_ident(es, 0) == first_non_ident(es, i),
    decreases i,
{
    if i > 0 {
        lemma_first_non_ident_skip(es, i - 1);
    }
}

/// Scans one annotation and yields the (flag, location) pairs found inside
/// it, if its head is the reserved namespace word; rejects a multi-segment
/// namespace head and any entry that is not a bare identifier.
#[verifier::loop_isolation(false)]
pub fn find_shredder_flags(attr: &Annotation) -> (r: Result<Vec<Flag>, DeriveError>)
    ensures
        flags_result_view(r) == extract_spec(*attr),
{
    match attr {
        Annotation::Opaque => {
            let flags: Vec<Flag> = Vec::new();
            proof {
                assert(flags_view(flags@) =~= Seq::<(Seq<char>, u64)>::empty());
            }
            Ok(flags)
        },
        Annotation::List { head, head_loc, entries } => {
            let ns: String = "shredder".to_owned();
            if head.len() == 0 || !(head[0] == ns) {
                let flags: Vec<Flag> = Vec::new();
                proof {
                    assert(!annotation_is_namespaced(*attr));
                    assert(flags_view(flags@) =~= Seq::<(Seq<char>, u64)>::empty());
                }
                return Ok(flags);
            }
            if head.len() > 1 {
                return Err(DeriveError::new(DiagKind::UnknownPath, *head_loc));
            }
            let mut flags: Vec<Flag> = Vec::new();
            let n = entries.len();
            for i in 0..n
                invariant
                    n == entries@.len(),
                    forall|j: int| 0 <= j < i ==> entries@[j] is Ident,
                    flags@.len() == i,
                    forall|j: int|
                        0 <= j < i ==> flags@[j].name@ == entries@[j]->Ident_name@ && flags@[j].loc
                            == entries@[j]->Ident_loc,
            {
                match &entries[i] {
                    MetaEntry::Ident { name, loc } => {
                        flags.push(Flag { name: name.clone(), loc: *loc });
                    },
                    MetaEntry::Nested { loc } => {
                        proof {
                            lemma_first_non_ident_skip(entries@, i as int);
                        }
                        return Err(DeriveError::new(DiagKind::MalformedEntry, *loc));
                    },
                    MetaEntry::KeyValue { loc } => {
                        proof {
                            lemma_first_non_ident_skip(entries@, i as int);
                        }
                        return Err(DeriveError::new(DiagKind::MalformedEntry, *loc));
                    },
                    MetaEntry::Literal { loc } => {
                        proof {
                            lemma_first_non_ident_skip(entries@, i as int);
                        }
                        return Err(DeriveError::new(DiagKind::MalformedEntry, *loc));
                    },
                }
            }
            proof {
                lemma_first_non_ident_skip(entries@, entries@.len() as int);
                assert(flags_view(flags@) =~= entries@.map_values(
                    |e: MetaEntry| (e->Ident_name@, e->Ident_loc),
                ));
            }
            Ok(flags)
        },
    }
}

/// Collects the namespaced flags of every annotation in the list, in order,
/// stopping at the first malformed annotation.
#[verifier::loop_isolation(false)]
pub fn extract_flags(attrs: &Vec<Annotation>) -> (r: Result<Vec<Flag>, DeriveError>)
    ensures
        flags_result_view(r) == extract_all_spec(attrs@),
{
    let mut flags: Vec<Flag> = Vec::new();
    let n = attrs.len();
    for i in 0..n
        invariant
            n == attrs@.len(),
            extract_all_spec(attrs@) == (match extract_all_from(attrs@, i as int) {
                Err(e) => Err::<Seq<(Seq<char>, u64)>, DeriveError>(e),
                Ok(rest) => Ok(flags_view(flags@) + rest),
            }),
    {
        let mut found = match find_shredder_flags(&attrs[i]) {
            Ok(v) => v,
            Err(e) => {
                return Err(e);
            },
        };
        proof {
            let ghost prev = flags@;
            let ghost got = found@;
            assert(flags_view(prev + got) =~= flags_view(prev) + flags_view(got));
            match extract_all_from(attrs@, i + 1) {
                Err(_) => {},
                Ok(rest) => {
                    assert((flags_view(prev) + flags_view(got)) + rest =~= flags_view(prev) + (
                    flags_view(got) + rest));
                },
            }
        }
        flags.append(&mut found);
    }
    proof {
        assert(flags_view(flags@) + Seq::<(Seq<char>, u64)>::empty() =~= flags_view(flags@));
    }
    Ok(flags)
}

// ------------------------------------------------------------------
// Flag vocabulary
// ------------------------------------------------------------------
/// Type-level flag: emit the deref-capability marker.
pub open spec fn can_deref_word() -> Seq<char> {
    "can_deref"@
}

/// Type-level flag: do not emit the drop-capability marker.
pub open spec fn cant_drop_word() -> Seq<char> {
    "cant_drop"@
}

/// Field-level flag: do not traverse this field.
pub open spec fn skip_scan_word() -> Seq<char> {
    "skip_scan"@
}

/// Field-level flag: suppress the deref-capability check for this field.
pub open spec fn unsafe_skip_gc_deref_word() -> Seq<char> {
    "unsafe_skip_gc_deref"@
}

/// Field-level flag: suppress the drop-capability check for this field.
pub open spec fn unsafe_skip_gc_drop_word() -> Seq<char> {
    "unsafe_skip_gc_drop"@
}

/// Field-level flag: suppress the safety check for this field.
pub open spec fn unsafe_skip_gc_safe_word() -> Seq<char> {
    "unsafe_skip_gc_safe"@
}

/// Field-level alias flag: forces the four flags above.
pub open spec fn unsafe_skip_all_word() -> Seq<char> {
    "unsafe_skip_all"@
}

/// Field-level flag: do not finalize this field.
pub open spec fn skip_finalize_word() -> Seq<char> {
    "skip_finalize"@
}

pub open spec fn type_vocab(name: Seq<char>) -> bool {
    ||| name == can_deref_word()
    ||| name == cant_drop_word()
}

pub open spec fn field_vocab(name: Seq<char>) -> bool {
    ||| name == skip_scan_word()
    ||| name == unsafe_skip_gc_deref_word()
    ||| name == unsafe_skip_gc_drop_word()
    ||| name == unsafe_skip_gc_safe_word()
    ||| name == unsafe_skip_all_word()
    ||| name == skip_finalize_word()
}

// ------------------------------------------------------------------
// Validation
// ------------------------------------------------------------------
/// Whether `word` occurs among the first `n` flags.
pub open spec fn has_flag_upto(flags: Seq<(Seq<char>, u64)>, n: int, word: Seq<char>) -> bool {
    exists|j: int| 0 <= j < n && #[trigger] flags[j].0 == word
}

/// Whether `word` occurs in the flag sequence.
pub open spec fn has_flag(flags: Seq<(Seq<char>, u64)>, word: Seq<char>) -> bool {
    has_flag_upto(flags, flags.len() as int, word)
}

/// A type-level violation at index `i`: the flag is outside the vocabulary,
/// or repeats an earlier flag.
pub open spec fn type_violation_at(flags: Seq<(Seq<char>, u64)>, i: int) -> bool {
    !type_vocab(flags[i].0) || has_flag_upto(flags, i, flags[i].0)
}

pub open spec fn field_violation_at(flags: Seq<(Seq<char>, u64)>, i: int) -> bool {
    !field_vocab(flags[i].0) || has_flag_upto(flags, i, flags[i].0)
}

/// Index of the first type-level violation at or after `i`, or the length.
pub open spec fn type_first_violation(flags: Seq<(Seq<char>, u64)>, i: int) -> int
    decreases flags.len() - i,
{
    if i < 0 || i >= flags.len() {
        flags.len() as int
    } else if type_violation_at(flags, i) {
        i
    } else {
        type_first_violation(flags, i + 1)
    }
}

pub open spec fn field_first_violation(flags: Seq<(Seq<char>, u64)>, i: int) -> int
    decreases flags.len() - i,
{
    if i < 0 || i >= flags.len() {
        flags.len() as int
    } else if field_violation_at(flags, i) {
        i
    } else {
        field_first_violation(flags, i + 1)
    }
}

/// The diagnostic owed at a violation: an unknown flag is reported as such,
/// a vocabulary flag seen again as a duplicate, at the flag's own location.
pub open spec fn violation_error(flags: Seq<(Seq<char>, u64)>, i: int, in_vocab: bool) -> DeriveError {
    DeriveError {
        kind: if !in_vocab {
            DiagKind::UnknownFlag
        } else {
            DiagKind::DuplicateFlag
        },
        loc: flags[i].1,
    }
}

/// What the type-level Flag Validator yields for a flag sequence: on
/// success, the derived options; otherwise the first violation, fail-fast.
pub open spec fn type_validate_spec(flags: Seq<(Seq<char>, u64)>) -> Result<
    DeriveFlags,
    DeriveError,
> {
    let v = type_first_violation(flags, 0);
    if v == flags.len() {
        Ok(
            DeriveFlags {
                generate_gc_deref: has_flag(flags, can_deref_word()),
                generate_gc_drop: !has_flag(flags, cant_drop_word()),
            },
        )
    } else {
        Err(violation_error(flags, v, type_vocab(flags[v].0)))
    }
}

/// What the field-level Flag Validator yields: five independent booleans,
/// with the alias flag forcing the four traversal-related ones.
pub open spec fn field_validate_spec(flags: Seq<(Seq<char>, u64)>) -> Result<
    DeriveFieldFlags,
    DeriveError,
> {
    let v = field_first_violation(flags, 0);
    if v == flags.len() {
        Ok(
            DeriveFieldFlags {
                skip_scan: has_flag(flags, skip_scan_word()) || has_flag(
                    flags,
                    unsafe_skip_all_word(),
                ),
                unsafe_skip_gc_deref: has_flag(flags, unsafe_skip_gc_deref_word()) || has_flag(
                    flags,
                    unsafe_skip_all_word(),
                ),
                unsafe_skip_gc_drop: has_flag(flags, unsafe_skip_gc_drop_word()) || has_flag(
                    flags,
                    unsafe_skip_all_word(),
                ),
                unsafe_skip_gc_safe: has_flag(flags, unsafe_skip_gc_safe_word()) || has_flag(
                    flags,
                    unsafe_skip_all_word(),
                ),
                skip_finalize: has_flag(flags, skip_finalize_word()),
            },
        )
    } else {
        Err(violation_error(flags, v, field_vocab(flags[v].0)))
    }
}

/// Extraction followed by type-level validation.
pub open spec fn type_options_spec(attrs: Seq<Annotation>) -> Result<DeriveFlags, DeriveError> {
    match extract_all_spec(attrs) {
        Err(e) => Err(e),
        Ok(flags) => type_validate_spec(flags),
    }
}

/// Extraction followed by field-level validation.
pub open spec fn field_options_spec(attrs: Seq<Annotation>) -> Result<
    DeriveFieldFlags,
    DeriveError,
> {
    match extract_all_spec(attrs) {
        Err(e) => Err(e),
        Ok(flags) => field_validate_spec(flags),
    }
}

/// The validated type-level options: which capability markers to emit.
#[derive(Clone, Copy, Debug, PartialEq, Eq, Structural)]
pub struct DeriveFlags {
    pub generate_gc_deref: bool,
    pub generate_gc_drop: bool,
}

/// The validated field-level options: which instrumentation to omit.
#[derive(Clone, Copy, Debug, PartialEq, Eq, Structural)]
pub struct DeriveFieldFlags {
    pub skip_scan: bool,
    pub unsafe_skip_gc_deref: bool,
    pub unsafe_skip_gc_drop: bool,
    pub unsafe_skip_gc_safe: bool,
    pub skip_finalize: bool,
}

/// The two type-level vocabulary words differ.
proof fn lemma_type_words_distinct()
    ensures
        can_deref_word() != cant_drop_word(),
{
    reveal_strlit("can_deref");
    reveal_strlit("cant_drop");
    assert(can_deref_word()[3] != cant_drop_word()[3]);
}

/// The six field-level vocabulary words differ pairwise.
proof fn lemma_field_words_distinct()
    ensures
        skip_scan_word() != unsafe_skip_gc_deref_word(),
        skip_scan_word() != unsafe_skip_gc_drop_word(),
        skip_scan_word() != unsafe_skip_gc_safe_word(),
        skip_scan_word() != unsafe_skip_all_word(),
        skip_scan_word() != skip_finalize_word(),
        unsafe_skip_gc_deref_word() != unsafe_skip_gc_drop_word(),
        unsafe_skip_gc_deref_word() != unsafe_skip_gc_safe_word(),
        unsafe_skip_gc_deref_word() != unsafe_skip_all_word(),
        unsafe_skip_gc_deref_word() != skip_finalize_word(),
        unsafe_skip_gc_drop_word() != unsafe_skip_gc_safe_word(),
        unsafe_skip_gc_drop_word() != unsafe_skip_all_word(),
        unsafe_skip_gc_drop_word() != skip_finalize_word(),
        unsafe_skip_gc_safe_word() != unsafe_skip_all_word(),
        unsafe_skip_gc_safe_word() != skip_finalize_word(),
        unsafe_skip_all_word() != skip_finalize_word(),
{
    reveal_strlit("skip_scan");
    reveal_strlit("unsafe_skip_gc_deref");
    reveal_strlit("unsafe_skip_gc_drop");
    reveal_strlit("unsafe_skip_gc_safe");
    reveal_strlit("unsafe_skip_all");
    reveal_strlit("skip_finalize");
    assert(skip_scan_word().len() == 9);
    assert(unsafe_skip_gc_deref_word().len() == 20);
    assert(unsafe_skip_gc_drop_word().len() == 19);
    assert(unsafe_skip_gc_safe_word().len() == 19);
    assert(unsafe_skip_all_word().len() == 15);
    assert(skip_finalize_word().len() == 13);
    assert(unsafe_skip_gc_drop_word()[15] != unsafe_skip_gc_safe_word()[15]);
}

proof fn lemma_type_fv_skip(flags: Seq<(Seq<char>, u64)>, i: int)
    requires
        0 <= i <= flags.len(),
        forall|k: int| 0 <= k < i ==> !type_violation_at(flags, k),
    ensures
        type_first_violation(flags, 0) == type_first_violation(flags, i),
    decreases i,
{
    if i > 0 {
        lemma_type_fv_skip(flags, i - 1);
    }
}

proof fn lemma_field_fv_skip(flags: Seq<(Seq<char>, u64)>, i: int)
    requires
        0 <= i <= flags.len(),
        forall|k: int| 0 <= k < i ==> !field_violation_at(flags, k),
    ensures
        field_first_violation(flags, 0) == field_first_violation(flags, i),
    decreases i,
{
    if i > 0 {
        lemma_field_fv_skip(flags, i - 1);
    }
}

proof fn lemma_type_fv_props(flags: Seq<(Seq<char>, u64)>, i: int)
    requires
        0 <= i <= flags.len(),
    ensures
        ({
            let v = type_first_violation(flags, i);
            &&& i <= v <= flags.len()
            &&& forall|k: int| i <= k < v ==> !type_violation_at(flags, k)
            &&& v < flags.len() ==> type_violation_at(flags, v)
        }),
    decreases flags.len() - i,
{
    if i < flags.len() && !type_violation_at(flags, i) {
        lemma_type_fv_props(flags, i + 1);
    }
}

proof fn lemma_field_fv_props(flags: Seq<(Seq<char>, u64)>, i: int)
    requires
        0 <= i <= flags.len(),
    ensures
        ({
            let v = field_first_violation(flags, i);
            &&& i <= v <= flags.len()
            &&& forall|k: int| i <= k < v ==> !field_violation_at(flags, k)
            &&& v < flags.len() ==> field_violation_at(flags, v)
        }),
    decreases flags.len() - i,
{
    if i < flags.len() && !field_violation_at(flags, i) {
        lemma_field_fv_props(flags, i + 1);
    }
}

/// Idempotent alias expansion: a field-flag sequence that validates and
/// contains the alias flag yields options whose four traversal-related
/// booleans are all true — exactly the options obtained by listing the four
/// underlying flags individually (at any locations), apart from the
/// independent finalize flag, which the alias leaves alone.
pub proof fn lemma_alias_expansion(flags: Seq<(Seq<char>, u64)>, l0: u64, l1: u64, l2: u64, l3: u64)
    requires
        (field_validate_spec(flags) is Ok),
        has_flag(flags, unsafe_skip_all_word()),
    ensures
        field_validate_spec(flags)->Ok_0 == (DeriveFieldFlags {
            skip_scan: true,
            unsafe_skip_gc_deref: true,
            unsafe_skip_gc_drop: true,
            unsafe_skip_gc_safe: true,
            skip_finalize: has_flag(flags, skip_finalize_word()),
        }),
        field_validate_spec(
            seq![
                (skip_scan_word(), l0),
                (unsafe_skip_gc_deref_word(), l1),
                (unsafe_skip_gc_drop_word(), l2),
                (unsafe_skip_gc_safe_word(), l3),
            ],
        ) == Ok::<DeriveFieldFlags, DeriveError>(
            DeriveFieldFlags {
                skip_scan: true,
                unsafe_skip_gc_deref: true,
                unsafe_skip_gc_drop: true,
                unsafe_skip_gc_safe: true,
                skip_finalize: false,
            },
        ),
        !has_flag(flags, skip_finalize_word()) ==> field_validate_spec(flags)
            == field_validate_spec(
            seq![
                (skip_scan_word(), l0),
                (unsafe_skip_gc_deref_word(), l1),
                (unsafe_skip_gc_drop_word(), l2),
                (unsafe_skip_gc_safe_word(), l3),
            ],
        ),
{
    lemma_field_words_distinct();
    let four = seq![
        (skip_scan_word(), l0),
        (unsafe_skip_gc_deref_word(), l1),
        (unsafe_skip_gc_drop_word(), l2),
        (unsafe_skip_gc_safe_word(), l3),
    ];
    assert(!field_violation_at(four, 0));
    assert(!field_violation_at(four, 1));
    assert(!field_violation_at(four, 2));
    assert(!field_violation_at(four, 3));
    assert(field_first_violation(four, 4) == 4);
    assert(field_first_violation(four, 3) == 4);
    assert(field_first_violation(four, 2) == 4);
    assert(field_first_violation(four, 1) == 4);
    assert(field_first_violation(four, 0) == 4);
    assert(has_flag(four, skip_scan_word())) by {
        assert(four[0].0 == skip_scan_word());
    }
    assert(has_flag(four, unsafe_skip_gc_deref_word())) by {
        assert(four[1].0 == unsafe_skip_gc_deref_word());
    }
    assert(has_flag(four, unsafe_skip_gc_drop_word())) by {
        assert(four[2].0 == unsafe_skip_gc_drop_word());
    }
    assert(has_flag(four, unsafe_skip_gc_safe_word())) by {
        assert(four[3].0 == unsafe_skip_gc_safe_word());
    }
    assert(!has_flag(four, unsafe_skip_all_word()));
    assert(!has_flag(four, skip_finalize_word()));
}

/// Fail-fast duplicate detection, type level: a sequence of vocabulary
/// flags in which some flag occurs twice always fails with the
/// duplicate-flag diagnosis, whatever distinct flags stand between the two
/// occurrences.
pub proof fn lemma_duplicate_type_flag_fails(flags: Seq<(Seq<char>, u64)>)
    requires
        forall|k: int| 0 <= k < flags.len() ==> type_vocab(#[trigger] flags[k].0),
        exists|i: int, j: int| 0 <= i < j < flags.len() && #[trigger] flags[i].0 == #[trigger] flags[j].0,
    ensures
        (type_validate_spec(flags) is Err),
        type_validate_spec(flags)->Err_0.kind == DiagKind::DuplicateFlag,
{
    let (i, j) = choose|i: int, j: int|
        0 <= i < j < flags.len() && #[trigger] flags[i].0 == #[trigger] flags[j].0;
    assert(type_violation_at(flags, j)) by {
        assert(0 <= i < j && flags[i].0 == flags[j].0);
    }
    lemma_type_fv_props(flags, 0);
    let v = type_first_violation(flags, 0);
    assert(v < flags.len());
}

/// Fail-fast duplicate detection, field level: the same law for the
/// field-flag vocabulary.
pub proof fn lemma_duplicate_field_flag_fails(flags: Seq<(Seq<char>, u64)>)
    requires
        forall|k: int| 0 <= k < flags.len() ==> field_vocab(#[trigger] flags[k].0),
        exists|i: int, j: int| 0 <= i < j < flags.len() && #[trigger] flags[i].0 == #[trigger] flags[j].0,
    ensures
        (field_validate_spec(flags) is Err),
        field_validate_spec(flags)->Err_0.kind == DiagKind::DuplicateFlag,
{
    let (i, j) = choose|i: int, j: int|
        0 <= i < j < flags.len() && #[trigger] flags[i].0 == #[trigger] flags[j].0;
    assert(field_violation_at(flags, j)) by {
        assert(0 <= i < j && flags[i].0 == flags[j].0);
    }
    lemma_field_fv_props(flags, 0);
    let v = field_first_violation(flags, 0);
    assert(v < flags.len());
}

proof fn lemma_extract_all_foreign(attrs: Seq<Annotation>, i: int)
    requires
        0 <= i <= attrs.len(),
        forall|k: int| 0 <= k < attrs.len() ==> !annotation_is_namespaced(#[trigger] attrs[k]),
    ensures
        extract_all_from(attrs, i) == Ok::<Seq<(Seq<char>, u64)>, DeriveError>(
            Seq::<(Seq<char>, u64)>::empty(),
        ),
    decreases attrs.len() - i,
{
    if i < attrs.len() {
        lemma_extract_all_foreign(attrs, i + 1);
        assert(Seq::<(Seq<char>, u64)>::empty() + Seq::<(Seq<char>, u64)>::empty()
            =~= Seq::<(Seq<char>, u64)>::empty());
    }
}

/// Annotations with any head other than the namespace word are ignored
/// entirely: extraction yields no flags, and validation trivially succeeds
/// with the all-default options at both levels.
pub proof fn lemma_foreign_annotations_ignored(attrs: Seq<Annotation>)
    requires
        forall|k: int| 0 <= k < attrs.len() ==> !annotation_is_namespaced(#[trigger] attrs[k]),
    ensures
        extract_all_spec(attrs) == Ok::<Seq<(Seq<char>, u64)>, DeriveError>(
            Seq::<(Seq<char>, u64)>::empty(),
        ),
        type_options_spec(attrs) == Ok::<DeriveFlags, DeriveError>(
            DeriveFlags { generate_gc_deref: false, generate_gc_drop: true },
        ),
        field_options_spec(attrs) == Ok::<DeriveFieldFlags, DeriveError>(
            DeriveFieldFlags {
                skip_scan: false,
                unsafe_skip_gc_deref: false,
                unsafe_skip_gc_drop: false,
                unsafe_skip_gc_safe: false,
                skip_finalize: false,
            },
        ),
{
    lemma_extract_all_foreign(attrs, 0);
    let none = Seq::<(Seq<char>, u64)>::empty();
    assert(type_first_violation(none, 0) == 0);
    assert(field_first_violation(none, 0) == 0);
}

/// Walks a type-level flag sequence, failing at the first unknown or
/// duplicate flag, and derives the [`DeriveFlags`] booleans.
#[verifier::loop_isolation(false)]
pub fn validate_type_flags(flags: &Vec<Flag>) -> (r: Result<DeriveFlags, DeriveError>)
    ensures
        r == type_validate_spec(flags_view(flags@)),
{
    let ghost fv = flags_view(flags@);
    let w_can_deref: String = "can_deref".to_owned();
    let w_cant_drop: String = "cant_drop".to_owned();
    let mut seen_deref = false;
    let mut seen_drop = false;
    let n = flags.len();
    for i in 0..n
        invariant
            forall|k: int| 0 <= k < i ==> !type_violation_at(fv, k),
            seen_deref == has_flag_upto(fv, i as int, can_deref_word()),
            seen_drop == has_flag_upto(fv, i as int, cant_drop_word()),
    {
        proof {
            lemma_type_words_distinct();
            assert(fv[i as int] == (flags@[i as int].name@, flags@[i as int].loc));
        }
        let f = &flags[i];
        if f.name == w_can_deref {
            if seen_deref {
                proof {
                    lemma_type_fv_skip(fv, i as int);
                }
                return Err(DeriveError::new(DiagKind::DuplicateFlag, f.loc));
            }
            seen_deref = true;
        } else if f.name == w_cant_drop {
            if seen_drop {
                proof {
                    lemma_type_fv_skip(fv, i as int);
                }
                return Err(DeriveError::new(DiagKind::DuplicateFlag, f.loc));
            }
            seen_drop = true;
        } else {
            proof {
                lemma_type_fv_skip(fv, i as int);
            }
            return Err(DeriveError::new(DiagKind::UnknownFlag, f.loc));
        }
        proof {
            assert(has_flag_upto(fv, i + 1, fv[i as int].0)) by {
                assert(0 <= i < i + 1 && fv[i as int].0 == fv[i as int].0);
            }
        }
    }
    proof {
        lemma_type_fv_skip(fv, n as int);
    }
    Ok(DeriveFlags { generate_gc_deref: seen_deref, generate_gc_drop: !seen_drop })
}

/// Walks a field-level flag sequence, failing at the first unknown or
/// duplicate flag, and derives the [`DeriveFieldFlags`] booleans, with the
/// alias flag expanded at the end.
#[verifier::loop_isolation(false)]
pub fn validate_field_flags(flags: &Vec<Flag>) -> (r: Result<DeriveFieldFlags, DeriveError>)
    ensures
        r == field_validate_spec(flags_view(flags@)),
{
    let ghost fv = flags_view(flags@);
    let w_skip_scan: String = "skip_scan".to_owned();
    let w_skip_deref: String = "unsafe_skip_gc_deref".to_owned();
    let w_skip_drop: String = "unsafe_skip_gc_drop".to_owned();
    let w_skip_safe: String = "unsafe_skip_gc_safe".to_owned();
    let w_skip_all: String = "unsafe_skip_all".to_owned();
    let w_skip_finalize: String = "skip_finalize".to_owned();
    let mut seen_scan = false;
    let mut seen_deref = false;
    let mut seen_drop = false;
    let mut seen_safe = false;
    let mut seen_all = false;
    let mut seen_finalize = false;
    let n = flags.len();
    for i in 0..n
        invariant
            forall|k: int| 0 <= k < i ==> !field_violation_at(fv, k),
            seen_scan == has_flag_upto(fv, i as int, skip_scan_word()),
            seen_deref == has_flag_upto(fv, i as int, unsafe_skip_gc_deref_word()),
            seen_drop == has_flag_upto(fv, i as int, unsafe_skip_gc_drop_word()),
            seen_safe == has_flag_upto(fv, i as int, unsafe_skip_gc_safe_word()),
            seen_all == has_flag_upto(fv, i as int, unsafe_skip_all_word()),
            seen_finalize == has_flag_upto(fv, i as int, skip_finalize_word()),
    {
        proof {
            lemma_field_words_distinct();
            assert(fv[i as int] == (flags@[i as int].name@, flags@[i as int].loc));
        }
        let f = &flags[i];
        if f.name == w_skip_scan {
            if seen_scan {
                proof {
                    lemma_field_fv_skip(fv, i as int);
                }
                return Err(DeriveError::new(DiagKind::DuplicateFlag, f.loc));
            }
            seen_scan = true;
        } else if f.name == w_skip_deref {
            if seen_deref {
                proof {
                    lemma_field_fv_skip(fv, i as int);
                }
                return Err(DeriveError::new(DiagKind::DuplicateFlag, f.loc));
            }
            seen_deref = true;
        } else if f.name == w_skip_drop {
            if seen_drop {
                proof {
                    lemma_field_fv_skip(fv, i as int);
                }
                return Err(DeriveError::new(DiagKind::DuplicateFlag, f.loc));
            }
            seen_drop = true;
        } else if f.name == w_skip_safe {
            if seen_safe {
                proof {
                    lemma_field_fv_skip(fv, i as int);
                }
                return Err(DeriveError::new(DiagKind::DuplicateFlag, f.loc));
            }
            seen_safe = true;
        } else if f.name == w_skip_all {
            if seen_all {
                proof {
                    lemma_field_fv_skip(fv, i as int);
                }
                return Err(DeriveError::new(DiagKind::DuplicateFlag, f.loc));
            }
            seen_all = true;
        } else if f.name == w_skip_finalize {
            if seen_finalize {
                proof {
                    lemma_field_fv_skip(fv, i as int);
                }
                return Err(DeriveError::new(DiagKind::DuplicateFlag, f.loc));
            }
            seen_finalize = true;
        } else {
            proof {
                lemma_field_fv_skip(fv, i as int);
            }
            return Err(DeriveError::new(DiagKind::UnknownFlag, f.loc));
        }
        proof {
            assert(has_flag_upto(fv, i + 1, fv[i as int].0)) by {
                assert(0 <= i < i + 1 && fv[i as int].0 == fv[i as int].0);
            }
        }
    }
    proof {
        lemma_field_fv_skip(fv, n as int);
    }
    if seen_all {
        seen_scan = true;
        seen_deref = true;
        seen_drop = true;
        seen_safe = true;
    }
    Ok(
        DeriveFieldFlags {
            skip_scan: seen_scan,
            unsafe_skip_gc_deref: seen_deref,
            unsafe_skip_gc_drop: seen_drop,
            unsafe_skip_gc_safe: seen_safe,
            skip_finalize: seen_finalize,
        },
    )
}

impl DeriveFlags {
    /// Extracts the namespaced flags of a type's annotations and validates
    /// them into the type-level options.
    pub fn new(attrs: &Vec<Annotation>) -> (r: Result<Self, DeriveError>)
        ensures
            r == type_options_spec(attrs@),
    {
        let flags = match extract_flags(attrs) {
            Ok(v) => v,
            Err(e) => {
                return Err(e);
            },
        };
        validate_type_flags(&flags)
    }
}

impl DeriveFieldFlags {
    /// Extracts the namespaced flags of a field's annotations and validates
    /// them into the field-level options.
    pub fn new(attrs: &Vec<Annotation>) -> (r: Result<Self, DeriveError>)
        ensures
            r == field_options_spec(attrs@),
    {
        let flags = match extract_flags(attrs) {
            Ok(v) => v,
            Err(e) => {
                return Err(e);
            },
        };
        validate_field_flags(&flags)
    }
}

} // verus!
