//! Synthesis of the traversal routine and the capability markers.
//!
//! From a type's validated [`DeriveFlags`] and every field's validated
//! [`DeriveFieldFlags`], the engine deterministically plans: which marker
//! implementations accompany the traversal routine, and, per field in
//! declaration order, which instrumentation fragments its body holds. The
//! safety marker itself is unconditional — every successful plan carries it —
//! so only the two capability markers appear as booleans.

use vstd::prelude::*;

use crate::attrs::{
    field_options_spec, lemma_foreign_annotations_ignored, type_options_spec, Annotation,
    DeriveFieldFlags, DeriveFlags,
};
use crate::decl::{FieldDecl, TypeDecl};
use crate::err::{DeriveError, DiagKind};

verus! {

/// One unit of generated code, bound to the field at the given position.
#[derive(Clone, Copy, Debug, PartialEq, Eq, Structural)]
pub enum Fragment {
    /// Report the field's collector-managed references to the scanner.
    Scan { field: usize },
    /// Assert at compile time that the field's type is collector-safe,
    /// without traversing it.
    CheckGcSafe { field: usize },
    /// Assert at compile time that the field's type has the
    /// deref capability.
    CheckGcDeref { field: usize },
    /// Assert at compile time that the field's type has the
    /// drop capability.
    CheckGcDrop { field: usize },
}

/// The synthesized plan for one type: the capability markers to emit and
/// the traversal body, as fragments in declaration order of the fields.
#[derive(Debug, Clone)]
pub struct ScanOutput {
    pub generate_gc_deref: bool,
    pub generate_gc_drop: bool,
    pub body: Vec<Fragment>,
}

/// The mathematical form of a [`ScanOutput`].
pub struct ScanPlan {
    pub generate_gc_deref: bool,
    pub generate_gc_drop: bool,
    pub body: Seq<Fragment>,
}

impl View for ScanOutput {
    type V = ScanPlan;

    open spec fn view(&self) -> ScanPlan {
        ScanPlan {
            generate_gc_deref: self.generate_gc_deref,
            generate_gc_drop: self.generate_gc_drop,
            body: self.body@,
        }
    }
}

/// The gating table of the traversal body, for the field at position `i`:
/// a traversal call or a safety-only check (exactly one of the two, unless
/// the safety check is suppressed), then a deref-capability check gated by
/// the type, then a drop-capability check gated by the type.
pub open spec fn field_fragments(tf: DeriveFlags, ff: DeriveFieldFlags, i: usize) -> Seq<
    Fragment,
> {
    (if ff.unsafe_skip_gc_safe {
        Seq::<Fragment>::empty()
    } else if !ff.skip_scan {
        seq![Fragment::Scan { field: i }]
    } else {
        seq![Fragment::CheckGcSafe { field: i }]
    }) + (if !ff.unsafe_skip_gc_deref && tf.generate_gc_deref {
        seq![Fragment::CheckGcDeref { field: i }]
    } else {
        Seq::<Fragment>::empty()
    }) + (if !ff.unsafe_skip_gc_drop && tf.generate_gc_drop {
        seq![Fragment::CheckGcDrop { field: i }]
    } else {
        Seq::<Fragment>::empty()
    })
}

/// The traversal-body fragments of `fields[i..]`, concatenated in
/// declaration order; a field whose flags fail validation aborts the body
/// with that field's diagnostic.
pub open spec fn scan_body_from(tf: DeriveFlags, fields: Seq<FieldDecl>, i: int) -> Result<
    Seq<Fragment>,
    DeriveError,
> recommends 0 <= i <= fields.len(),
    decreases fields.len() - i,
{
    if i < 0 || i >= fields.len() {
        Ok(Seq::<Fragment>::empty())
    } else {
        match field_options_spec(fields[i].attrs@) {
            Err(e) => Err(e),
            Ok(ff) => match scan_body_from(tf, fields, i + 1) {
                Err(e) => Err(e),
                Ok(rest) => Ok(field_fragments(tf, ff, i as usize) + rest),
            },
        }
    }
}

/// What the whole traversal pipeline yields for one declaration: the plan,
/// or the first diagnostic — an unsupported shape before any flag
/// processing, then the type's own flags, then each field's in order.
pub open spec fn scan_spec(decl: TypeDecl) -> Result<ScanPlan, DeriveError> {
    match decl {
        TypeDecl::Enum { loc } => Err(DeriveError { kind: DiagKind::UnsupportedShape, loc }),
        TypeDecl::Union { loc } => Err(DeriveError { kind: DiagKind::UnsupportedShape, loc }),
        TypeDecl::Struct { attrs, fields } => match type_options_spec(attrs@) {
            Err(e) => Err(e),
            Ok(tf) => match scan_body_from(tf, fields@, 0) {
                Err(e) => Err(e),
                Ok(body) => Ok(
                    ScanPlan {
                        generate_gc_deref: tf.generate_gc_deref,
                        generate_gc_drop: tf.generate_gc_drop,
                        body,
                    },
                ),
            },
        },
    }
}

pub open spec fn body_result_view(r: Result<Vec<Fragment>, DeriveError>) -> Result<
    Seq<Fragment>,
    DeriveError,
> {
    match r {
        Ok(v) => Ok(v@),
        Err(e) => Err(e),
    }
}

pub open spec fn scan_result_view(r: Result<ScanOutput, DeriveError>) -> Result<
    ScanPlan,
    DeriveError,
> {
    match r {
        Ok(o) => Ok(o@),
        Err(e) => Err(e),
    }
}

/// Builds the traversal body: validates each field's flags lazily, in
/// declaration order, and appends that field's fragments; the first invalid
/// field aborts the whole body.
#[verifier::loop_isolation(false)]
pub fn generate_scan_body(tf: &DeriveFlags, fields: &Vec<FieldDecl>) -> (r: Result<
    Vec<Fragment>,
    DeriveError,
>)
    ensures
        body_result_view(r) == scan_body_from(*tf, fields@, 0),
{
    let mut body: Vec<Fragment> = Vec::new();
    let n = fields.len();
    for i in 0..n
        invariant
            scan_body_from(*tf, fields@, 0) == (match scan_body_from(*tf, fields@, i as int) {
                Err(e) => Err::<Seq<Fragment>, DeriveError>(e),
                Ok(rest) => Ok(body@ + rest),
            }),
    {
        let ff = match DeriveFieldFlags::new(&fields[i].attrs) {
            Ok(ff) => ff,
            Err(e) => {
                return Err(e);
            },
        };
        let ghost pre = body@;
        if !ff.unsafe_skip_gc_safe {
            if !ff.skip_scan {
                body.push(Fragment::Scan { field: i });
            } else {
                body.push(Fragment::CheckGcSafe { field: i });
            }
        }
        if !ff.unsafe_skip_gc_deref && tf.generate_gc_deref {
            body.push(Fragment::CheckGcDeref { field: i });
        }
        if !ff.unsafe_skip_gc_drop && tf.generate_gc_drop {
            body.push(Fragment::CheckGcDrop { field: i });
        }
        proof {
            assert(body@ =~= pre + field_fragments(*tf, ff, i));
            match scan_body_from(*tf, fields@, i + 1) {
                Err(_) => {},
                Ok(rest) => {
                    assert(pre + (field_fragments(*tf, ff, i) + rest) =~= (pre + field_fragments(
                        *tf,
                        ff,
                        i,
                    )) + rest);
                },
            }
        }
    }
    proof {
        assert(body@ + Seq::<Fragment>::empty() =~= body@);
    }
    Ok(body)
}

/// The traversal pipeline for one declaration: rejects non-structs, then
/// validates the type's flags, then synthesizes the traversal body and the
/// capability-marker plan.
pub fn scan_derive(decl: &TypeDecl) -> (r: Result<ScanOutput, DeriveError>)
    ensures
        scan_result_view(r) == scan_spec(*decl),
{
    match decl {
        TypeDecl::Enum { loc } => Err(DeriveError::new(DiagKind::UnsupportedShape, *loc)),
        TypeDecl::Union { loc } => Err(DeriveError::new(DiagKind::UnsupportedShape, *loc)),
        TypeDecl::Struct { attrs, fields } => {
            let tf = match DeriveFlags::new(attrs) {
                Ok(v) => v,
                Err(e) => {
                    return Err(e);
                },
            };
            let body = match generate_scan_body(&tf, fields) {
                Ok(v) => v,
                Err(e) => {
                    return Err(e);
                },
            };
            Ok(
                ScanOutput {
                    generate_gc_deref: tf.generate_gc_deref,
                    generate_gc_drop: tf.generate_gc_drop,
                    body,
                },
            )
        },
    }
}

/// The traversal body of a run of fields with all-default options under the
/// default type options: a traversal call and a drop-capability check each.
spec fn scan_drop_body(n: int, i: int) -> Seq<Fragment>
    decreases n - i,
{
    if i < 0 || i >= n {
        Seq::<Fragment>::empty()
    } else {
        seq![
            Fragment::Scan { field: i as usize },
            Fragment::CheckGcDrop { field: i as usize },
        ] + scan_drop_body(n, i + 1)
    }
}

proof fn lemma_scan_body_unannotated(fields: Seq<FieldDecl>, i: int)
    requires
        0 <= i <= fields.len(),
        forall|k: int| 0 <= k < fields.len() ==> #[trigger] fields[k].attrs@.len() == 0,
    ensures
        scan_body_from(
            DeriveFlags { generate_gc_deref: false, generate_gc_drop: true },
            fields,
            i,
        ) == Ok::<Seq<Fragment>, DeriveError>(scan_drop_body(fields.len() as int, i)),
    decreases fields.len() - i,
{
    let tf = DeriveFlags { generate_gc_deref: false, generate_gc_drop: true };
    let n = fields.len() as int;
    if i < n {
        assert(fields[i].attrs@ =~= Seq::<Annotation>::empty());
        lemma_foreign_annotations_ignored(fields[i].attrs@);
        lemma_scan_body_unannotated(fields, i + 1);
        let ff = DeriveFieldFlags {
            skip_scan: false,
            unsafe_skip_gc_deref: false,
            unsafe_skip_gc_drop: false,
            unsafe_skip_gc_safe: false,
            skip_finalize: false,
        };
        assert(field_fragments(tf, ff, i as usize) + scan_drop_body(n, i + 1) =~= scan_drop_body(
            n,
            i,
        ));
    }
}

proof fn lemma_scan_drop_body_shape(n: int, i: int)
    requires
        0 <= i <= n,
    ensures
        scan_drop_body(n, i).len() == 2 * (n - i),
        forall|m: int|
            0 <= m < 2 * (n - i) ==> #[trigger] scan_drop_body(n, i)[m] == (if m % 2 == 0 {
                Fragment::Scan { field: (i + m / 2) as usize }
            } else {
                Fragment::CheckGcDrop { field: (i + m / 2) as usize }
            }),
    decreases n - i,
{
    if i < n {
        lemma_scan_drop_body_shape(n, i + 1);
        assert forall|m: int| 0 <= m < 2 * (n - i) implies #[trigger] scan_drop_body(n, i)[m] == (
        if m % 2 == 0 {
            Fragment::Scan { field: (i + m / 2) as usize }
        } else {
            Fragment::CheckGcDrop { field: (i + m / 2) as usize }
        }) by {
            if m >= 2 {
                assert(scan_drop_body(n, i)[m] == scan_drop_body(n, i + 1)[m - 2]);
                assert((m - 2) / 2 == m / 2 - 1);
                assert((m - 2) % 2 == m % 2);
            }
        }
    }
}

/// A struct with no annotations anywhere: the traversal plan requests no
/// deref marker, keeps the drop marker (it defaults to on), and its body
/// holds exactly one traversal call and one drop-capability check per
/// field, in declaration order — in particular, a traversal call for every
/// field and no deref checks.
pub proof fn lemma_no_annotations_scan(decl: TypeDecl)
    requires
        decl is Struct,
        decl->Struct_attrs@.len() == 0,
        forall|k: int|
            0 <= k < decl->Struct_fields@.len() ==> #[trigger] decl->Struct_fields@[k].attrs@.len()
                == 0,
    ensures
        (scan_spec(decl) is Ok),
        scan_spec(decl)->Ok_0.generate_gc_deref == false,
        scan_spec(decl)->Ok_0.generate_gc_drop == true,
        scan_spec(decl)->Ok_0.body.len() == 2 * decl->Struct_fields@.len(),
        forall|m: int|
            0 <= m < 2 * decl->Struct_fields@.len() ==> #[trigger] scan_spec(decl)->Ok_0.body[m]
                == (if m % 2 == 0 {
                Fragment::Scan { field: (m / 2) as usize }
            } else {
                Fragment::CheckGcDrop { field: (m / 2) as usize }
            }),
{
    let attrs = decl->Struct_attrs;
    let fields = decl->Struct_fields;
    assert(attrs@ =~= Seq::<Annotation>::empty());
    lemma_foreign_annotations_ignored(attrs@);
    lemma_scan_body_unannotated(fields@, 0);
    lemma_scan_drop_body_shape(fields@.len() as int, 0);
}

proof fn lemma_scan_body_no_markers(fields: Seq<FieldDecl>, i: int)
    requires
        0 <= i <= fields.len(),
        forall|k: int| 0 <= k < fields.len() ==> #[trigger] fields[k].attrs@.len() == 0,
    ensures
        scan_body_from(
            DeriveFlags { generate_gc_deref: false, generate_gc_drop: false },
            fields,
            i,
        ) == Ok::<Seq<Fragment>, DeriveError>(
            Seq::new(
                (fields.len() - i) as nat,
                |k: int| Fragment::Scan { field: (i + k) as usize },
            ),
        ),
    decreases fields.len() - i,
{
    let tf = DeriveFlags { generate_gc_deref: false, generate_gc_drop: false };
    let n = fields.len() as int;
    if i < n {
        assert(fields[i].attrs@ =~= Seq::<Annotation>::empty());
        lemma_foreign_annotations_ignored(fields[i].attrs@);
        lemma_scan_body_no_markers(fields, i + 1);
        let ff = DeriveFieldFlags {
            skip_scan: false,
            unsafe_skip_gc_deref: false,
            unsafe_skip_gc_drop: false,
            unsafe_skip_gc_safe: false,
            skip_finalize: false,
        };
        assert(field_fragments(tf, ff, i as usize) + Seq::new(
            (n - i - 1) as nat,
            |k: int| Fragment::Scan { field: (i + 1 + k) as usize },
        ) =~= Seq::new((n - i) as nat, |k: int| Fragment::Scan { field: (i + k) as usize }));
    } else {
        assert(Seq::new(0, |k: int| Fragment::Scan { field: (i + k) as usize })
            =~= Seq::<Fragment>::empty());
    }
}

/// A struct whose type options request neither capability marker and whose
/// fields carry no annotations: the traversal body is exactly one traversal
/// call per field, in declaration order, with no capability checks at all.
pub proof fn lemma_plain_traversal(decl: TypeDecl)
    requires
        decl is Struct,
        type_options_spec(decl->Struct_attrs@) == Ok::<DeriveFlags, DeriveError>(
            DeriveFlags { generate_gc_deref: false, generate_gc_drop: false },
        ),
        forall|k: int|
            0 <= k < decl->Struct_fields@.len() ==> #[trigger] decl->Struct_fields@[k].attrs@.len()
                == 0,
    ensures
        (scan_spec(decl) is Ok),
        scan_spec(decl)->Ok_0.generate_gc_deref == false,
        scan_spec(decl)->Ok_0.generate_gc_drop == false,
        scan_spec(decl)->Ok_0.body == Seq::new(
            decl->Struct_fields@.len(),
            |k: int| Fragment::Scan { field: k as usize },
        ),
{
    let fields = decl->Struct_fields;
    lemma_scan_body_no_markers(fields@, 0);
    assert(Seq::new(fields@.len(), |k: int| Fragment::Scan { field: (0 + k) as usize })
        =~= Seq::new(fields@.len(), |k: int| Fragment::Scan { field: k as usize }));
}

} // verus!
