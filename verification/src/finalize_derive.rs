//! Synthesis of the finalization routine.
//!
//! The finalization body is planned independently of the traversal body:
//! per field, in declaration order, a finalize call unless the field's
//! options request skipping finalization. The type's own flags are still
//! validated first, so a bad type-level flag aborts this derive too.

use vstd::prelude::*;

use crate::attrs::{
    field_options_spec, lemma_foreign_annotations_ignored, type_options_spec, Annotation,
    DeriveFieldFlags, DeriveFlags,
};
use crate::decl::{FieldDecl, TypeDecl};
use crate::err::{DeriveError, DiagKind};

verus! {

/// The positions of the fields finalized by `fields[i..]`, in declaration
/// order; a field whose flags fail validation aborts the body with that
/// field's diagnostic.
pub open spec fn finalize_body_from(fields: Seq<FieldDecl>, i: int) -> Result<
    Seq<usize>,
    DeriveError,
> recommends 0 <= i <= fields.len(),
    decreases fields.len() - i,
{
    if i < 0 || i >= fields.len() {
        Ok(Seq::<usize>::empty())
    } else {
        match field_options_spec(fields[i].attrs@) {
            Err(e) => Err(e),
            Ok(ff) => match finalize_body_from(fields, i + 1) {
                Err(e) => Err(e),
                Ok(rest) => Ok(
                    (if !ff.skip_finalize {
                        seq![i as usize]
                    } else {
                        Seq::<usize>::empty()
                    }) + rest,
                ),
            },
        }
    }
}

/// What the finalization pipeline yields for one declaration: the positions
/// of the fields to finalize, or the first diagnostic.
pub open spec fn finalize_spec(decl: TypeDecl) -> Result<Seq<usize>, DeriveError> {
    match decl {
        TypeDecl::Enum { loc } => Err(DeriveError { kind: DiagKind::UnsupportedShape, loc }),
        TypeDecl::Union { loc } => Err(DeriveError { kind: DiagKind::UnsupportedShape, loc }),
        TypeDecl::Struct { attrs, fields } => match type_options_spec(attrs@) {
            Err(e) => Err(e),
            Ok(_) => finalize_body_from(fields@, 0),
        },
    }
}

pub open spec fn finalize_result_view(r: Result<Vec<usize>, DeriveError>) -> Result<
    Seq<usize>,
    DeriveError,
> {
    match r {
        Ok(v) => Ok(v@),
        Err(e) => Err(e),
    }
}

/// Builds the finalization body: validates each field's flags lazily, in
/// declaration order, and appends the field's position unless its options
/// skip finalization.
#[verifier::loop_isolation(false)]
pub fn generate_finalize_body(fields: &Vec<FieldDecl>) -> (r: Result<Vec<usize>, DeriveError>)
    ensures
        finalize_result_view(r) == finalize_body_from(fields@, 0),
{
    let mut body: Vec<usize> = Vec::new();
    let n = fields.len();
    for i in 0..n
        invariant
            finalize_body_from(fields@, 0) == (match finalize_body_from(fields@, i as int) {
                Err(e) => Err::<Seq<usize>, DeriveError>(e),
                Ok(rest) => Ok(body@ + rest),
            }),
    {
        let ff = match DeriveFieldFlags::new(&fields[i].attrs) {
            Ok(ff) => ff,
            Err(e) => {
                return Err(e);
            },
        };
        let ghost pre = body@;
        let ghost own = if !ff.skip_finalize {
            seq![i as usize]
        } else {
            Seq::<usize>::empty()
        };
        if !ff.skip_finalize {
            body.push(i);
        }
        proof {
            assert(body@ =~= pre + own);
            match finalize_body_from(fields@, i + 1) {
                Err(_) => {},
                Ok(rest) => {
                    assert(pre + (own + rest) =~= (pre + own) + rest);
                },
            }
        }
    }
    proof {
        assert(body@ + Seq::<usize>::empty() =~= body@);
    }
    Ok(body)
}

/// The finalization pipeline for one declaration: rejects non-structs,
/// validates the type's flags for their diagnostics alone, then plans the
/// finalization body.
pub fn finalize_derive(decl: &TypeDecl) -> (r: Result<Vec<usize>, DeriveError>)
    ensures
        finalize_result_view(r) == finalize_spec(*decl),
{
    match decl {
        TypeDecl::Enum { loc } => Err(DeriveError::new(DiagKind::UnsupportedShape, *loc)),
        TypeDecl::Union { loc } => Err(DeriveError::new(DiagKind::UnsupportedShape, *loc)),
        TypeDecl::Struct { attrs, fields } => {
            match DeriveFlags::new(attrs) {
                Ok(_) => generate_finalize_body(fields),
                Err(e) => Err(e),
            }
        },
    }
}

/// The field-only finalization pipeline: it plans the same body as
/// [`finalize_derive`]; the code generator wraps it in the other trait.
pub fn finalize_fields_derive(decl: &TypeDecl) -> (r: Result<Vec<usize>, DeriveError>)
    ensures
        finalize_result_view(r) == finalize_spec(*decl),
{
    finalize_derive(decl)
}

proof fn lemma_finalize_body_unannotated(fields: Seq<FieldDecl>, i: int)
    requires
        0 <= i <= fields.len(),
        forall|k: int| 0 <= k < fields.len() ==> #[trigger] fields[k].attrs@.len() == 0,
    ensures
        finalize_body_from(fields, i) == Ok::<Seq<usize>, DeriveError>(
            Seq::new((fields.len() - i) as nat, |k: int| (i + k) as usize),
        ),
    decreases fields.len() - i,
{
    let n = fields.len() as int;
    if i < n {
        assert(fields[i].attrs@ =~= Seq::<Annotation>::empty());
        lemma_foreign_annotations_ignored(fields[i].attrs@);
        lemma_finalize_body_unannotated(fields, i + 1);
        assert(seq![i as usize] + Seq::new((n - i - 1) as nat, |k: int| (i + 1 + k) as usize)
            =~= Seq::new((n - i) as nat, |k: int| (i + k) as usize));
    } else {
        assert(Seq::new(0, |k: int| (i + k) as usize) =~= Seq::<usize>::empty());
    }
}

/// A struct with no annotations anywhere: the finalization body holds
/// exactly one finalize call per field, in declaration order.
pub proof fn lemma_no_annotations_finalize(decl: TypeDecl)
    requires
        decl is Struct,
        decl->Struct_attrs@.len() == 0,
        forall|k: int|
            0 <= k < decl->Struct_fields@.len() ==> #[trigger] decl->Struct_fields@[k].attrs@.len()
                == 0,
    ensures
        (finalize_spec(decl) is Ok),
        finalize_spec(decl)->Ok_0 == Seq::new(
            decl->Struct_fields@.len(),
            |k: int| k as usize,
        ),
{
    let attrs = decl->Struct_attrs;
    let fields = decl->Struct_fields;
    assert(attrs@ =~= Seq::<Annotation>::empty());
    lemma_foreign_annotations_ignored(attrs@);
    lemma_finalize_body_unannotated(fields@, 0);
    assert(Seq::new(fields@.len(), |k: int| (0 + k) as usize) =~= Seq::new(
        fields@.len(),
        |k: int| k as usize,
    ));
}

} // verus!
