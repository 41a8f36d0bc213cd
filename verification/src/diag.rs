//! Structured diagnostics. Every per-row or per-entity failure is
//! isolated: the offending row or entity is skipped, one diagnostic is
//! accumulated, and the run continues. Rendering diagnostics as text is
//! the caller's business.
use vstd::prelude::*;

use crate::types::Oid;
use crate::types::PgProcedureKind;
use crate::types::PgTypeKind;

verus! {

#[allow(inconsistent_fields)]
pub ghost enum DiagV {
    MisplacedTypeRow { oid: Oid, schema: Seq<char>, name: Seq<char>, kind: PgTypeKind },
    IncompleteTypeRow { oid: Oid, schema: Seq<char>, name: Seq<char>, kind: PgTypeKind },
    UnknownSeedKind { oid: Oid, name: Seq<char>, tag: u8 },
    UnsupportedKind { oid: Oid, schema: Seq<char>, name: Seq<char>, kind: PgProcedureKind },
    UnsupportedTrigger { oid: Oid, schema: Seq<char>, name: Seq<char> },
    UnsupportedInOut { oid: Oid, schema: Seq<char>, name: Seq<char> },
    UnresolvedType { schema: Seq<char>, name: Seq<char>, typ: Oid },
    NameCollision { schema: Seq<char>, name: Seq<char>, ident: Seq<char> },
    UnsupportedBinding { schema: Seq<char>, name: Seq<char>, kind: PgProcedureKind },
}

#[derive(Debug, PartialEq, Eq)]
#[allow(inconsistent_fields)]
pub enum Diag {
    /// A detail-query row carried a base or pseudo kind, which only the
    /// seed query may hold.
    MisplacedTypeRow { oid: Oid, schema: String, name: String, kind: PgTypeKind },
    /// A detail-query row lacked the payload its kind requires (enum
    /// values, composite fields, or a referenced type).
    IncompleteTypeRow { oid: Oid, schema: String, name: String, kind: PgTypeKind },
    /// A seed-query row carried a kind tag outside the catalog's alphabet.
    UnknownSeedKind { oid: Oid, name: String, tag: u8 },
    /// Aggregate and window callables are unsupported.
    UnsupportedKind { oid: Oid, schema: String, name: String, kind: PgProcedureKind },
    /// Callables returning the trigger pseudo-type are unsupported.
    UnsupportedTrigger { oid: Oid, schema: String, name: String },
    /// In/out arguments are unsupported.
    UnsupportedInOut { oid: Oid, schema: String, name: String },
    /// The entity `schema.name` references the type id `typ`, which the
    /// graph cannot resolve; the entity is omitted.
    UnresolvedType { schema: String, name: String, typ: Oid },
    /// The entity's generated identifier collides with one already
    /// emitted; the entity is omitted.
    NameCollision { schema: String, name: String, ident: String },
    /// A signature of an unemittable kind reached the emitter.
    UnsupportedBinding { schema: String, name: String, kind: PgProcedureKind },
}

impl DeepView for Diag {
    type V = DiagV;

    open spec fn deep_view(&self) -> DiagV {
        match self {
            Diag::MisplacedTypeRow { oid, schema, name, kind } => DiagV::MisplacedTypeRow {
                oid: *oid,
                schema: schema@,
                name: name@,
                kind: *kind,
            },
            Diag::IncompleteTypeRow { oid, schema, name, kind } => DiagV::IncompleteTypeRow {
                oid: *oid,
                schema: schema@,
                name: name@,
                kind: *kind,
            },
            Diag::UnknownSeedKind { oid, name, tag } => DiagV::UnknownSeedKind {
                oid: *oid,
                name: name@,
                tag: *tag,
            },
            Diag::UnsupportedKind { oid, schema, name, kind } => DiagV::UnsupportedKind {
                oid: *oid,
                schema: schema@,
                name: name@,
                kind: *kind,
            },
            Diag::UnsupportedTrigger { oid, schema, name } => DiagV::UnsupportedTrigger {
                oid: *oid,
                schema: schema@,
                name: name@,
            },
            Diag::UnsupportedInOut { oid, schema, name } => DiagV::UnsupportedInOut {
                oid: *oid,
                schema: schema@,
                name: name@,
            },
            Diag::UnresolvedType { schema, name, typ } => DiagV::UnresolvedType {
                schema: schema@,
                name: name@,
                typ: *typ,
            },
            Diag::NameCollision { schema, name, ident } => DiagV::NameCollision {
                schema: schema@,
                name: name@,
                ident: ident@,
            },
            Diag::UnsupportedBinding { schema, name, kind } => DiagV::UnsupportedBinding {
                schema: schema@,
                name: name@,
                kind: *kind,
            },
        }
    }
}

} // verus!
