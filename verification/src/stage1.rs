//! Stage one: catalog rows in, closed type graph and function catalog out.
//!
//! The graph is built in two passes. The seed pass classifies every type
//! the store knows (system and user) from a lightweight query, creating
//! base-type equivalences and domain/range/array stubs. The detail pass
//! parses full enum and composite rows and overwrites any seed entry for
//! the same type id. A row that fails to parse yields one diagnostic and
//! is skipped; the run continues.
use vstd::prelude::*;
use vstd::string::StringExecFns;

use crate::diag::Diag;
use crate::diag::DiagV;
use crate::oidmap::OidMap;
use crate::oidmap::lemma_get_absent;
use crate::oidmap::lemma_get_position;
use crate::oidmap::spec_get;
use crate::types::Oid;
use crate::types::PgDatabase;
use crate::types::PgField;
use crate::types::PgFieldV;
use crate::types::PgTypeKind;
use crate::types::PgArgument;
use crate::types::PgArgumentV;
use crate::types::PgArgumentMode;
use crate::types::PgProcedureKind;
use crate::types::PgFunction;
use crate::types::PgFunctionV;
use crate::types::PgReturn;
use crate::types::PgReturnV;
use crate::types::PgType;
use crate::types::PgTypeV;
use crate::types::TypeCorrespondence;
use crate::types::TypeCorrespondenceV;
use crate::types::TAG_ARRAY;
use crate::types::TAG_BASE;
use crate::types::TAG_COMPOSITE;
use crate::types::TAG_DOMAIN;
use crate::types::TAG_ENUM;
use crate::types::TAG_PSEUDO;
use crate::types::TAG_RANGE;

verus! {

/// Oid of the `void` pseudo-type in the system catalog.
pub const VOID_OID: Oid = 2278;

/// Oid of the `trigger` pseudo-type in the system catalog.
pub const TRIGGER_OID: Oid = 2279;

/// Relies on `postgres::types::Type::VOID`: the stable oid of the void
/// pseudo-type.
#[verifier::external_body]
pub(crate) fn pg_void_oid() -> (r: Oid)
    ensures
        r == VOID_OID,
{
    postgres::types::Type::VOID.oid()
}

/// Relies on `postgres::types::Type::TRIGGER`: the stable oid of the
/// trigger pseudo-type.
#[verifier::external_body]
pub(crate) fn pg_trigger_oid() -> (r: Oid)
    ensures
        r == TRIGGER_OID,
{
    postgres::types::Type::TRIGGER.oid()
}

// ---------------------------------------------------------------------------
// Seed pass
// ---------------------------------------------------------------------------

/// One row of the lightweight seed query over every known type.
pub struct SeedTypeRow {
    pub oid: Oid,
    pub name: String,
    pub kind: u8,
    pub base_type: Oid,
}

pub ghost struct SeedTypeRowV {
    pub oid: Oid,
    pub name: Seq<char>,
    pub kind: u8,
    pub base_type: Oid,
}

impl DeepView for SeedTypeRow {
    type V = SeedTypeRowV;

    open spec fn deep_view(&self) -> SeedTypeRowV {
        SeedTypeRowV {
            oid: self.oid,
            name: self.name@,
            kind: self.kind,
            base_type: self.base_type,
        }
    }
}

/// What the seed pass does with one row: create a node, skip it silently
/// (enums and composites wait for the detail pass), or reject it with a
/// diagnostic.
pub ghost enum SeedOutcome {
    Node(PgTypeV),
    Skip,
    Bad(DiagV),
}

pub open spec fn spec_seed_node(
    eq: Seq<(Seq<char>, TypeCorrespondenceV)>,
    row: SeedTypeRowV,
) -> SeedOutcome {
    if row.kind == TAG_BASE || row.kind == TAG_PSEUDO {
        match spec_get(eq, row.name) {
            Option::Some(tc) => SeedOutcome::Node(PgTypeV::Base(tc)),
            Option::None => SeedOutcome::Node(PgTypeV::Unknown(row.name)),
        }
    } else if row.kind == TAG_DOMAIN {
        SeedOutcome::Node(
            PgTypeV::Domain { schema: "pg_catalog"@, name: row.name, base_type: row.base_type },
        )
    } else if row.kind == TAG_RANGE {
        SeedOutcome::Node(
            PgTypeV::Range { schema: "pg_catalog"@, name: row.name, base_type: row.base_type },
        )
    } else if row.kind == TAG_ARRAY {
        SeedOutcome::Node(
            PgTypeV::Array { schema: "pg_catalog"@, name: row.name, base_type: row.base_type },
        )
    } else if row.kind == TAG_ENUM || row.kind == TAG_COMPOSITE {
        SeedOutcome::Skip
    } else {
        SeedOutcome::Bad(DiagV::UnknownSeedKind { oid: row.oid, name: row.name, tag: row.kind })
    }
}

/// The type a given oid maps to after the seed pass: the node of the
/// last accepted row carrying that oid, if any.
pub open spec fn spec_seed_get(
    eq: Seq<(Seq<char>, TypeCorrespondenceV)>,
    rows: Seq<SeedTypeRowV>,
    k: Oid,
) -> Option<PgTypeV>
    decreases rows.len(),
{
    if rows.len() == 0 {
        Option::None
    } else {
        match spec_seed_node(eq, rows.last()) {
            SeedOutcome::Node(n) => if rows.last().oid == k {
                Option::Some(n)
            } else {
                spec_seed_get(eq, rows.drop_last(), k)
            },
            _ => spec_seed_get(eq, rows.drop_last(), k),
        }
    }
}

/// The diagnostics the seed pass accumulates, in row order.
pub open spec fn spec_seed_diags(
    eq: Seq<(Seq<char>, TypeCorrespondenceV)>,
    rows: Seq<SeedTypeRowV>,
) -> Seq<DiagV>
    decreases rows.len(),
{
    if rows.len() == 0 {
        Seq::empty()
    } else {
        let rest = spec_seed_diags(eq, rows.drop_last());
        match spec_seed_node(eq, rows.last()) {
            SeedOutcome::Bad(d) => rest.push(d),
            _ => rest,
        }
    }
}

/// Look a built-in type name up in the equivalence table: the first
/// entry with that name decides.
pub fn lookup_equivalence<'a>(
    eq: &'a Vec<(String, TypeCorrespondence)>,
    name: &String,
) -> (r: Option<&'a TypeCorrespondence>)
    ensures
        match r {
            Option::Some(tc) => spec_get(eq.deep_view(), name@) == Option::Some(tc.deep_view()),
            Option::None => spec_get(eq.deep_view(), name@) is None,
        },
{
    let ghost dv = eq.deep_view();
    let n: usize = eq.len();
    let mut i: usize = 0;
    while i < n
        invariant
            n == eq@.len(),
            dv == eq.deep_view(),
            0 <= i <= n,
            forall|j: int| 0 <= j < i ==> dv[j].0 != name@,
        decreases n - i,
    {
        if eq[i].0 == *name {
            proof {
                lemma_get_position(dv, name@, i as int);
            }
            return Some(&eq[i].1);
        }
        assert(dv[i as int].0 != name@);
        i = i + 1;
    }
    proof {
        lemma_get_absent(dv, name@);
    }
    None
}

impl PgDatabase {
    /// The seed pass: classify every type the store knows. Base and
    /// pseudo kinds become equivalences (or `Unknown` when the table has
    /// no entry); domains, ranges and arrays become stubs carrying their
    /// referenced type id; enums and composites are left to the detail
    /// pass. A row with an unrecognized kind tag yields one diagnostic.
    pub fn new(
        equivalences: &Vec<(String, TypeCorrespondence)>,
        rows: &Vec<SeedTypeRow>,
    ) -> (r: (PgDatabase, Vec<Diag>))
        ensures
            r.0.wf(),
            forall|k: Oid| #![all_triggers]
                spec_get(r.0.types.deep_view(), k) == spec_seed_get(
                    equivalences.deep_view(),
                    rows.deep_view(),
                    k,
                ),
            r.0.functions.deep_view() == Seq::<(Oid, crate::types::PgFunctionV)>::empty(),
            r.1.deep_view() == spec_seed_diags(equivalences.deep_view(), rows.deep_view()),
    {
        let ghost eqv = equivalences.deep_view();
        let ghost rdv = rows.deep_view();
        let mut types: OidMap<PgType> = OidMap::new();
        let mut diags: Vec<Diag> = Vec::new();
        let n: usize = rows.len();
        let mut i: usize = 0;
        proof {
            assert(rdv.take(0) =~= Seq::<SeedTypeRowV>::empty());
        }
        while i < n
            invariant
                n == rows@.len(),
                eqv == equivalences.deep_view(),
                rdv == rows.deep_view(),
                0 <= i <= n,
                types.wf(),
                forall|k: Oid| #![all_triggers]
                    spec_get(types.deep_view(), k) == spec_seed_get(eqv, rdv.take(i as int), k),
                diags.deep_view() == spec_seed_diags(eqv, rdv.take(i as int)),
            decreases n - i,
        {
            let row = &rows[i];
            let ghost prefix = rdv.take(i as int + 1);
            proof {
                assert(prefix.drop_last() =~= rdv.take(i as int));
                assert(prefix.last() == rdv[i as int]);
                assert(rdv[i as int] == rows@[i as int].deep_view());
            }
            let tag: u8 = row.kind;
            if tag == TAG_BASE || tag == TAG_PSEUDO {
                match lookup_equivalence(equivalences, &row.name) {
                    Option::Some(tc) => {
                        types.insert(row.oid, PgType::Base(tc.clone()));
                    },
                    Option::None => {
                        types.insert(row.oid, PgType::Unknown(row.name.clone()));
                    },
                }
            } else if tag == TAG_DOMAIN {
                types.insert(
                    row.oid,
                    PgType::Domain {
                        schema: String::from_str("pg_catalog"),
                        name: row.name.clone(),
                        base_type: row.base_type,
                    },
                );
            } else if tag == TAG_RANGE {
                types.insert(
                    row.oid,
                    PgType::Range {
                        schema: String::from_str("pg_catalog"),
                        name: row.name.clone(),
                        base_type: row.base_type,
                    },
                );
            } else if tag == TAG_ARRAY {
                types.insert(
                    row.oid,
                    PgType::Array {
                        schema: String::from_str("pg_catalog"),
                        name: row.name.clone(),
                        base_type: row.base_type,
                    },
                );
            } else if tag == TAG_ENUM || tag == TAG_COMPOSITE {
                // created by the detail pass, which carries the payload
            } else {
                diags.push(
                    Diag::UnknownSeedKind { oid: row.oid, name: row.name.clone(), tag },
                );
                proof {
                    assert(diags.deep_view() =~= spec_seed_diags(eqv, rdv.take(i as int)).push(
                        diags@.last().deep_view(),
                    ));
                }
            }
            i = i + 1;
        }
        proof {
            assert(rdv.take(n as int) =~= rdv);
        }
        let functions: OidMap<crate::types::PgFunction> = OidMap::new();
        (PgDatabase { types, functions }, diags)
    }
}

// ---------------------------------------------------------------------------
// Detail pass
// ---------------------------------------------------------------------------

/// One row of the detailed type query over user-visible types. The
/// payload fields are present only for the kinds that need them.
pub struct TypeRow {
    pub oid: Oid,
    pub schema: String,
    pub name: String,
    pub kind: PgTypeKind,
    pub is_table: bool,
    pub is_view: bool,
    pub enum_values: Option<Vec<String>>,
    pub struct_fields: Option<Vec<PgField>>,
    pub base_type: Option<Oid>,
}

pub ghost struct TypeRowV {
    pub oid: Oid,
    pub schema: Seq<char>,
    pub name: Seq<char>,
    pub kind: PgTypeKind,
    pub is_table: bool,
    pub is_view: bool,
    pub enum_values: Option<Seq<Seq<char>>>,
    pub struct_fields: Option<Seq<PgFieldV>>,
    pub base_type: Option<Oid>,
}

impl DeepView for TypeRow {
    type V = TypeRowV;

    open spec fn deep_view(&self) -> TypeRowV {
        TypeRowV {
            oid: self.oid,
            schema: self.schema@,
            name: self.name@,
            kind: self.kind,
            is_table: self.is_table,
            is_view: self.is_view,
            enum_values: match self.enum_values {
                Option::Some(ref v) => Option::Some(v.deep_view()),
                Option::None => Option::None,
            },
            struct_fields: match self.struct_fields {
                Option::Some(ref v) => Option::Some(v.deep_view()),
                Option::None => Option::None,
            },
            base_type: self.base_type,
        }
    }
}

/// What the detail pass makes of one row: a full node, or one
/// diagnostic. Base and pseudo kinds belong to the seed query alone; a
/// row whose kind demands a payload the row does not carry failed to
/// parse.
pub open spec fn spec_parse_type(row: TypeRowV) -> Result<(Oid, PgTypeV), DiagV> {
    match row.kind {
        PgTypeKind::Enum => match row.enum_values {
            Option::Some(vs) => Result::Ok(
                (row.oid, PgTypeV::Enum { schema: row.schema, name: row.name, values: vs }),
            ),
            Option::None => Result::Err(spec_incomplete(row)),
        },
        PgTypeKind::Composite => match row.struct_fields {
            Option::Some(fs) => Result::Ok(
                (
                    row.oid,
                    PgTypeV::Composite {
                        schema: row.schema,
                        name: row.name,
                        is_table: row.is_table,
                        is_view: row.is_view,
                        fields: fs,
                    },
                ),
            ),
            Option::None => Result::Err(spec_incomplete(row)),
        },
        PgTypeKind::Domain => match row.base_type {
            Option::Some(b) => Result::Ok(
                (row.oid, PgTypeV::Domain { schema: row.schema, name: row.name, base_type: b }),
            ),
            Option::None => Result::Err(spec_incomplete(row)),
        },
        PgTypeKind::Range => match row.base_type {
            Option::Some(b) => Result::Ok(
                (row.oid, PgTypeV::Range { schema: row.schema, name: row.name, base_type: b }),
            ),
            Option::None => Result::Err(spec_incomplete(row)),
        },
        PgTypeKind::Array => match row.base_type {
            Option::Some(b) => Result::Ok(
                (row.oid, PgTypeV::Array { schema: row.schema, name: row.name, base_type: b }),
            ),
            Option::None => Result::Err(spec_incomplete(row)),
        },
        PgTypeKind::Base => Result::Err(
            DiagV::MisplacedTypeRow {
                oid: row.oid,
                schema: row.schema,
                name: row.name,
                kind: PgTypeKind::Base,
            },
        ),
        PgTypeKind::Pseudo => Result::Err(
            DiagV::MisplacedTypeRow {
                oid: row.oid,
                schema: row.schema,
                name: row.name,
                kind: PgTypeKind::Pseudo,
            },
        ),
    }
}

pub open spec fn spec_incomplete(row: TypeRowV) -> DiagV {
    DiagV::IncompleteTypeRow {
        oid: row.oid,
        schema: row.schema,
        name: row.name,
        kind: row.kind,
    }
}

/// Parse one detail row into a full graph node.
pub fn parse_type(row: &TypeRow) -> (r: Result<(Oid, PgType), Diag>)
    ensures
        ({
            let s = spec_parse_type(row.deep_view());
            match r {
                Result::Ok(p) => s == Result::<(Oid, PgTypeV), DiagV>::Ok((p.0, p.1.deep_view())),
                Result::Err(d) => s == Result::<(Oid, PgTypeV), DiagV>::Err(d.deep_view()),
            }
        }),
{
    match row.kind {
        PgTypeKind::Enum => match &row.enum_values {
            Option::Some(vs) => Result::Ok(
                (
                    row.oid,
                    PgType::Enum {
                        schema: row.schema.clone(),
                        name: row.name.clone(),
                        values: crate::types::clone_strings(vs),
                    },
                ),
            ),
            Option::None => Result::Err(incomplete(row)),
        },
        PgTypeKind::Composite => match &row.struct_fields {
            Option::Some(fs) => Result::Ok(
                (
                    row.oid,
                    PgType::Composite {
                        schema: row.schema.clone(),
                        name: row.name.clone(),
                        is_table: row.is_table,
                        is_view: row.is_view,
                        fields: crate::types::clone_fields(fs),
                    },
                ),
            ),
            Option::None => Result::Err(incomplete(row)),
        },
        PgTypeKind::Domain => match row.base_type {
            Option::Some(b) => Result::Ok(
                (
                    row.oid,
                    PgType::Domain {
                        schema: row.schema.clone(),
                        name: row.name.clone(),
                        base_type: b,
                    },
                ),
            ),
            Option::None => Result::Err(incomplete(row)),
        },
        PgTypeKind::Range => match row.base_type {
            Option::Some(b) => Result::Ok(
                (
                    row.oid,
                    PgType::Range {
                        schema: row.schema.clone(),
                        name: row.name.clone(),
                        base_type: b,
                    },
                ),
            ),
            Option::None => Result::Err(incomplete(row)),
        },
        PgTypeKind::Array => match row.base_type {
            Option::Some(b) => Result::Ok(
                (
                    row.oid,
                    PgType::Array {
                        schema: row.schema.clone(),
                        name: row.name.clone(),
                        base_type: b,
                    },
                ),
            ),
            Option::None => Result::Err(incomplete(row)),
        },
        PgTypeKind::Base => Result::Err(
            Diag::MisplacedTypeRow {
                oid: row.oid,
                schema: row.schema.clone(),
                name: row.name.clone(),
                kind: PgTypeKind::Base,
            },
        ),
        PgTypeKind::Pseudo => Result::Err(
            Diag::MisplacedTypeRow {
                oid: row.oid,
                schema: row.schema.clone(),
                name: row.name.clone(),
                kind: PgTypeKind::Pseudo,
            },
        ),
    }
}

/// The diagnostic for a detail row whose kind demands a missing payload.
fn incomplete(row: &TypeRow) -> (d: Diag)
    ensures
        d.deep_view() == spec_incomplete(row.deep_view()),
{
    Diag::IncompleteTypeRow {
        oid: row.oid,
        schema: row.schema.clone(),
        name: row.name.clone(),
        kind: row.kind,
    }
}

// ---------------------------------------------------------------------------
// Function catalog
// ---------------------------------------------------------------------------

/// One row of the function/procedure query. The catalog describes
/// arguments through three parallel arrays; any of them may be absent.
pub struct FunctionRow {
    pub oid: Oid,
    pub schema: String,
    pub name: String,
    pub kind: PgProcedureKind,
    pub is_strict: bool,
    pub arg_names: Option<Vec<String>>,
    pub arg_types: Option<Vec<Oid>>,
    pub arg_modes: Option<Vec<PgArgumentMode>>,
    pub ret_type: Oid,
    pub ret_set: bool,
}

pub ghost struct FunctionRowV {
    pub oid: Oid,
    pub schema: Seq<char>,
    pub name: Seq<char>,
    pub kind: PgProcedureKind,
    pub is_strict: bool,
    pub arg_names: Option<Seq<Seq<char>>>,
    pub arg_types: Option<Seq<Oid>>,
    pub arg_modes: Option<Seq<PgArgumentMode>>,
    pub ret_type: Oid,
    pub ret_set: bool,
}

impl DeepView for FunctionRow {
    type V = FunctionRowV;

    open spec fn deep_view(&self) -> FunctionRowV {
        FunctionRowV {
            oid: self.oid,
            schema: self.schema@,
            name: self.name@,
            kind: self.kind,
            is_strict: self.is_strict,
            arg_names: match self.arg_names {
                Option::Some(ref v) => Option::Some(v.deep_view()),
                Option::None => Option::None,
            },
            arg_types: match self.arg_types {
                Option::Some(ref v) => Option::Some(v.deep_view()),
                Option::None => Option::None,
            },
            arg_modes: match self.arg_modes {
                Option::Some(ref v) => Option::Some(v.deep_view()),
                Option::None => Option::None,
            },
            ret_type: self.ret_type,
            ret_set: self.ret_set,
        }
    }
}

/// The argument-name array, absent meaning empty.
pub open spec fn spec_row_names(r: FunctionRowV) -> Seq<Seq<char>> {
    match r.arg_names {
        Option::Some(v) => v,
        Option::None => Seq::empty(),
    }
}

/// The argument-type array, absent meaning empty.
pub open spec fn spec_row_types(r: FunctionRowV) -> Seq<Oid> {
    match r.arg_types {
        Option::Some(v) => v,
        Option::None => Seq::empty(),
    }
}

/// The argument-mode array; when absent every named argument is "in".
pub open spec fn spec_row_modes(r: FunctionRowV) -> Seq<PgArgumentMode> {
    match r.arg_modes {
        Option::Some(v) => v,
        Option::None => Seq::new(spec_row_names(r).len(), |i: int| PgArgumentMode::In),
    }
}

/// The three arrays are walked in parallel, up to the shortest.
pub open spec fn spec_zip_len(r: FunctionRowV) -> int {
    let a = spec_row_names(r).len() as int;
    let b = spec_row_types(r).len() as int;
    let c = spec_row_modes(r).len() as int;
    if a <= b && a <= c {
        a
    } else if b <= c {
        b
    } else {
        c
    }
}

/// The argument assembled from position `i` of the parallel arrays.
/// Nullability is derived from strictness: a non-strict callable accepts
/// null in every argument.
pub open spec fn spec_arg_at(r: FunctionRowV, i: int) -> PgArgumentV {
    PgArgumentV {
        name: spec_row_names(r)[i],
        typ: spec_row_types(r)[i],
        is_variadic: spec_row_modes(r)[i] == PgArgumentMode::Variadic,
        is_nullable: !r.is_strict,
    }
}

/// Plain "in" arguments among the first `n` positions, in array order.
pub open spec fn spec_in_args_upto(r: FunctionRowV, n: int) -> Seq<PgArgumentV>
    decreases n,
{
    if n <= 0 {
        Seq::empty()
    } else {
        let rest = spec_in_args_upto(r, n - 1);
        if spec_row_modes(r)[n - 1] == PgArgumentMode::In {
            rest.push(spec_arg_at(r, n - 1))
        } else {
            rest
        }
    }
}

/// Variadic arguments among the first `n` positions, in array order.
pub open spec fn spec_variadic_args_upto(r: FunctionRowV, n: int) -> Seq<PgArgumentV>
    decreases n,
{
    if n <= 0 {
        Seq::empty()
    } else {
        let rest = spec_variadic_args_upto(r, n - 1);
        if spec_row_modes(r)[n - 1] == PgArgumentMode::Variadic {
            rest.push(spec_arg_at(r, n - 1))
        } else {
            rest
        }
    }
}

/// Output positions: "out" arguments and "table" columns, in array order.
pub open spec fn spec_out_args_upto(r: FunctionRowV, n: int) -> Seq<PgArgumentV>
    decreases n,
{
    if n <= 0 {
        Seq::empty()
    } else {
        let rest = spec_out_args_upto(r, n - 1);
        if spec_row_modes(r)[n - 1] == PgArgumentMode::Out || spec_row_modes(r)[n - 1]
            == PgArgumentMode::Table {
            rest.push(spec_arg_at(r, n - 1))
        } else {
            rest
        }
    }
}

pub open spec fn spec_has_inout(r: FunctionRowV) -> bool {
    exists|i: int|
        0 <= i < spec_zip_len(r) && spec_row_modes(r)[i] == PgArgumentMode::InOut
}

pub open spec fn spec_has_table(r: FunctionRowV) -> bool {
    exists|i: int|
        0 <= i < spec_zip_len(r) && spec_row_modes(r)[i] == PgArgumentMode::Table
}

/// The signature's input arguments: every plain "in" argument first, then
/// every variadic argument, whatever their catalog positions.
pub open spec fn spec_arguments(r: FunctionRowV) -> Seq<PgArgumentV> {
    spec_in_args_upto(r, spec_zip_len(r)) + spec_variadic_args_upto(r, spec_zip_len(r))
}

/// The return shape: procedures return nothing; otherwise the output
/// arguments form a record, and with none of them the declared return
/// type stands, collapsed to `Void` when it is the void pseudo-type.
pub open spec fn spec_returns(r: FunctionRowV) -> PgReturnV {
    if r.kind == PgProcedureKind::Proc {
        PgReturnV::Void
    } else if spec_out_args_upto(r, spec_zip_len(r)).len() == 0 {
        if r.ret_type == VOID_OID {
            PgReturnV::Void
        } else {
            PgReturnV::Scalar(r.ret_type)
        }
    } else {
        PgReturnV::Record(spec_out_args_upto(r, spec_zip_len(r)))
    }
}

/// A table-mode argument forces the set-returning flag regardless of the
/// declared one.
pub open spec fn spec_returns_set(r: FunctionRowV) -> bool {
    r.ret_set || spec_has_table(r)
}

/// What the function catalog makes of one row. Aggregate and window
/// callables, trigger-returning callables and in/out arguments are
/// unsupported: one diagnostic each, and the row is skipped.
pub open spec fn spec_parse_function(r: FunctionRowV) -> Result<(Oid, PgFunctionV), DiagV> {
    if r.kind == PgProcedureKind::Aggregate || r.kind == PgProcedureKind::Window {
        Result::Err(
            DiagV::UnsupportedKind { oid: r.oid, schema: r.schema, name: r.name, kind: r.kind },
        )
    } else if r.ret_type == TRIGGER_OID {
        Result::Err(DiagV::UnsupportedTrigger { oid: r.oid, schema: r.schema, name: r.name })
    } else if spec_has_inout(r) {
        Result::Err(DiagV::UnsupportedInOut { oid: r.oid, schema: r.schema, name: r.name })
    } else {
        Result::Ok(
            (
                r.oid,
                PgFunctionV {
                    schema: r.schema,
                    name: r.name,
                    kind: r.kind,
                    is_strict: r.is_strict,
                    arguments: spec_arguments(r),
                    returns: spec_returns(r),
                    returns_set: spec_returns_set(r),
                },
            ),
        )
    }
}

/// Parse one function/procedure row into a signature.
pub fn parse_function(row: &FunctionRow) -> (r: Result<(Oid, PgFunction), Diag>)
    ensures
        ({
            let s = spec_parse_function(row.deep_view());
            match r {
                Result::Ok(p) => s == Result::<(Oid, PgFunctionV), DiagV>::Ok(
                    (p.0, p.1.deep_view()),
                ),
                Result::Err(d) => s == Result::<(Oid, PgFunctionV), DiagV>::Err(d.deep_view()),
            }
        }),
{
    let ghost rv = row.deep_view();
    if row.kind == PgProcedureKind::Aggregate || row.kind == PgProcedureKind::Window {
        return Result::Err(
            Diag::UnsupportedKind {
                oid: row.oid,
                schema: row.schema.clone(),
                name: row.name.clone(),
                kind: row.kind,
            },
        );
    }
    if row.ret_type == pg_trigger_oid() {
        return Result::Err(
            Diag::UnsupportedTrigger {
                oid: row.oid,
                schema: row.schema.clone(),
                name: row.name.clone(),
            },
        );
    }
    let empty_names: Vec<String> = Vec::new();
    let empty_types: Vec<Oid> = Vec::new();
    let names: &Vec<String> = match &row.arg_names {
        Option::Some(v) => v,
        Option::None => &empty_names,
    };
    let types: &Vec<Oid> = match &row.arg_types {
        Option::Some(v) => v,
        Option::None => &empty_types,
    };
    let mut default_modes: Vec<PgArgumentMode> = Vec::new();
    if row.arg_modes.is_none() {
        let nn: usize = names.len();
        let mut j: usize = 0;
        while j < nn
            invariant
                0 <= j <= nn,
                default_modes@.len() == j,
                forall|x: int| 0 <= x < j ==> default_modes@[x] == PgArgumentMode::In,
            decreases nn - j,
        {
            default_modes.push(PgArgumentMode::In);
            j = j + 1;
        }
    }
    let modes: &Vec<PgArgumentMode> = match &row.arg_modes {
        Option::Some(v) => v,
        Option::None => &default_modes,
    };
    proof {
        assert(names.deep_view() == spec_row_names(rv));
        assert(types.deep_view() == spec_row_types(rv));
        assert(modes.deep_view() =~= spec_row_modes(rv));
    }
    let mut zl: usize = names.len();
    if types.len() < zl {
        zl = types.len();
    }
    if modes.len() < zl {
        zl = modes.len();
    }
    assert(zl as int == spec_zip_len(rv));

    let mut in_args: Vec<PgArgument> = Vec::new();
    let mut out_args: Vec<PgArgument> = Vec::new();
    let mut variadic_args: Vec<PgArgument> = Vec::new();
    let mut returns_set: bool = row.ret_set;
    let mut i: usize = 0;
    while i < zl
        invariant
            rv == row.deep_view(),
            rv.kind != PgProcedureKind::Aggregate,
            rv.kind != PgProcedureKind::Window,
            rv.ret_type != TRIGGER_OID,
            zl as int == spec_zip_len(rv),
            zl <= names@.len() && zl <= types@.len() && zl <= modes@.len(),
            names.deep_view() == spec_row_names(rv),
            types.deep_view() == spec_row_types(rv),
            modes.deep_view() == spec_row_modes(rv),
            0 <= i <= zl,
            in_args.deep_view() =~= spec_in_args_upto(rv, i as int),
            out_args.deep_view() =~= spec_out_args_upto(rv, i as int),
            variadic_args.deep_view() =~= spec_variadic_args_upto(rv, i as int),
            forall|x: int| 0 <= x < i ==> spec_row_modes(rv)[x] != PgArgumentMode::InOut,
            returns_set == (rv.ret_set || exists|x: int|
                0 <= x < i && spec_row_modes(rv)[x] == PgArgumentMode::Table),
        decreases zl - i,
    {
        let mode: PgArgumentMode = modes[i];
        proof {
            assert(mode == spec_row_modes(rv)[i as int]);
            assert(names.deep_view()[i as int] == names@[i as int]@);
            assert(types.deep_view()[i as int] == types@[i as int]);
        }
        let arg = PgArgument {
            name: names[i].clone(),
            typ: types[i],
            is_variadic: mode == PgArgumentMode::Variadic,
            is_nullable: !row.is_strict,
        };
        proof {
            assert(arg.deep_view() == spec_arg_at(rv, i as int));
        }
        match mode {
            PgArgumentMode::In => {
                in_args.push(arg);
            },
            PgArgumentMode::Out => {
                out_args.push(arg);
            },
            PgArgumentMode::InOut => {
                assert(spec_has_inout(rv));
                return Result::Err(
                    Diag::UnsupportedInOut {
                        oid: row.oid,
                        schema: row.schema.clone(),
                        name: row.name.clone(),
                    },
                );
            },
            PgArgumentMode::Variadic => {
                variadic_args.push(arg);
            },
            PgArgumentMode::Table => {
                out_args.push(arg);
                returns_set = true;
            },
        }
        i = i + 1;
    }
    proof {
        assert(!spec_has_inout(rv));
        assert(returns_set == spec_returns_set(rv));
    }

    let mut arguments = in_args;
    let ghost in_dv = arguments.deep_view();
    let ghost var_dv = variadic_args.deep_view();
    arguments.append(&mut variadic_args);
    proof {
        assert(arguments.deep_view() =~= in_dv + var_dv);
        assert(arguments.deep_view() == spec_arguments(rv));
    }

    let ret: PgReturn = if row.kind == PgProcedureKind::Proc {
        PgReturn::Void
    } else if out_args.len() == 0 {
        proof {
            assert(out_args.deep_view() =~= Seq::<PgArgumentV>::empty());
        }
        if row.ret_type == pg_void_oid() {
            PgReturn::Void
        } else {
            PgReturn::Scalar(row.ret_type)
        }
    } else {
        PgReturn::Record(out_args)
    };
    proof {
        assert(ret.deep_view() == spec_returns(rv));
    }

    let f = PgFunction {
        schema: row.schema.clone(),
        name: row.name.clone(),
        kind: row.kind,
        is_strict: row.is_strict,
        arguments,
        returns: ret,
        returns_set,
    };
    proof {
        assert(f.deep_view() == spec_parse_function(rv)->Ok_0.1);
    }
    Result::Ok((row.oid, f))
}

// ---------------------------------------------------------------------------
// Stage-one driver: seed pass, detail pass, function catalog
// ---------------------------------------------------------------------------

/// The type a given oid maps to once the detail pass has run over the
/// seed map: the node of the last successfully parsed detail row with
/// that oid, the seed node otherwise. Detail always overwrites seed.
pub open spec fn spec_types_get(
    eq: Seq<(Seq<char>, TypeCorrespondenceV)>,
    seeds: Seq<SeedTypeRowV>,
    trows: Seq<TypeRowV>,
    k: Oid,
) -> Option<PgTypeV>
    decreases trows.len(),
{
    if trows.len() == 0 {
        spec_seed_get(eq, seeds, k)
    } else {
        match spec_parse_type(trows.last()) {
            Result::Ok(p) => if p.0 == k {
                Option::Some(p.1)
            } else {
                spec_types_get(eq, seeds, trows.drop_last(), k)
            },
            Result::Err(_) => spec_types_get(eq, seeds, trows.drop_last(), k),
        }
    }
}

/// The diagnostics of the detail pass, in row order.
pub open spec fn spec_type_diags(trows: Seq<TypeRowV>) -> Seq<DiagV>
    decreases trows.len(),
{
    if trows.len() == 0 {
        Seq::empty()
    } else {
        let rest = spec_type_diags(trows.drop_last());
        match spec_parse_type(trows.last()) {
            Result::Err(d) => rest.push(d),
            Result::Ok(_) => rest,
        }
    }
}

/// The signature a given oid maps to after the function pass: the last
/// successfully parsed row with that oid.
pub open spec fn spec_funcs_get(frows: Seq<FunctionRowV>, k: Oid) -> Option<PgFunctionV>
    decreases frows.len(),
{
    if frows.len() == 0 {
        Option::None
    } else {
        match spec_parse_function(frows.last()) {
            Result::Ok(p) => if p.0 == k {
                Option::Some(p.1)
            } else {
                spec_funcs_get(frows.drop_last(), k)
            },
            Result::Err(_) => spec_funcs_get(frows.drop_last(), k),
        }
    }
}

/// The diagnostics of the function pass, in row order.
pub open spec fn spec_func_diags(frows: Seq<FunctionRowV>) -> Seq<DiagV>
    decreases frows.len(),
{
    if frows.len() == 0 {
        Seq::empty()
    } else {
        let rest = spec_func_diags(frows.drop_last());
        match spec_parse_function(frows.last()) {
            Result::Err(d) => rest.push(d),
            Result::Ok(_) => rest,
        }
    }
}

/// Build the whole catalog from the three queries' rows: seed pass,
/// then the detail pass (overwriting seed stubs), then the function
/// pass. Every failed row contributes exactly one diagnostic, in pass
/// and row order, and is skipped.
pub fn build_database(
    equivalences: &Vec<(String, TypeCorrespondence)>,
    seed_rows: &Vec<SeedTypeRow>,
    type_rows: &Vec<TypeRow>,
    function_rows: &Vec<FunctionRow>,
) -> (r: (PgDatabase, Vec<Diag>))
    ensures
        r.0.wf(),
        forall|k: Oid| #![all_triggers]
            spec_get(r.0.types.deep_view(), k) == spec_types_get(
                equivalences.deep_view(),
                seed_rows.deep_view(),
                type_rows.deep_view(),
                k,
            ),
        forall|k: Oid| #![all_triggers]
            spec_get(r.0.functions.deep_view(), k) == spec_funcs_get(
                function_rows.deep_view(),
                k,
            ),
        r.1.deep_view() == spec_seed_diags(equivalences.deep_view(), seed_rows.deep_view())
            + spec_type_diags(type_rows.deep_view()) + spec_func_diags(
            function_rows.deep_view(),
        ),
{
    let ghost eqv = equivalences.deep_view();
    let ghost sdv = seed_rows.deep_view();
    let ghost tdv = type_rows.deep_view();
    let ghost fdv = function_rows.deep_view();

    let (mut db, mut diags) = PgDatabase::new(equivalences, seed_rows);
    let ghost seed_diags = spec_seed_diags(eqv, sdv);

    let tn: usize = type_rows.len();
    let mut i: usize = 0;
    proof {
        assert(tdv.take(0) =~= Seq::<TypeRowV>::empty());
    }
    while i < tn
        invariant
            tn == type_rows@.len(),
            eqv == equivalences.deep_view(),
            sdv == seed_rows.deep_view(),
            tdv == type_rows.deep_view(),
            0 <= i <= tn,
            db.wf(),
            forall|k: Oid| #![all_triggers]
                spec_get(db.types.deep_view(), k) == spec_types_get(
                    eqv,
                    sdv,
                    tdv.take(i as int),
                    k,
                ),
            db.functions.deep_view() == Seq::<(Oid, PgFunctionV)>::empty(),
            diags.deep_view() == seed_diags + spec_type_diags(tdv.take(i as int)),
        decreases tn - i,
    {
        let ghost prefix = tdv.take(i as int + 1);
        proof {
            assert(prefix.drop_last() =~= tdv.take(i as int));
            assert(prefix.last() == tdv[i as int]);
            assert(tdv[i as int] == type_rows@[i as int].deep_view());
        }
        match parse_type(&type_rows[i]) {
            Result::Ok(p) => {
                db.types.insert(p.0, p.1);
            },
            Result::Err(d) => {
                let ghost ddv = d.deep_view();
                diags.push(d);
                proof {
                    assert(diags.deep_view() =~= (seed_diags + spec_type_diags(
                        tdv.take(i as int),
                    )).push(ddv));
                    assert((seed_diags + spec_type_diags(tdv.take(i as int))).push(ddv)
                        =~= seed_diags + spec_type_diags(tdv.take(i as int)).push(ddv));
                }
            },
        }
        i = i + 1;
    }
    proof {
        assert(tdv.take(tn as int) =~= tdv);
    }

    let ghost st_diags = seed_diags + spec_type_diags(tdv);
    let fnn: usize = function_rows.len();
    let mut j: usize = 0;
    proof {
        assert(fdv.take(0) =~= Seq::<FunctionRowV>::empty());
    }
    while j < fnn
        invariant
            fnn == function_rows@.len(),
            eqv == equivalences.deep_view(),
            sdv == seed_rows.deep_view(),
            tdv == type_rows.deep_view(),
            fdv == function_rows.deep_view(),
            0 <= j <= fnn,
            db.wf(),
            forall|k: Oid| #![all_triggers]
                spec_get(db.types.deep_view(), k) == spec_types_get(eqv, sdv, tdv, k),
            forall|k: Oid| #![all_triggers]
                spec_get(db.functions.deep_view(), k) == spec_funcs_get(fdv.take(j as int), k),
            diags.deep_view() == st_diags + spec_func_diags(fdv.take(j as int)),
        decreases fnn - j,
    {
        let ghost prefix = fdv.take(j as int + 1);
        proof {
            assert(prefix.drop_last() =~= fdv.take(j as int));
            assert(prefix.last() == fdv[j as int]);
            assert(fdv[j as int] == function_rows@[j as int].deep_view());
        }
        match parse_function(&function_rows[j]) {
            Result::Ok(p) => {
                db.functions.insert(p.0, p.1);
            },
            Result::Err(d) => {
                let ghost ddv = d.deep_view();
                diags.push(d);
                proof {
                    assert(diags.deep_view() =~= (st_diags + spec_func_diags(
                        fdv.take(j as int),
                    )).push(ddv));
                    assert((st_diags + spec_func_diags(fdv.take(j as int))).push(ddv)
                        =~= st_diags + spec_func_diags(fdv.take(j as int)).push(ddv));
                }
            },
        }
        j = j + 1;
    }
    proof {
        assert(fdv.take(fnn as int) =~= fdv);
        assert(st_diags + spec_func_diags(fdv) == spec_seed_diags(eqv, sdv) + spec_type_diags(
            tdv,
        ) + spec_func_diags(fdv));
    }
    (db, diags)
}

} // verus!
