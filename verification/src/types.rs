//! The data model: catalog type identifiers, type-graph nodes, function
//! signatures, and their ghost mirrors used by contracts.
use vstd::prelude::*;

use crate::oidmap::OidMap;

verus! {

/// Stable opaque identifier for a database-level type, as the catalog
/// store hands it out.
pub type Oid = u32;

// ---------------------------------------------------------------------------
// Ghost mirrors: the mathematical shape of every catalog value. Contracts
// speak of these through `deep_view`.
// ---------------------------------------------------------------------------

pub ghost struct TypeCorrespondenceV {
    pub rs_type: Seq<char>,
    pub copyable: bool,
    pub serializable: bool,
}

pub ghost struct PgFieldV {
    pub name: Seq<char>,
    pub typ: Oid,
    pub is_nullable: bool,
    pub description: Option<Seq<char>>,
}

pub ghost enum PgTypeV {
    Base(TypeCorrespondenceV),
    Enum { schema: Seq<char>, name: Seq<char>, values: Seq<Seq<char>> },
    Composite {
        schema: Seq<char>,
        name: Seq<char>,
        is_table: bool,
        is_view: bool,
        fields: Seq<PgFieldV>,
    },
    Domain { schema: Seq<char>, name: Seq<char>, base_type: Oid },
    Array { schema: Seq<char>, name: Seq<char>, base_type: Oid },
    Range { schema: Seq<char>, name: Seq<char>, base_type: Oid },
    Unknown(Seq<char>),
}

pub ghost struct PgArgumentV {
    pub name: Seq<char>,
    pub typ: Oid,
    pub is_variadic: bool,
    pub is_nullable: bool,
}

pub ghost enum PgReturnV {
    Void,
    Scalar(Oid),
    Record(Seq<PgArgumentV>),
}

pub ghost struct PgFunctionV {
    pub schema: Seq<char>,
    pub name: Seq<char>,
    pub kind: PgProcedureKind,
    pub is_strict: bool,
    pub arguments: Seq<PgArgumentV>,
    pub returns: PgReturnV,
    pub returns_set: bool,
}

// ---------------------------------------------------------------------------
// Executable catalog values
// ---------------------------------------------------------------------------

/// Built-in type equivalence: the Rust representation of a catalog base
/// type together with its capability flags.
#[derive(Debug, PartialEq, Eq)]
pub struct TypeCorrespondence {
    pub rs_type: String,
    pub copyable: bool,
    pub serializable: bool,
}

impl DeepView for TypeCorrespondence {
    type V = TypeCorrespondenceV;

    open spec fn deep_view(&self) -> TypeCorrespondenceV {
        TypeCorrespondenceV {
            rs_type: self.rs_type@,
            copyable: self.copyable,
            serializable: self.serializable,
        }
    }
}

impl Clone for TypeCorrespondence {
    fn clone(&self) -> (r: Self)
        ensures
            r.deep_view() == self.deep_view(),
    {
        TypeCorrespondence {
            rs_type: self.rs_type.clone(),
            copyable: self.copyable,
            serializable: self.serializable,
        }
    }
}

/// Field of a table, view, or free-standing composite type.
#[derive(Debug, PartialEq, Eq)]
pub struct PgField {
    pub name: String,
    pub typ: Oid,
    pub is_nullable: bool,
    pub description: Option<String>,
}

impl DeepView for PgField {
    type V = PgFieldV;

    open spec fn deep_view(&self) -> PgFieldV {
        PgFieldV {
            name: self.name@,
            typ: self.typ,
            is_nullable: self.is_nullable,
            description: match self.description {
                Option::Some(d) => Option::Some(d@),
                Option::None => Option::None,
            },
        }
    }
}

/// A node of the type graph.
#[derive(Debug, PartialEq, Eq)]
pub enum PgType {
    Base(TypeCorrespondence),
    Enum { schema: String, name: String, values: Vec<String> },
    Composite {
        schema: String,
        name: String,
        is_table: bool,
        is_view: bool,
        fields: Vec<PgField>,
    },
    Domain { schema: String, name: String, base_type: Oid },
    Array { schema: String, name: String, base_type: Oid },
    Range { schema: String, name: String, base_type: Oid },
    Unknown(String),
}

impl DeepView for PgType {
    type V = PgTypeV;

    open spec fn deep_view(&self) -> PgTypeV {
        match self {
            PgType::Base(tc) => PgTypeV::Base(tc.deep_view()),
            PgType::Enum { schema, name, values } => PgTypeV::Enum {
                schema: schema@,
                name: name@,
                values: values.deep_view(),
            },
            PgType::Composite { schema, name, is_table, is_view, fields } => PgTypeV::Composite {
                schema: schema@,
                name: name@,
                is_table: *is_table,
                is_view: *is_view,
                fields: fields.deep_view(),
            },
            PgType::Domain { schema, name, base_type } => PgTypeV::Domain {
                schema: schema@,
                name: name@,
                base_type: *base_type,
            },
            PgType::Array { schema, name, base_type } => PgTypeV::Array {
                schema: schema@,
                name: name@,
                base_type: *base_type,
            },
            PgType::Range { schema, name, base_type } => PgTypeV::Range {
                schema: schema@,
                name: name@,
                base_type: *base_type,
            },
            PgType::Unknown(name) => PgTypeV::Unknown(name@),
        }
    }
}

/// Classification tag of a catalog type row.
#[derive(Debug, PartialEq, Eq, Structural, Clone, Copy)]
pub enum PgTypeKind {
    Base,
    Pseudo,
    Enum,
    Composite,
    Domain,
    Array,
    Range,
}

impl DeepView for PgTypeKind {
    type V = PgTypeKind;

    open spec fn deep_view(&self) -> PgTypeKind {
        *self
    }
}

/// Argument of a function or procedure.
#[derive(Debug, PartialEq, Eq)]
pub struct PgArgument {
    pub name: String,
    pub typ: Oid,
    pub is_variadic: bool,
    pub is_nullable: bool,
}

impl DeepView for PgArgument {
    type V = PgArgumentV;

    open spec fn deep_view(&self) -> PgArgumentV {
        PgArgumentV {
            name: self.name@,
            typ: self.typ,
            is_variadic: self.is_variadic,
            is_nullable: self.is_nullable,
        }
    }
}

/// Return shape of a function or procedure.
#[derive(Debug, PartialEq, Eq)]
pub enum PgReturn {
    Void,
    Scalar(Oid),
    Record(Vec<PgArgument>),
}

impl DeepView for PgReturn {
    type V = PgReturnV;

    open spec fn deep_view(&self) -> PgReturnV {
        match self {
            PgReturn::Void => PgReturnV::Void,
            PgReturn::Scalar(t) => PgReturnV::Scalar(*t),
            PgReturn::Record(args) => PgReturnV::Record(args.deep_view()),
        }
    }
}

/// A callable signature read from the catalog.
#[derive(Debug, PartialEq, Eq)]
pub struct PgFunction {
    pub schema: String,
    pub name: String,
    pub kind: PgProcedureKind,
    pub is_strict: bool,
    pub arguments: Vec<PgArgument>,
    pub returns: PgReturn,
    pub returns_set: bool,
}

impl DeepView for PgFunction {
    type V = PgFunctionV;

    open spec fn deep_view(&self) -> PgFunctionV {
        PgFunctionV {
            schema: self.schema@,
            name: self.name@,
            kind: self.kind,
            is_strict: self.is_strict,
            arguments: self.arguments.deep_view(),
            returns: self.returns.deep_view(),
            returns_set: self.returns_set,
        }
    }
}

/// Mode of one argument in the catalog's parallel mode array.
#[derive(Debug, PartialEq, Eq, Structural, Clone, Copy)]
pub enum PgArgumentMode {
    In,
    Out,
    InOut,
    Variadic,
    Table,
}

impl DeepView for PgArgumentMode {
    type V = PgArgumentMode;

    open spec fn deep_view(&self) -> PgArgumentMode {
        *self
    }
}

/// Kind of callable.
#[derive(Debug, PartialEq, Eq, Structural, Clone, Copy)]
pub enum PgProcedureKind {
    Function,
    Proc,
    Aggregate,
    Window,
}

/// The two catalog maps built by stage one: the closed type graph and
/// the function catalog, both keyed by `Oid` and immutable once built.
pub struct PgDatabase {
    pub types: OidMap<PgType>,
    pub functions: OidMap<PgFunction>,
}

impl PgDatabase {
    pub open spec fn wf(&self) -> bool {
        self.types.wf() && self.functions.wf()
    }
}

impl DeepView for PgProcedureKind {
    type V = PgProcedureKind;

    open spec fn deep_view(&self) -> PgProcedureKind {
        *self
    }
}

/// Copy a vector of strings; the copy's contents are the original's.
pub(crate) fn clone_strings(v: &Vec<String>) -> (r: Vec<String>)
    ensures
        r.deep_view() == v.deep_view(),
{
    let mut r: Vec<String> = Vec::new();
    let n: usize = v.len();
    let mut i: usize = 0;
    while i < n
        invariant
            n == v@.len(),
            0 <= i <= n,
            r@.len() == i,
            forall|j: int| 0 <= j < i ==> r.deep_view()[j] == v.deep_view()[j],
        decreases n - i,
    {
        let x = v[i].clone();
        r.push(x);
        i = i + 1;
    }
    proof {
        assert(r.deep_view() =~= v.deep_view());
    }
    r
}

/// Copy a vector of fields; the copy's contents are the original's.
pub(crate) fn clone_fields(v: &Vec<PgField>) -> (r: Vec<PgField>)
    ensures
        r.deep_view() == v.deep_view(),
{
    let mut r: Vec<PgField> = Vec::new();
    let n: usize = v.len();
    let mut i: usize = 0;
    while i < n
        invariant
            n == v@.len(),
            0 <= i <= n,
            r@.len() == i,
            forall|j: int| 0 <= j < i ==> r.deep_view()[j] == v.deep_view()[j],
        decreases n - i,
    {
        let f = &v[i];
        let description: Option<String> = match &f.description {
            Option::Some(d) => Option::Some(d.clone()),
            Option::None => Option::None,
        };
        r.push(
            PgField { name: f.name.clone(), typ: f.typ, is_nullable: f.is_nullable, description },
        );
        i = i + 1;
    }
    proof {
        assert(r.deep_view() =~= v.deep_view());
    }
    r
}

// ---------------------------------------------------------------------------
// Wire-tag decoders. The catalog encodes each tag as a single ASCII byte;
// a row whose tag is unknown is a parse failure, reported as `None`.
// ---------------------------------------------------------------------------

/// ASCII 'b': base type.
pub const TAG_BASE: u8 = 98;

/// ASCII 'p': pseudo type.
pub const TAG_PSEUDO: u8 = 112;

/// ASCII 'd': domain.
pub const TAG_DOMAIN: u8 = 100;

/// ASCII 'r': range.
pub const TAG_RANGE: u8 = 114;

/// ASCII 'a': array.
pub const TAG_ARRAY: u8 = 97;

/// ASCII 'e': enum.
pub const TAG_ENUM: u8 = 101;

/// ASCII 'c': composite.
pub const TAG_COMPOSITE: u8 = 99;

/// ASCII 'f': plain function.
pub const TAG_FUNCTION: u8 = 102;

/// ASCII 'p': procedure.
pub const TAG_PROC: u8 = 112;

/// ASCII 'a': aggregate function.
pub const TAG_AGGREGATE: u8 = 97;

/// ASCII 'w': window function.
pub const TAG_WINDOW: u8 = 119;

/// ASCII 'i': in argument.
pub const TAG_IN: u8 = 105;

/// ASCII 'o': out argument.
pub const TAG_OUT: u8 = 111;

/// ASCII 'v': variadic argument.
pub const TAG_VARIADIC: u8 = 118;

/// ASCII 't': table argument.
pub const TAG_TABLE: u8 = 116;

pub open spec fn spec_type_kind(raw: Seq<u8>) -> Option<PgTypeKind> {
    if raw.len() != 1 {
        Option::None
    } else if raw[0] == TAG_BASE {
        Option::Some(PgTypeKind::Base)
    } else if raw[0] == TAG_PSEUDO {
        Option::Some(PgTypeKind::Pseudo)
    } else if raw[0] == TAG_DOMAIN {
        Option::Some(PgTypeKind::Domain)
    } else if raw[0] == TAG_RANGE {
        Option::Some(PgTypeKind::Range)
    } else if raw[0] == TAG_ARRAY {
        Option::Some(PgTypeKind::Array)
    } else if raw[0] == TAG_ENUM {
        Option::Some(PgTypeKind::Enum)
    } else if raw[0] == TAG_COMPOSITE {
        Option::Some(PgTypeKind::Composite)
    } else {
        Option::None
    }
}

pub open spec fn spec_procedure_kind(raw: Seq<u8>) -> Option<PgProcedureKind> {
    if raw.len() != 1 {
        Option::None
    } else if raw[0] == TAG_FUNCTION {
        Option::Some(PgProcedureKind::Function)
    } else if raw[0] == TAG_PROC {
        Option::Some(PgProcedureKind::Proc)
    } else if raw[0] == TAG_AGGREGATE {
        Option::Some(PgProcedureKind::Aggregate)
    } else if raw[0] == TAG_WINDOW {
        Option::Some(PgProcedureKind::Window)
    } else {
        Option::None
    }
}

pub open spec fn spec_argument_mode(raw: Seq<u8>) -> Option<PgArgumentMode> {
    if raw.len() != 1 {
        Option::None
    } else if raw[0] == TAG_IN {
        Option::Some(PgArgumentMode::In)
    } else if raw[0] == TAG_OUT {
        Option::Some(PgArgumentMode::Out)
    } else if raw[0] == TAG_BASE {
        Option::Some(PgArgumentMode::InOut)
    } else if raw[0] == TAG_VARIADIC {
        Option::Some(PgArgumentMode::Variadic)
    } else if raw[0] == TAG_TABLE {
        Option::Some(PgArgumentMode::Table)
    } else {
        Option::None
    }
}

impl PgTypeKind {
    /// Decode the catalog's one-byte type-kind tag.
    pub fn from_sql(raw: &[u8]) -> (r: Option<PgTypeKind>)
        ensures
            r == spec_type_kind(raw@),
    {
        if raw.len() != 1 {
            return None;
        }
        let tag: u8 = raw[0];
        if tag == TAG_BASE {
            Some(PgTypeKind::Base)
        } else if tag == TAG_PSEUDO {
            Some(PgTypeKind::Pseudo)
        } else if tag == TAG_DOMAIN {
            Some(PgTypeKind::Domain)
        } else if tag == TAG_RANGE {
            Some(PgTypeKind::Range)
        } else if tag == TAG_ARRAY {
            Some(PgTypeKind::Array)
        } else if tag == TAG_ENUM {
            Some(PgTypeKind::Enum)
        } else if tag == TAG_COMPOSITE {
            Some(PgTypeKind::Composite)
        } else {
            None
        }
    }
}

impl PgProcedureKind {
    /// Decode the catalog's one-byte callable-kind tag.
    pub fn from_sql(raw: &[u8]) -> (r: Option<PgProcedureKind>)
        ensures
            r == spec_procedure_kind(raw@),
    {
        if raw.len() != 1 {
            return None;
        }
        let tag: u8 = raw[0];
        if tag == TAG_FUNCTION {
            Some(PgProcedureKind::Function)
        } else if tag == TAG_PROC {
            Some(PgProcedureKind::Proc)
        } else if tag == TAG_AGGREGATE {
            Some(PgProcedureKind::Aggregate)
        } else if tag == TAG_WINDOW {
            Some(PgProcedureKind::Window)
        } else {
            None
        }
    }
}

impl PgArgumentMode {
    /// Decode the catalog's one-byte argument-mode tag.
    pub fn from_sql(raw: &[u8]) -> (r: Option<PgArgumentMode>)
        ensures
            r == spec_argument_mode(raw@),
    {
        if raw.len() != 1 {
            return None;
        }
        let tag: u8 = raw[0];
        if tag == TAG_IN {
            Some(PgArgumentMode::In)
        } else if tag == TAG_OUT {
            Some(PgArgumentMode::Out)
        } else if tag == TAG_BASE {
            Some(PgArgumentMode::InOut)
        } else if tag == TAG_VARIADIC {
            Some(PgArgumentMode::Variadic)
        } else if tag == TAG_TABLE {
            Some(PgArgumentMode::Table)
        } else {
            None
        }
    }
}

} // verus!
