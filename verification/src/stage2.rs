//! Stage two: drive the resolver over the closed graph and assemble the
//! generated module as a plan — declarations for enums and composites,
//! one callable binding per signature, and the diagnostics of every
//! entity that had to be omitted. Rendering the plan to source text is
//! the renderer's business.
use vstd::prelude::*;
use vstd::string::StringExecFns;

use crate::diag::Diag;
use crate::diag::DiagV;
use crate::names::gen_fld_name;
use crate::names::gen_type_name;
use crate::names::snake_of;
use crate::names::spec_type_name;
use crate::names::spec_function_name;
use crate::names::spec_arg_name;
use crate::names::gen_function_name;
use crate::names::gen_arg_name;
use crate::names::upper_camel_of;
use crate::names::to_upper_camel;
use crate::oidmap::OidMap;
use crate::resolve::ResolveMode;
use crate::resolve::resolve_fld_type;
use crate::resolve::spec_resolve;
use crate::resolve::spec_resolve_fields;
use crate::resolve::spec_resolve_rs;
use crate::resolve::resolve_arg_type;
use crate::resolve::resolve_ret_type;
use crate::oidmap::spec_get;
use crate::types::PgArgument;
use crate::types::PgArgumentV;
use crate::types::PgFunction;
use crate::types::PgFunctionV;
use crate::types::PgProcedureKind;
use crate::types::PgReturn;
use crate::types::PgReturnV;
use crate::types::PgDatabase;
use crate::types::Oid;
use crate::types::PgField;
use crate::types::PgFieldV;
use crate::types::PgType;
use crate::types::PgTypeV;
use crate::types::TypeCorrespondenceV;

verus! {

// ---------------------------------------------------------------------------
// The generated-module plan and its ghost mirror
// ---------------------------------------------------------------------------

pub ghost struct RsVariantV {
    pub tag: Seq<char>,
    pub pg_name: Option<Seq<char>>,
}

/// One variant of a generated enum: its tag, and the literal catalog
/// spelling whenever normalization altered it, so database-facing calls
/// keep the original text.
#[derive(Debug, PartialEq, Eq)]
pub struct RsVariant {
    pub tag: String,
    pub pg_name: Option<String>,
}

impl DeepView for RsVariant {
    type V = RsVariantV;

    open spec fn deep_view(&self) -> RsVariantV {
        RsVariantV {
            tag: self.tag@,
            pg_name: match self.pg_name {
                Option::Some(ref p) => Option::Some(p@),
                Option::None => Option::None,
            },
        }
    }
}

pub ghost struct RsEnumPlanV {
    pub name: Seq<char>,
    pub pg_name: Seq<char>,
    pub variants: Seq<RsVariantV>,
}

/// A generated closed set-of-values declaration.
#[derive(Debug, PartialEq, Eq)]
pub struct RsEnumPlan {
    pub name: String,
    pub pg_name: String,
    pub variants: Vec<RsVariant>,
}

impl DeepView for RsEnumPlan {
    type V = RsEnumPlanV;

    open spec fn deep_view(&self) -> RsEnumPlanV {
        RsEnumPlanV {
            name: self.name@,
            pg_name: self.pg_name@,
            variants: self.variants.deep_view(),
        }
    }
}

pub ghost struct RsFieldPlanV {
    pub name: Seq<char>,
    pub pg_name: Option<Seq<char>>,
    pub ty: Seq<char>,
}

/// One field of a generated record, with its original-name mapping
/// whenever normalization altered the catalog spelling.
#[derive(Debug, PartialEq, Eq)]
pub struct RsFieldPlan {
    pub name: String,
    pub pg_name: Option<String>,
    pub ty: String,
}

impl DeepView for RsFieldPlan {
    type V = RsFieldPlanV;

    open spec fn deep_view(&self) -> RsFieldPlanV {
        RsFieldPlanV {
            name: self.name@,
            pg_name: match self.pg_name {
                Option::Some(ref p) => Option::Some(p@),
                Option::None => Option::None,
            },
            ty: self.ty@,
        }
    }
}

pub ghost struct RsStructPlanV {
    pub name: Seq<char>,
    pub pg_name: Seq<char>,
    pub row_backed: bool,
    pub copyable: bool,
    pub serializable: bool,
    pub fields: Seq<RsFieldPlanV>,
}

/// A generated record declaration. `row_backed` marks composites bound
/// to a table or view, constructed from a generic named-column row; the
/// capability flags come from the resolver and are emission metadata.
#[derive(Debug, PartialEq, Eq)]
pub struct RsStructPlan {
    pub name: String,
    pub pg_name: String,
    pub row_backed: bool,
    pub copyable: bool,
    pub serializable: bool,
    pub fields: Vec<RsFieldPlan>,
}

impl DeepView for RsStructPlan {
    type V = RsStructPlanV;

    open spec fn deep_view(&self) -> RsStructPlanV {
        RsStructPlanV {
            name: self.name@,
            pg_name: self.pg_name@,
            row_backed: self.row_backed,
            copyable: self.copyable,
            serializable: self.serializable,
            fields: self.fields.deep_view(),
        }
    }
}

pub ghost enum RsTypePlanV {
    Enum(RsEnumPlanV),
    Struct(RsStructPlanV),
}

/// One generated type declaration.
#[derive(Debug, PartialEq, Eq)]
pub enum RsTypePlan {
    Enum(RsEnumPlan),
    Struct(RsStructPlan),
}

impl DeepView for RsTypePlan {
    type V = RsTypePlanV;

    open spec fn deep_view(&self) -> RsTypePlanV {
        match self {
            RsTypePlan::Enum(e) => RsTypePlanV::Enum(e.deep_view()),
            RsTypePlan::Struct(s) => RsTypePlanV::Struct(s.deep_view()),
        }
    }
}

pub ghost struct RsArgPlanV {
    pub name: Seq<char>,
    pub ty: Seq<char>,
}

/// One argument of a generated binding.
#[derive(Debug, PartialEq, Eq)]
pub struct RsArgPlan {
    pub name: String,
    pub ty: String,
}

impl DeepView for RsArgPlan {
    type V = RsArgPlanV;

    open spec fn deep_view(&self) -> RsArgPlanV {
        RsArgPlanV { name: self.name@, ty: self.ty@ }
    }
}

pub ghost struct RsFnPlanV {
    pub name: Seq<char>,
    pub args: Seq<RsArgPlanV>,
    pub ret: Seq<char>,
    pub lines: Seq<Seq<char>>,
}

/// One generated callable binding: signature and body lines.
#[derive(Debug, PartialEq, Eq)]
pub struct RsFnPlan {
    pub name: String,
    pub args: Vec<RsArgPlan>,
    pub ret: String,
    pub lines: Vec<String>,
}

impl DeepView for RsFnPlan {
    type V = RsFnPlanV;

    open spec fn deep_view(&self) -> RsFnPlanV {
        RsFnPlanV {
            name: self.name@,
            args: self.args.deep_view(),
            ret: self.ret@,
            lines: self.lines.deep_view(),
        }
    }
}

/// The whole generated module: type declarations and bindings in graph
/// order, and one diagnostic per omitted entity.
#[derive(Debug)]
pub struct ModulePlan {
    pub types: Vec<RsTypePlan>,
    pub fns: Vec<RsFnPlan>,
    pub diags: Vec<Diag>,
}

// ---------------------------------------------------------------------------
// Decimal rendering, for the positional parameters of the issued call
// ---------------------------------------------------------------------------

pub open spec fn spec_digit(d: nat) -> char {
    if d == 0 {
        '0'
    } else if d == 1 {
        '1'
    } else if d == 2 {
        '2'
    } else if d == 3 {
        '3'
    } else if d == 4 {
        '4'
    } else if d == 5 {
        '5'
    } else if d == 6 {
        '6'
    } else if d == 7 {
        '7'
    } else if d == 8 {
        '8'
    } else {
        '9'
    }
}

/// The decimal rendering of a number.
pub open spec fn spec_dec(n: nat) -> Seq<char>
    decreases n,
{
    if n < 10 {
        seq![spec_digit(n)]
    } else {
        spec_dec(n / 10).push(spec_digit(n % 10))
    }
}

fn digit_str(d: u64) -> (r: &'static str)
    requires
        d < 10,
    ensures
        r@ == seq![spec_digit(d as nat)],
{
    proof {
        reveal_strlit("0");
        reveal_strlit("1");
        reveal_strlit("2");
        reveal_strlit("3");
        reveal_strlit("4");
        reveal_strlit("5");
        reveal_strlit("6");
        reveal_strlit("7");
        reveal_strlit("8");
        reveal_strlit("9");
    }
    if d == 0 {
        "0"
    } else if d == 1 {
        "1"
    } else if d == 2 {
        "2"
    } else if d == 3 {
        "3"
    } else if d == 4 {
        "4"
    } else if d == 5 {
        "5"
    } else if d == 6 {
        "6"
    } else if d == 7 {
        "7"
    } else if d == 8 {
        "8"
    } else {
        "9"
    }
}

/// Render a number in decimal.
pub fn u64_to_dec(n: u64) -> (r: String)
    ensures
        r@ == spec_dec(n as nat),
    decreases n,
{
    if n < 10 {
        let s: String = digit_str(n).to_owned();
        proof {
            assert(s@ =~= spec_dec(n as nat));
        }
        s
    } else {
        proof {
            assert(n / 10 < n) by (nonlinear_arith)
                requires
                    n >= 10,
            ;
        }
        let mut s = u64_to_dec(n / 10);
        s.append(digit_str(n % 10));
        proof {
            assert((n / 10) as nat == n as nat / 10);
            assert((n % 10) as nat == n as nat % 10);
            assert(s@ =~= spec_dec(n as nat / 10).push(spec_digit(n as nat % 10)));
        }
        s
    }
}

// ---------------------------------------------------------------------------
// Enum declarations: normalized tags, disambiguated on collision
// ---------------------------------------------------------------------------

/// How many of the taken tags are at least `n` characters long. The
/// disambiguation loop below terminates because every appended mark
/// moves the candidate past more of them.
pub open spec fn count_ge(used: Seq<Seq<char>>, n: int) -> nat
    decreases used.len(),
{
    if used.len() == 0 {
        0
    } else {
        count_ge(used.drop_last(), n) + if used.last().len() >= n {
            1nat
        } else {
            0nat
        }
    }
}

proof fn lemma_count_ge_mono(used: Seq<Seq<char>>, n: int)
    ensures
        count_ge(used, n + 1) <= count_ge(used, n),
    decreases used.len(),
{
    if used.len() > 0 {
        lemma_count_ge_mono(used.drop_last(), n);
    }
}

proof fn lemma_count_ge_witness(used: Seq<Seq<char>>, w: Seq<char>, n: int)
    requires
        used.contains(w),
        w.len() == n,
    ensures
        count_ge(used, n + 1) < count_ge(used, n),
    decreases used.len(),
{
    if used.last() == w {
        lemma_count_ge_mono(used.drop_last(), n);
    } else {
        let i = choose|i: int| 0 <= i < used.len() && used[i] == w;
        assert(used.drop_last()[i] == w);
        lemma_count_ge_witness(used.drop_last(), w, n);
    }
}

/// The first tag not yet taken: the candidate itself, or the candidate
/// with as many disambiguation marks appended as collisions demand.
pub open spec fn spec_fresh(cand: Seq<char>, used: Seq<Seq<char>>) -> Seq<char>
    decreases count_ge(used, cand.len() as int)
    via spec_fresh_decreases
{
    if used.contains(cand) {
        spec_fresh(cand.push('_'), used)
    } else {
        cand
    }
}

#[via_fn]
proof fn spec_fresh_decreases(cand: Seq<char>, used: Seq<Seq<char>>) {
    if used.contains(cand) {
        lemma_count_ge_witness(used, cand, cand.len() as int);
    }
}

fn contains_string(used: &Vec<String>, x: &String) -> (b: bool)
    ensures
        b == used.deep_view().contains(x@),
{
    let ghost dv = used.deep_view();
    let n: usize = used.len();
    let mut i: usize = 0;
    while i < n
        invariant
            n == used@.len(),
            dv == used.deep_view(),
            0 <= i <= n,
            forall|j: int| 0 <= j < i ==> dv[j] != x@,
        decreases n - i,
    {
        if used[i] == *x {
            assert(dv[i as int] == x@);
            return true;
        }
        assert(dv[i as int] != x@);
        i = i + 1;
    }
    proof {
        assert forall|j: int| 0 <= j < dv.len() implies dv[j] != x@ by {}
    }
    false
}

/// Extend a candidate tag until it collides with no taken tag.
fn fresh_tag(cand: String, used: &Vec<String>) -> (r: String)
    ensures
        r@ == spec_fresh(cand@, used.deep_view()),
    decreases count_ge(used.deep_view(), cand@.len() as int),
{
    let ghost dv = used.deep_view();
    if contains_string(used, &cand) {
        proof {
            lemma_count_ge_witness(dv, cand@, cand@.len() as int);
        }
        let ghost before = cand@;
        let mut s = cand;
        s.append("_");
        proof {
            reveal_strlit("_");
            assert(s@ =~= before.push('_'));
        }
        fresh_tag(s, used)
    } else {
        cand
    }
}

/// One variant: the normalized tag, kept clear of every earlier tag,
/// with the literal catalog spelling attached whenever the tag is not
/// that spelling.
pub open spec fn spec_variant(pg: Seq<char>, used: Seq<Seq<char>>) -> RsVariantV {
    let tag = spec_fresh(upper_camel_of(pg), used);
    RsVariantV {
        tag: tag,
        pg_name: if tag == pg {
            Option::None
        } else {
            Option::Some(pg)
        },
    }
}

/// All variants of one enum, in catalog order, each tag avoiding the
/// tags before it.
pub open spec fn spec_variants(values: Seq<Seq<char>>, used: Seq<Seq<char>>) -> Seq<RsVariantV>
    decreases values.len(),
{
    if values.len() == 0 {
        Seq::empty()
    } else {
        let v0 = spec_variant(values[0], used);
        seq![v0] + spec_variants(values.skip(1), used.push(v0.tag))
    }
}

pub open spec fn spec_enum_plan(
    schema: Seq<char>,
    name: Seq<char>,
    values: Seq<Seq<char>>,
) -> RsEnumPlanV {
    RsEnumPlanV {
        name: spec_type_name(schema, name),
        pg_name: name,
        variants: spec_variants(values, Seq::empty()),
    }
}

/// Generate the declaration plan of one catalog enum.
pub fn gen_enum(schema: &String, name: &String, values: &Vec<String>) -> (p: RsEnumPlan)
    ensures
        p.deep_view() == spec_enum_plan(schema@, name@, values.deep_view()),
{
    let ghost vdv = values.deep_view();
    let mut variants: Vec<RsVariant> = Vec::new();
    let mut used: Vec<String> = Vec::new();
    let n: usize = values.len();
    let mut i: usize = 0;
    proof {
        assert(vdv.skip(0) =~= vdv);
        assert(used.deep_view() =~= Seq::<Seq<char>>::empty());
    }
    while i < n
        invariant
            n == values@.len(),
            vdv == values.deep_view(),
            0 <= i <= n,
            spec_variants(vdv, Seq::empty()) == variants.deep_view() + spec_variants(
                vdv.skip(i as int),
                used.deep_view(),
            ),
        decreases n - i,
    {
        let ghost tail = vdv.skip(i as int);
        proof {
            assert(tail[0] == vdv[i as int]);
            assert(vdv[i as int] == values@[i as int]@);
            assert(tail.skip(1) =~= vdv.skip(i as int + 1));
        }
        let pg = &values[i];
        let cand = to_upper_camel(pg);
        let tag = fresh_tag(cand, &used);
        let pg_name: Option<String> = if tag == *pg {
            Option::None
        } else {
            Option::Some(pg.clone())
        };
        let ghost used0 = used.deep_view();
        let ghost vars0 = variants.deep_view();
        used.push(tag.clone());
        variants.push(RsVariant { tag, pg_name });
        proof {
            assert(used.deep_view() =~= used0.push(spec_variant(vdv[i as int], used0).tag));
            assert(variants.deep_view() =~= vars0.push(spec_variant(vdv[i as int], used0)));
            assert(vars0.push(spec_variant(vdv[i as int], used0)) =~= vars0 + seq![
                spec_variant(vdv[i as int], used0),
            ]);
        }
        i = i + 1;
    }
    proof {
        assert(vdv.skip(n as int) =~= Seq::<Seq<char>>::empty());
        assert(variants.deep_view() + Seq::<RsVariantV>::empty() =~= variants.deep_view());
    }
    RsEnumPlan { name: gen_type_name(schema, name), pg_name: name.clone(), variants }
}

// ---------------------------------------------------------------------------
// Composite declarations
// ---------------------------------------------------------------------------

/// One field's plan: snake-cased name with its original-text mapping
/// when altered, and the resolved type, made optional for nullable
/// columns of row-backed composites.
pub open spec fn spec_field_plan(f: PgFieldV, corr: TypeCorrespondenceV, row_backed: bool) -> RsFieldPlanV {
    let rs_name = snake_of(f.name);
    RsFieldPlanV {
        name: rs_name,
        pg_name: if rs_name == f.name {
            Option::None
        } else {
            Option::Some(f.name)
        },
        ty: if f.is_nullable && row_backed {
            "Option<"@ + corr.rs_type + ">"@
        } else {
            corr.rs_type
        },
    }
}

/// All field plans of one composite, in catalog order; the first field
/// whose type fails to resolve fails the composite.
pub open spec fn spec_field_plans(
    g: Seq<(Oid, PgTypeV)>,
    fields: Seq<PgFieldV>,
    row_backed: bool,
) -> Result<Seq<RsFieldPlanV>, Oid>
    decreases fields.len(),
{
    if fields.len() == 0 {
        Result::Ok(Seq::empty())
    } else {
        match spec_resolve(g, Set::empty(), fields[0].typ, ResolveMode::Field) {
            Result::Err(o) => Result::Err(o),
            Result::Ok(corr) => match spec_field_plans(g, fields.skip(1), row_backed) {
                Result::Err(o) => Result::Err(o),
                Result::Ok(rest) => Result::Ok(
                    seq![spec_field_plan(fields[0], corr, row_backed)] + rest,
                ),
            },
        }
    }
}

/// The declaration plan of one composite: field plans plus the
/// conjunction of the fields' capability flags, computed once here and
/// attached as emission metadata.
pub open spec fn spec_composite_plan(
    g: Seq<(Oid, PgTypeV)>,
    schema: Seq<char>,
    name: Seq<char>,
    is_table: bool,
    is_view: bool,
    fields: Seq<PgFieldV>,
) -> Result<RsStructPlanV, Oid> {
    match spec_field_plans(g, fields, is_table || is_view) {
        Result::Err(o) => Result::Err(o),
        Result::Ok(fs) => match spec_resolve_fields(g, Set::empty(), fields) {
            Result::Err(o) => Result::Err(o),
            Result::Ok((c, s)) => Result::Ok(
                RsStructPlanV {
                    name: spec_type_name(schema, name),
                    pg_name: name,
                    row_backed: is_table || is_view,
                    copyable: c,
                    serializable: s,
                    fields: fs,
                },
            ),
        },
    }
}

/// Generate the declaration plan of one composite type.
pub fn gen_composite(
    database: &OidMap<PgType>,
    schema: &String,
    name: &String,
    is_table: bool,
    is_view: bool,
    fields: &Vec<PgField>,
) -> (r: Result<RsStructPlan, Oid>)
    requires
        database.wf(),
    ensures
        ({
            let s = spec_composite_plan(
                database.deep_view(),
                schema@,
                name@,
                is_table,
                is_view,
                fields.deep_view(),
            );
            match r {
                Result::Ok(p) => s == Result::<RsStructPlanV, Oid>::Ok(p.deep_view()),
                Result::Err(o) => s == Result::<RsStructPlanV, Oid>::Err(o),
            }
        }),
{
    let ghost g = database.deep_view();
    let ghost fdv = fields.deep_view();
    let row_backed = is_table || is_view;
    let mut plans: Vec<RsFieldPlan> = Vec::new();
    let mut copyable: bool = true;
    let mut serializable: bool = true;
    let n: usize = fields.len();
    let mut i: usize = 0;
    proof {
        assert(fdv.skip(0) =~= fdv);
    }
    while i < n
        invariant
            database.wf(),
            g == database.deep_view(),
            n == fields@.len(),
            fdv == fields.deep_view(),
            row_backed == (is_table || is_view),
            0 <= i <= n,
            spec_field_plans(g, fdv, row_backed) == (match spec_field_plans(
                g,
                fdv.skip(i as int),
                row_backed,
            ) {
                Result::Ok(rest) => Result::<Seq<RsFieldPlanV>, Oid>::Ok(
                    plans.deep_view() + rest,
                ),
                Result::Err(o) => Result::<Seq<RsFieldPlanV>, Oid>::Err(o),
            }),
            spec_resolve_fields(g, Set::empty(), fdv) == (match spec_resolve_fields(
                g,
                Set::empty(),
                fdv.skip(i as int),
            ) {
                Result::Ok((c, s)) => Result::<(bool, bool), Oid>::Ok(
                    ((copyable && c), (serializable && s)),
                ),
                Result::Err(o) => Result::<(bool, bool), Oid>::Err(o),
            }),
        decreases n - i,
    {
        let ghost tail = fdv.skip(i as int);
        proof {
            assert(tail[0] == fdv[i as int]);
            assert(fdv[i as int] == fields@[i as int].deep_view());
            assert(tail.skip(1) =~= fdv.skip(i as int + 1));
        }
        let f = &fields[i];
        match resolve_fld_type(database, f.typ) {
            Result::Err(o) => {
                return Result::Err(o);
            },
            Result::Ok(corr) => {
                let rs_name = gen_fld_name(&f.name);
                let pg_name: Option<String> = if rs_name == f.name {
                    Option::None
                } else {
                    Option::Some(f.name.clone())
                };
                let ty: String = if f.is_nullable && row_backed {
                    let mut t = String::from_str("Option<");
                    t.append(corr.rs_type.as_str());
                    t.append(">");
                    t
                } else {
                    corr.rs_type
                };
                copyable = copyable && corr.copyable;
                serializable = serializable && corr.serializable;
                let ghost plans0 = plans.deep_view();
                plans.push(RsFieldPlan { name: rs_name, pg_name, ty });
                proof {
                    let ghost fp = spec_field_plan(
                        fdv[i as int],
                        spec_resolve(g, Set::empty(), fdv[i as int].typ, ResolveMode::Field)->Ok_0,
                        row_backed,
                    );
                    if spec_field_plans(g, fdv.skip(i as int + 1), row_backed) is Ok {
                        let ghost rest = spec_field_plans(
                            g,
                            fdv.skip(i as int + 1),
                            row_backed,
                        )->Ok_0;
                        assert(plans0 + (seq![fp] + rest) =~= plans0.push(fp) + rest);
                    }
                    assert(plans.deep_view() =~= plans0.push(
                        spec_field_plan(
                            fdv[i as int],
                            spec_resolve(g, Set::empty(), fdv[i as int].typ, ResolveMode::Field)->Ok_0,
                            row_backed,
                        ),
                    ));
                    assert(plans0.push(
                        spec_field_plan(
                            fdv[i as int],
                            spec_resolve(g, Set::empty(), fdv[i as int].typ, ResolveMode::Field)->Ok_0,
                            row_backed,
                        ),
                    ) =~= plans0 + seq![
                        spec_field_plan(
                            fdv[i as int],
                            spec_resolve(g, Set::empty(), fdv[i as int].typ, ResolveMode::Field)->Ok_0,
                            row_backed,
                        ),
                    ]);
                }
            },
        }
        i = i + 1;
    }
    proof {
        assert(fdv.skip(n as int) =~= Seq::<PgFieldV>::empty());
        assert(plans.deep_view() + Seq::<RsFieldPlanV>::empty() =~= plans.deep_view());
    }
    Result::Ok(
        RsStructPlan {
            name: gen_type_name(schema, name),
            pg_name: name.clone(),
            row_backed,
            copyable,
            serializable,
            fields: plans,
        },
    )
}

// ---------------------------------------------------------------------------
// Callable bindings
// ---------------------------------------------------------------------------

/// The binding's argument list: each argument's snake-cased name and its
/// argument-mode resolution; the first failing type fails the binding.
pub open spec fn spec_arg_plans(
    g: Seq<(Oid, PgTypeV)>,
    args: Seq<PgArgumentV>,
) -> Result<Seq<RsArgPlanV>, Oid>
    decreases args.len(),
{
    if args.len() == 0 {
        Result::Ok(Seq::empty())
    } else {
        match spec_resolve_rs(g, Set::empty(), args[0].typ, ResolveMode::Argument) {
            Result::Err(o) => Result::Err(o),
            Result::Ok(ty) => match spec_arg_plans(g, args.skip(1)) {
                Result::Err(o) => Result::Err(o),
                Result::Ok(rest) => Result::Ok(
                    seq![RsArgPlanV { name: spec_arg_name(args[0].name), ty: ty }] + rest,
                ),
            },
        }
    }
}

/// The return-mode resolutions of a record's output arguments, in order.
pub open spec fn spec_ret_types(
    g: Seq<(Oid, PgTypeV)>,
    args: Seq<PgArgumentV>,
) -> Result<Seq<Seq<char>>, Oid>
    decreases args.len(),
{
    if args.len() == 0 {
        Result::Ok(Seq::empty())
    } else {
        match spec_resolve_rs(g, Set::empty(), args[0].typ, ResolveMode::Return) {
            Result::Err(o) => Result::Err(o),
            Result::Ok(ty) => match spec_ret_types(g, args.skip(1)) {
                Result::Err(o) => Result::Err(o),
                Result::Ok(rest) => Result::Ok(seq![ty] + rest),
            },
        }
    }
}

/// Comma-and-space joined parts.
pub open spec fn spec_join_comma(parts: Seq<Seq<char>>) -> Seq<char>
    decreases parts.len(),
{
    if parts.len() == 0 {
        Seq::empty()
    } else if parts.len() == 1 {
        parts[0]
    } else {
        spec_join_comma(parts.drop_last()) + ", "@ + parts.last()
    }
}

/// The positional parameters of the issued call: `$1` through `$n`.
pub open spec fn spec_params(n: int) -> Seq<char>
    decreases n,
{
    if n <= 0 {
        Seq::empty()
    } else if n == 1 {
        "$"@ + spec_dec(1)
    } else {
        spec_params(n - 1) + ", $"@ + spec_dec(n as nat)
    }
}

/// The bound Rust arguments of the issued call: `&a, &b`.
pub open spec fn spec_bind_join(args: Seq<PgArgumentV>) -> Seq<char>
    decreases args.len(),
{
    if args.len() == 0 {
        Seq::empty()
    } else if args.len() == 1 {
        "&"@ + spec_arg_name(args[0].name)
    } else {
        spec_bind_join(args.drop_last()) + ", &"@ + spec_arg_name(args.last().name)
    }
}

/// The named-column extractions of a record result, comma-joined.
pub open spec fn spec_getters(args: Seq<PgArgumentV>) -> Seq<char>
    decreases args.len(),
{
    if args.len() == 0 {
        Seq::empty()
    } else if args.len() == 1 {
        "row.get(\""@ + args[0].name + "\")"@
    } else {
        spec_getters(args.drop_last()) + ",row.get(\""@ + args.last().name + "\")"@
    }
}

/// The one parameterized call the binding issues: a `SELECT * FROM`
/// over the schema-qualified name for functions, a `CALL` for
/// procedures, binding parameters positionally in argument order.
pub open spec fn spec_query_line(f: PgFunctionV) -> Seq<char> {
    let pg = spec_params(f.arguments.len() as int);
    let rs = spec_bind_join(f.arguments);
    if f.kind == PgProcedureKind::Proc {
        "let _query = self.query(\"CALL \\\""@ + f.schema + "\\\".\\\""@ + f.name + "\\\"("@
            + pg + ")\", &["@ + rs + "])?;"@
    } else if f.returns is Void {
        "let _query = self.query(\"SELECT * FROM \\\""@ + f.schema + "\\\".\\\""@ + f.name
            + "\\\"("@ + pg + ")\", &["@ + rs + "])?;"@
    } else {
        "let query = self.query(\"SELECT * FROM \\\""@ + f.schema + "\\\".\\\""@ + f.name
            + "\\\"("@ + pg + ")\", &["@ + rs + "])?;"@
    }
}

/// How one row's single column becomes the result: a composite is
/// reconstructed from the row, anything else is read from column zero.
pub open spec fn spec_scalar_line(node: PgTypeV) -> Seq<char> {
    match node {
        PgTypeV::Composite { schema, name, .. } => "let result = "@ + spec_type_name(
            schema,
            name,
        ) + "::from_postgres_row(row)?;"@,
        _ => "let result = row.get(0);"@,
    }
}

/// The result-extraction lines of the binding body: a void result is
/// discarded; a non-set scalar takes exactly one row (failing on zero
/// rows); a set scalar maps every row; records extract named columns in
/// declared order, into one tuple or a sequence of tuples.
pub open spec fn spec_extract_lines(
    g: Seq<(Oid, PgTypeV)>,
    f: PgFunctionV,
) -> Result<Seq<Seq<char>>, Oid> {
    match f.returns {
        PgReturnV::Void => Result::Ok(seq!["Ok(())"@]),
        PgReturnV::Scalar(t) => match spec_get(g, t) {
            Option::None => Result::Err(t),
            Option::Some(node) => if !f.returns_set {
                Result::Ok(
                    seq![
                        "let row = query.into_iter().next()?;"@,
                        spec_scalar_line(node),
                        "Ok(result)"@,
                    ],
                )
            } else {
                match node {
                    PgTypeV::Composite { schema, name, .. } => Result::Ok(
                        seq![
                            "let result: Result<Vec<"@ + spec_type_name(schema, name)
                                + ">, _> = query.iter().map(|row| "@ + spec_type_name(
                                schema,
                                name,
                            ) + "::from_postgres_row(row)).collect();"@,
                            "Ok(result?)"@,
                        ],
                    ),
                    _ => Result::Ok(
                        seq![
                            "let result = query.into_iter().map(|row| row.get(0)).collect();"@,
                            "Ok(result)"@,
                        ],
                    ),
                }
            },
        },
        PgReturnV::Record(rs) => if !f.returns_set {
            Result::Ok(
                seq![
                    "let row = query.into_iter().next()?;"@,
                    "let result = ("@ + spec_getters(rs) + ");"@,
                    "Ok(result)"@,
                ],
            )
        } else {
            Result::Ok(
                seq![
                    "let result = query.into_iter().map(|row| ("@ + spec_getters(rs)
                        + ")).collect();"@,
                    "Ok(result)"@,
                ],
            )
        },
    }
}

/// The result type the signature declares: the resolved return type,
/// a tuple of resolved output types for records, wrapped in an ordered
/// sequence if set-returning, always in the fallible envelope.
pub open spec fn spec_ret_core(g: Seq<(Oid, PgTypeV)>, ret: PgReturnV) -> Result<Seq<char>, Oid> {
    match ret {
        PgReturnV::Void => Result::Ok("()"@),
        PgReturnV::Scalar(t) => spec_resolve_rs(g, Set::empty(), t, ResolveMode::Return),
        PgReturnV::Record(rs) => match spec_ret_types(g, rs) {
            Result::Err(o) => Result::Err(o),
            Result::Ok(ts) => Result::Ok("("@ + spec_join_comma(ts) + ")"@),
        },
    }
}

/// The whole binding plan of one signature.
pub open spec fn spec_fn_plan(g: Seq<(Oid, PgTypeV)>, f: PgFunctionV) -> Result<
    RsFnPlanV,
    DiagV,
> {
    if f.kind != PgProcedureKind::Function && f.kind != PgProcedureKind::Proc {
        Result::Err(DiagV::UnsupportedBinding { schema: f.schema, name: f.name, kind: f.kind })
    } else {
        match spec_arg_plans(g, f.arguments) {
            Result::Err(o) => Result::Err(
                DiagV::UnresolvedType { schema: f.schema, name: f.name, typ: o },
            ),
            Result::Ok(args) => match spec_ret_core(g, f.returns) {
                Result::Err(o) => Result::Err(
                    DiagV::UnresolvedType { schema: f.schema, name: f.name, typ: o },
                ),
                Result::Ok(core) => match spec_extract_lines(g, f) {
                    Result::Err(o) => Result::Err(
                        DiagV::UnresolvedType { schema: f.schema, name: f.name, typ: o },
                    ),
                    Result::Ok(ext) => Result::Ok(
                        RsFnPlanV {
                            name: spec_function_name(f.schema, f.name),
                            args: args,
                            ret: "PgResult<"@ + (if f.returns_set {
                                "Vec<("@ + core + ")>"@
                            } else {
                                core
                            }) + ">"@,
                            lines: seq![spec_query_line(f)] + ext,
                        },
                    ),
                },
            },
        }
    }
}

/// Render `$1, $2, ...` for `n` parameters.
fn params_list(n: usize) -> (r: String)
    ensures
        r@ == spec_params(n as int),
{
    let mut s = String::new();
    let mut k: usize = 0;
    while k < n
        invariant
            0 <= k <= n,
            s@ == spec_params(k as int),
        decreases n - k,
    {
        if k == 0 {
            s.append("$");
            let d = u64_to_dec(1);
            s.append(d.as_str());
        } else {
            s.append(", $");
            let d = u64_to_dec((k + 1) as u64);
            s.append(d.as_str());
        }
        k = k + 1;
    }
    s
}

/// Render `&a, &b` for the bound arguments.
fn bind_join(args: &Vec<PgArgument>) -> (r: String)
    ensures
        r@ == spec_bind_join(args.deep_view()),
{
    let ghost adv = args.deep_view();
    let mut s = String::new();
    let n: usize = args.len();
    let mut k: usize = 0;
    proof {
        assert(adv.take(0) =~= Seq::<PgArgumentV>::empty());
    }
    while k < n
        invariant
            n == args@.len(),
            adv == args.deep_view(),
            0 <= k <= n,
            s@ == spec_bind_join(adv.take(k as int)),
        decreases n - k,
    {
        let ghost pre = adv.take(k as int + 1);
        proof {
            assert(pre.drop_last() =~= adv.take(k as int));
            assert(pre.last() == adv[k as int]);
            assert(adv[k as int] == args@[k as int].deep_view());
        }
        if k == 0 {
            s.append("&");
        } else {
            s.append(", &");
        }
        let nm = gen_arg_name(&args[k].name);
        s.append(nm.as_str());
        k = k + 1;
    }
    proof {
        assert(adv.take(n as int) =~= adv);
    }
    s
}

/// Render the comma-joined named-column extractions of a record.
fn getters_join(args: &Vec<PgArgument>) -> (r: String)
    ensures
        r@ == spec_getters(args.deep_view()),
{
    let ghost adv = args.deep_view();
    let mut s = String::new();
    let n: usize = args.len();
    let mut k: usize = 0;
    proof {
        assert(adv.take(0) =~= Seq::<PgArgumentV>::empty());
    }
    while k < n
        invariant
            n == args@.len(),
            adv == args.deep_view(),
            0 <= k <= n,
            s@ == spec_getters(adv.take(k as int)),
        decreases n - k,
    {
        let ghost pre = adv.take(k as int + 1);
        proof {
            assert(pre.drop_last() =~= adv.take(k as int));
            assert(pre.last() == adv[k as int]);
            assert(adv[k as int] == args@[k as int].deep_view());
        }
        if k == 0 {
            s.append("row.get(\"");
        } else {
            s.append(",row.get(\"");
        }
        s.append(args[k].name.as_str());
        s.append("\")");
        k = k + 1;
    }
    proof {
        assert(adv.take(n as int) =~= adv);
    }
    s
}

/// Render the comma-and-space join of already resolved parts.
fn comma_join(parts: &Vec<String>) -> (r: String)
    ensures
        r@ == spec_join_comma(parts.deep_view()),
{
    let ghost pdv = parts.deep_view();
    let mut s = String::new();
    let n: usize = parts.len();
    let mut k: usize = 0;
    proof {
        assert(pdv.take(0) =~= Seq::<Seq<char>>::empty());
    }
    while k < n
        invariant
            n == parts@.len(),
            pdv == parts.deep_view(),
            0 <= k <= n,
            s@ == spec_join_comma(pdv.take(k as int)),
        decreases n - k,
    {
        let ghost pre = pdv.take(k as int + 1);
        proof {
            assert(pre.drop_last() =~= pdv.take(k as int));
            assert(pre.last() == pdv[k as int]);
            assert(pdv[k as int] == parts@[k as int]@);
        }
        if k > 0 {
            s.append(", ");
        }
        s.append(parts[k].as_str());
        k = k + 1;
    }
    proof {
        assert(pdv.take(n as int) =~= pdv);
    }
    s
}

/// The issued call, rendered.
fn query_line(func: &PgFunction) -> (r: String)
    ensures
        r@ == spec_query_line(func.deep_view()),
{
    let pg = params_list(func.arguments.len());
    let rs = bind_join(&func.arguments);
    let is_proc = match func.kind {
        PgProcedureKind::Proc => true,
        _ => false,
    };
    let is_void = match &func.returns {
        PgReturn::Void => true,
        _ => false,
    };
    let mut s: String = if is_proc {
        String::from_str("let _query = self.query(\"CALL \\\"")
    } else if is_void {
        String::from_str("let _query = self.query(\"SELECT * FROM \\\"")
    } else {
        String::from_str("let query = self.query(\"SELECT * FROM \\\"")
    };
    s.append(func.schema.as_str());
    s.append("\\\".\\\"");
    s.append(func.name.as_str());
    s.append("\\\"(");
    s.append(pg.as_str());
    s.append(")\", &[");
    s.append(rs.as_str());
    s.append("])?;");
    s
}

/// The result-extraction lines, rendered.
fn extract_lines(database: &OidMap<PgType>, func: &PgFunction) -> (r: Result<Vec<String>, Oid>)
    requires
        database.wf(),
    ensures
        ({
            let s = spec_extract_lines(database.deep_view(), func.deep_view());
            match r {
                Result::Ok(ls) => s == Result::<Seq<Seq<char>>, Oid>::Ok(ls.deep_view()),
                Result::Err(o) => s == Result::<Seq<Seq<char>>, Oid>::Err(o),
            }
        }),
{
    let ghost g = database.deep_view();
    let mut ls: Vec<String> = Vec::new();
    match &func.returns {
        PgReturn::Void => {
            ls.push(String::from_str("Ok(())"));
            proof {
                assert(ls.deep_view() =~= seq!["Ok(())"@]);
            }
            Result::Ok(ls)
        },
        PgReturn::Scalar(t) => {
            match database.get(*t) {
                Option::None => Result::Err(*t),
                Option::Some(node) => {
                    if !func.returns_set {
                        ls.push(String::from_str("let row = query.into_iter().next()?;"));
                        match node {
                            PgType::Composite { schema, name, .. } => {
                                let mut l = String::from_str("let result = ");
                                let nm = gen_type_name(schema, name);
                                l.append(nm.as_str());
                                l.append("::from_postgres_row(row)?;");
                                ls.push(l);
                            },
                            _ => {
                                ls.push(String::from_str("let result = row.get(0);"));
                            },
                        }
                        ls.push(String::from_str("Ok(result)"));
                        proof {
                            assert(ls.deep_view() =~= seq![
                                "let row = query.into_iter().next()?;"@,
                                spec_scalar_line(node.deep_view()),
                                "Ok(result)"@,
                            ]);
                        }
                        Result::Ok(ls)
                    } else {
                        match node {
                            PgType::Composite { schema, name, .. } => {
                                let nm = gen_type_name(schema, name);
                                let mut l = String::from_str("let result: Result<Vec<");
                                l.append(nm.as_str());
                                l.append(">, _> = query.iter().map(|row| ");
                                l.append(nm.as_str());
                                l.append("::from_postgres_row(row)).collect();");
                                ls.push(l);
                                ls.push(String::from_str("Ok(result?)"));
                            },
                            _ => {
                                ls.push(
                                    String::from_str(
                                        "let result = query.into_iter().map(|row| row.get(0)).collect();",
                                    ),
                                );
                                ls.push(String::from_str("Ok(result)"));
                            },
                        }
                        proof {
                            assert(ls.deep_view() =~= spec_extract_lines(
                                g,
                                func.deep_view(),
                            )->Ok_0);
                        }
                        Result::Ok(ls)
                    }
                },
            }
        },
        PgReturn::Record(rs) => {
            let got = getters_join(rs);
            if !func.returns_set {
                ls.push(String::from_str("let row = query.into_iter().next()?;"));
                let mut l = String::from_str("let result = (");
                l.append(got.as_str());
                l.append(");");
                ls.push(l);
                ls.push(String::from_str("Ok(result)"));
            } else {
                let mut l = String::from_str("let result = query.into_iter().map(|row| (");
                l.append(got.as_str());
                l.append(")).collect();");
                ls.push(l);
                ls.push(String::from_str("Ok(result)"));
            }
            proof {
                assert(ls.deep_view() =~= spec_extract_lines(g, func.deep_view())->Ok_0);
            }
            Result::Ok(ls)
        },
    }
}

/// Generate the binding plan of one signature.
pub fn gen_function(database: &OidMap<PgType>, func: &PgFunction) -> (r: Result<RsFnPlan, Diag>)
    requires
        database.wf(),
    ensures
        ({
            let s = spec_fn_plan(database.deep_view(), func.deep_view());
            match r {
                Result::Ok(p) => s == Result::<RsFnPlanV, DiagV>::Ok(p.deep_view()),
                Result::Err(d) => s == Result::<RsFnPlanV, DiagV>::Err(d.deep_view()),
            }
        }),
{
    let ghost g = database.deep_view();
    let ghost fv = func.deep_view();
    let supported = match func.kind {
        PgProcedureKind::Function => true,
        PgProcedureKind::Proc => true,
        _ => false,
    };
    if !supported {
        return Result::Err(
            Diag::UnsupportedBinding {
                schema: func.schema.clone(),
                name: func.name.clone(),
                kind: func.kind,
            },
        );
    }

    // Arguments, in signature order.
    let ghost adv = func.arguments.deep_view();
    let mut args: Vec<RsArgPlan> = Vec::new();
    let n: usize = func.arguments.len();
    let mut i: usize = 0;
    proof {
        assert(adv.skip(0) =~= adv);
    }
    while i < n
        invariant
            database.wf(),
            g == database.deep_view(),
            fv == func.deep_view(),
            fv.kind == PgProcedureKind::Function || fv.kind == PgProcedureKind::Proc,
            fv.arguments == adv,
            n == func.arguments@.len(),
            adv == func.arguments.deep_view(),
            0 <= i <= n,
            spec_arg_plans(g, adv) == (match spec_arg_plans(g, adv.skip(i as int)) {
                Result::Ok(rest) => Result::<Seq<RsArgPlanV>, Oid>::Ok(
                    args.deep_view() + rest,
                ),
                Result::Err(o) => Result::<Seq<RsArgPlanV>, Oid>::Err(o),
            }),
        decreases n - i,
    {
        let ghost tail = adv.skip(i as int);
        proof {
            assert(tail[0] == adv[i as int]);
            assert(adv[i as int] == func.arguments@[i as int].deep_view());
            assert(tail.skip(1) =~= adv.skip(i as int + 1));
        }
        let a = &func.arguments[i];
        match resolve_arg_type(database, a.typ) {
            Result::Err(o) => {
                return Result::Err(
                    Diag::UnresolvedType {
                        schema: func.schema.clone(),
                        name: func.name.clone(),
                        typ: o,
                    },
                );
            },
            Result::Ok(ty) => {
                let ghost args0 = args.deep_view();
                let nm = gen_arg_name(&a.name);
                args.push(RsArgPlan { name: nm, ty });
                proof {
                    let ghost ap = RsArgPlanV {
                        name: spec_arg_name(adv[i as int].name),
                        ty: spec_resolve_rs(
                            g,
                            Set::empty(),
                            adv[i as int].typ,
                            ResolveMode::Argument,
                        )->Ok_0,
                    };
                    if spec_arg_plans(g, adv.skip(i as int + 1)) is Ok {
                        let ghost rest = spec_arg_plans(g, adv.skip(i as int + 1))->Ok_0;
                        assert(args0 + (seq![ap] + rest) =~= args0.push(ap) + rest);
                    }
                    assert(args.deep_view() =~= args0.push(ap));
                }
            },
        }
        i = i + 1;
    }
    proof {
        assert(adv.skip(n as int) =~= Seq::<PgArgumentV>::empty());
        assert(args.deep_view() + Seq::<RsArgPlanV>::empty() =~= args.deep_view());
    }

    // The result type's core.
    let core: String = match &func.returns {
        PgReturn::Void => String::from_str("()"),
        PgReturn::Scalar(t) => match resolve_ret_type(database, *t) {
            Result::Ok(ty) => ty,
            Result::Err(o) => {
                return Result::Err(
                    Diag::UnresolvedType {
                        schema: func.schema.clone(),
                        name: func.name.clone(),
                        typ: o,
                    },
                );
            },
        },
        PgReturn::Record(rets) => {
            let ghost rdv = rets.deep_view();
            let mut parts: Vec<String> = Vec::new();
            let rn: usize = rets.len();
            let mut j: usize = 0;
            proof {
                assert(rdv.skip(0) =~= rdv);
            }
            while j < rn
                invariant
                    database.wf(),
                    g == database.deep_view(),
                    fv == func.deep_view(),
                    fv.kind == PgProcedureKind::Function || fv.kind == PgProcedureKind::Proc,
                    spec_arg_plans(g, fv.arguments) is Ok,
                    fv.returns == PgReturnV::Record(rdv),
                    rn == rets@.len(),
                    rdv == rets.deep_view(),
                    0 <= j <= rn,
                    spec_ret_types(g, rdv) == (match spec_ret_types(g, rdv.skip(j as int)) {
                        Result::Ok(rest) => Result::<Seq<Seq<char>>, Oid>::Ok(
                            parts.deep_view() + rest,
                        ),
                        Result::Err(o) => Result::<Seq<Seq<char>>, Oid>::Err(o),
                    }),
                decreases rn - j,
            {
                let ghost tail = rdv.skip(j as int);
                proof {
                    assert(tail[0] == rdv[j as int]);
                    assert(rdv[j as int] == rets@[j as int].deep_view());
                    assert(tail.skip(1) =~= rdv.skip(j as int + 1));
                }
                match resolve_ret_type(database, rets[j].typ) {
                    Result::Err(o) => {
                        return Result::Err(
                            Diag::UnresolvedType {
                                schema: func.schema.clone(),
                                name: func.name.clone(),
                                typ: o,
                            },
                        );
                    },
                    Result::Ok(ty) => {
                        let ghost parts0 = parts.deep_view();
                        let ghost tyv = ty@;
                        parts.push(ty);
                        proof {
                            if spec_ret_types(g, rdv.skip(j as int + 1)) is Ok {
                                let ghost rest = spec_ret_types(g, rdv.skip(j as int + 1))->Ok_0;
                                assert(parts0 + (seq![tyv] + rest) =~= parts0.push(tyv) + rest);
                            }
                            assert(parts.deep_view() =~= parts0.push(tyv));
                        }
                    },
                }
                j = j + 1;
            }
            proof {
                assert(rdv.skip(rn as int) =~= Seq::<PgArgumentV>::empty());
                assert(parts.deep_view() + Seq::<Seq<char>>::empty() =~= parts.deep_view());
            }
            let joined = comma_join(&parts);
            let mut c = String::from_str("(");
            c.append(joined.as_str());
            c.append(")");
            c
        },
    };

    // The extraction lines; a scalar may need the graph again.
    let ext: Vec<String> = match extract_lines(database, func) {
        Result::Ok(ls) => ls,
        Result::Err(o) => {
            return Result::Err(
                Diag::UnresolvedType {
                    schema: func.schema.clone(),
                    name: func.name.clone(),
                    typ: o,
                },
            );
        },
    };

    // Assemble.
    let mut ret = String::from_str("PgResult<");
    if func.returns_set {
        ret.append("Vec<(");
        ret.append(core.as_str());
        ret.append(")>");
    } else {
        ret.append(core.as_str());
    }
    ret.append(">");
    proof {
        let sc = spec_ret_core(g, fv.returns)->Ok_0;
        assert(core@ == sc);
        assert(ret@ =~= "PgResult<"@ + (if fv.returns_set {
            "Vec<("@ + sc + ")>"@
        } else {
            sc
        }) + ">"@);
    }

    let mut lines: Vec<String> = Vec::new();
    lines.push(query_line(func));
    let ghost q = lines.deep_view();
    let ghost extdv = ext.deep_view();
    let mut ext_mut = ext;
    lines.append(&mut ext_mut);
    proof {
        assert(q =~= seq![spec_query_line(fv)]);
        assert(lines.deep_view() =~= q + extdv);
    }

    Result::Ok(
        RsFnPlan { name: gen_function_name(&func.schema, &func.name), args, ret, lines },
    )
}

// ---------------------------------------------------------------------------
// The emitter driver: every graph entry in key order, then every
// signature in key order, with duplicate generated identifiers detected
// ---------------------------------------------------------------------------

/// Walk the graph entries: enums and composites become declarations;
/// base types, stubs and unknowns declare nothing. A generated type name
/// already taken yields one collision diagnostic and the entry is
/// omitted; a composite whose field fails to resolve yields one
/// unresolved-type diagnostic against the composite.
pub open spec fn spec_emit_types(
    g: Seq<(Oid, PgTypeV)>,
    entries: Seq<(Oid, PgTypeV)>,
    used: Seq<Seq<char>>,
) -> (Seq<RsTypePlanV>, Seq<DiagV>)
    decreases entries.len(),
{
    if entries.len() == 0 {
        (Seq::empty(), Seq::empty())
    } else {
        let node = entries[0].1;
        match node {
            PgTypeV::Enum { schema, name, values } => {
                let nm = spec_type_name(schema, name);
                if used.contains(nm) {
                    let rest = spec_emit_types(g, entries.skip(1), used);
                    (
                        rest.0,
                        seq![DiagV::NameCollision { schema: schema, name: name, ident: nm }]
                            + rest.1,
                    )
                } else {
                    let rest = spec_emit_types(g, entries.skip(1), used.push(nm));
                    (
                        seq![RsTypePlanV::Enum(spec_enum_plan(schema, name, values))] + rest.0,
                        rest.1,
                    )
                }
            },
            PgTypeV::Composite { schema, name, is_table, is_view, fields } => {
                let nm = spec_type_name(schema, name);
                if used.contains(nm) {
                    let rest = spec_emit_types(g, entries.skip(1), used);
                    (
                        rest.0,
                        seq![DiagV::NameCollision { schema: schema, name: name, ident: nm }]
                            + rest.1,
                    )
                } else {
                    match spec_composite_plan(g, schema, name, is_table, is_view, fields) {
                        Result::Ok(p) => {
                            let rest = spec_emit_types(g, entries.skip(1), used.push(nm));
                            (seq![RsTypePlanV::Struct(p)] + rest.0, rest.1)
                        },
                        Result::Err(o) => {
                            let rest = spec_emit_types(g, entries.skip(1), used);
                            (
                                rest.0,
                                seq![
                                    DiagV::UnresolvedType { schema: schema, name: name, typ: o },
                                ] + rest.1,
                            )
                        },
                    }
                }
            },
            _ => spec_emit_types(g, entries.skip(1), used),
        }
    }
}

/// Walk the function catalog: one binding per signature, with the same
/// collision rule on generated function names, and one diagnostic per
/// signature whose binding cannot be generated.
pub open spec fn spec_emit_fns(
    g: Seq<(Oid, PgTypeV)>,
    entries: Seq<(Oid, PgFunctionV)>,
    used: Seq<Seq<char>>,
) -> (Seq<RsFnPlanV>, Seq<DiagV>)
    decreases entries.len(),
{
    if entries.len() == 0 {
        (Seq::empty(), Seq::empty())
    } else {
        let f = entries[0].1;
        let nm = spec_function_name(f.schema, f.name);
        if used.contains(nm) {
            let rest = spec_emit_fns(g, entries.skip(1), used);
            (
                rest.0,
                seq![DiagV::NameCollision { schema: f.schema, name: f.name, ident: nm }]
                    + rest.1,
            )
        } else {
            match spec_fn_plan(g, f) {
                Result::Ok(p) => {
                    let rest = spec_emit_fns(g, entries.skip(1), used.push(nm));
                    (seq![p] + rest.0, rest.1)
                },
                Result::Err(d) => {
                    let rest = spec_emit_fns(g, entries.skip(1), used);
                    (rest.0, seq![d] + rest.1)
                },
            }
        }
    }
}

/// Assemble the whole module plan from the catalog: type declarations
/// first, then bindings, with every omission's diagnostic, type
/// diagnostics first.
///
/// Both walks run in ascending type-id order — the stable order of the
/// catalog snapshot, which the key-ordered maps preserve. A schema's
/// members therefore appear in the order the store assigned their ids
/// (its creation order), not regrouped alphabetically by schema name;
/// every run over the same snapshot emits the same text.
pub fn emit_module(database: &PgDatabase) -> (p: ModulePlan)
    requires
        database.wf(),
    ensures
        p.types.deep_view() == spec_emit_types(
            database.types.deep_view(),
            database.types.deep_view(),
            Seq::empty(),
        ).0,
        p.fns.deep_view() == spec_emit_fns(
            database.types.deep_view(),
            database.functions.deep_view(),
            Seq::empty(),
        ).0,
        p.diags.deep_view() == spec_emit_types(
            database.types.deep_view(),
            database.types.deep_view(),
            Seq::empty(),
        ).1 + spec_emit_fns(
            database.types.deep_view(),
            database.functions.deep_view(),
            Seq::empty(),
        ).1,
{
    let ghost g = database.types.deep_view();
    let ghost edv = database.types.deep_view();
    let ghost fdv = database.functions.deep_view();

    let mut tplans: Vec<RsTypePlan> = Vec::new();
    let mut tdiags: Vec<Diag> = Vec::new();
    let mut used: Vec<String> = Vec::new();
    let tn: usize = database.types.len();
    let mut i: usize = 0;
    proof {
        assert(edv.skip(0) =~= edv);
        assert(used.deep_view() =~= Seq::<Seq<char>>::empty());
    }
    while i < tn
        invariant
            database.wf(),
            g == database.types.deep_view(),
            edv == g,
            tn == edv.len(),
            0 <= i <= tn,
            spec_emit_types(g, edv, Seq::empty()).0 == tplans.deep_view() + spec_emit_types(
                g,
                edv.skip(i as int),
                used.deep_view(),
            ).0,
            spec_emit_types(g, edv, Seq::empty()).1 == tdiags.deep_view() + spec_emit_types(
                g,
                edv.skip(i as int),
                used.deep_view(),
            ).1,
        decreases tn - i,
    {
        let ghost tail = edv.skip(i as int);
        proof {
            assert(tail[0] == edv[i as int]);
            assert(tail.skip(1) =~= edv.skip(i as int + 1));
        }
        let entry = database.types.entry_at(i);
        let ghost used0 = used.deep_view();
        match &entry.1 {
            PgType::Enum { schema, name, values } => {
                let nm = gen_type_name(schema, name);
                if contains_string(&used, &nm) {
                    let ghost td0 = tdiags.deep_view();
                    tdiags.push(
                        Diag::NameCollision {
                            schema: schema.clone(),
                            name: name.clone(),
                            ident: nm,
                        },
                    );
                    proof {
                        assert(tdiags.deep_view().drop_last() =~= td0);
                        lemma_emit_step_diag(
                            tdiags.deep_view(),
                            td0,
                            spec_emit_types(g, tail.skip(1), used0).1,
                        );
                    }
                } else {
                    let plan = gen_enum(schema, name, values);
                    let ghost tp0 = tplans.deep_view();
                    tplans.push(RsTypePlan::Enum(plan));
                    used.push(nm);
                    proof {
                        assert(used.deep_view() =~= used0.push(
                            spec_type_name(schema@, name@),
                        ));
                        assert(tplans.deep_view().drop_last() =~= tp0);
                        lemma_emit_step_plan(
                            tplans.deep_view(),
                            tp0,
                            spec_emit_types(g, tail.skip(1), used.deep_view()).0,
                        );
                    }
                }
            },
            PgType::Composite { schema, name, is_table, is_view, fields } => {
                let nm = gen_type_name(schema, name);
                if contains_string(&used, &nm) {
                    let ghost td0 = tdiags.deep_view();
                    tdiags.push(
                        Diag::NameCollision {
                            schema: schema.clone(),
                            name: name.clone(),
                            ident: nm,
                        },
                    );
                    proof {
                        assert(tdiags.deep_view().drop_last() =~= td0);
                        lemma_emit_step_diag(
                            tdiags.deep_view(),
                            td0,
                            spec_emit_types(g, tail.skip(1), used0).1,
                        );
                    }
                } else {
                    match gen_composite(&database.types, schema, name, *is_table, *is_view, fields) {
                        Result::Ok(plan) => {
                            let ghost tp0 = tplans.deep_view();
                            tplans.push(RsTypePlan::Struct(plan));
                            used.push(nm);
                            proof {
                                assert(used.deep_view() =~= used0.push(
                                    spec_type_name(schema@, name@),
                                ));
                                assert(tplans.deep_view().drop_last() =~= tp0);
                                lemma_emit_step_plan(
                                    tplans.deep_view(),
                                    tp0,
                                    spec_emit_types(g, tail.skip(1), used.deep_view()).0,
                                );
                            }
                        },
                        Result::Err(o) => {
                            let ghost td0 = tdiags.deep_view();
                            tdiags.push(
                                Diag::UnresolvedType {
                                    schema: schema.clone(),
                                    name: name.clone(),
                                    typ: o,
                                },
                            );
                            proof {
                                assert(tdiags.deep_view().drop_last() =~= td0);
                                lemma_emit_step_diag(
                                    tdiags.deep_view(),
                                    td0,
                                    spec_emit_types(g, tail.skip(1), used0).1,
                                );
                            }
                        },
                    }
                }
            },
            _ => {
                // base types, stubs and unknowns declare nothing
            },
        }
        i = i + 1;
    }
    proof {
        assert(edv.skip(tn as int) =~= Seq::<(Oid, PgTypeV)>::empty());
        assert(tplans.deep_view() + Seq::<RsTypePlanV>::empty() =~= tplans.deep_view());
        assert(tdiags.deep_view() + Seq::<DiagV>::empty() =~= tdiags.deep_view());
    }

    let mut fplans: Vec<RsFnPlan> = Vec::new();
    let mut fdiags: Vec<Diag> = Vec::new();
    let mut used_fns: Vec<String> = Vec::new();
    let fnn: usize = database.functions.len();
    let mut j: usize = 0;
    proof {
        assert(fdv.skip(0) =~= fdv);
        assert(used_fns.deep_view() =~= Seq::<Seq<char>>::empty());
    }
    while j < fnn
        invariant
            database.wf(),
            g == database.types.deep_view(),
            fdv == database.functions.deep_view(),
            fnn == fdv.len(),
            0 <= j <= fnn,
            spec_emit_fns(g, fdv, Seq::empty()).0 == fplans.deep_view() + spec_emit_fns(
                g,
                fdv.skip(j as int),
                used_fns.deep_view(),
            ).0,
            spec_emit_fns(g, fdv, Seq::empty()).1 == fdiags.deep_view() + spec_emit_fns(
                g,
                fdv.skip(j as int),
                used_fns.deep_view(),
            ).1,
        decreases fnn - j,
    {
        let ghost tail = fdv.skip(j as int);
        proof {
            assert(tail[0] == fdv[j as int]);
            assert(tail.skip(1) =~= fdv.skip(j as int + 1));
        }
        let entry = database.functions.entry_at(j);
        let func = &entry.1;
        let ghost used0 = used_fns.deep_view();
        let nm = gen_function_name(&func.schema, &func.name);
        if contains_string(&used_fns, &nm) {
            let ghost fd0 = fdiags.deep_view();
            fdiags.push(
                Diag::NameCollision {
                    schema: func.schema.clone(),
                    name: func.name.clone(),
                    ident: nm,
                },
            );
            proof {
                assert(fdiags.deep_view().drop_last() =~= fd0);
                lemma_emit_step_diag(
                    fdiags.deep_view(),
                    fd0,
                    spec_emit_fns(g, tail.skip(1), used0).1,
                );
            }
        } else {
            match gen_function(&database.types, func) {
                Result::Ok(plan) => {
                    let ghost fp0 = fplans.deep_view();
                    fplans.push(plan);
                    used_fns.push(nm);
                    proof {
                        assert(used_fns.deep_view() =~= used0.push(
                            spec_function_name(func.schema@, func.name@),
                        ));
                        assert(fplans.deep_view().drop_last() =~= fp0);
                        lemma_emit_step_fplan(
                            fplans.deep_view(),
                            fp0,
                            spec_emit_fns(g, tail.skip(1), used_fns.deep_view()).0,
                        );
                    }
                },
                Result::Err(d) => {
                    let ghost fd0 = fdiags.deep_view();
                    fdiags.push(d);
                    proof {
                        assert(fdiags.deep_view().drop_last() =~= fd0);
                        lemma_emit_step_diag(
                            fdiags.deep_view(),
                            fd0,
                            spec_emit_fns(g, tail.skip(1), used0).1,
                        );
                    }
                },
            }
        }
        j = j + 1;
    }
    proof {
        assert(fdv.skip(fnn as int) =~= Seq::<(Oid, PgFunctionV)>::empty());
        assert(fplans.deep_view() + Seq::<RsFnPlanV>::empty() =~= fplans.deep_view());
        assert(fdiags.deep_view() + Seq::<DiagV>::empty() =~= fdiags.deep_view());
    }

    let mut diags = tdiags;
    let ghost tdv = diags.deep_view();
    let ghost fddv = fdiags.deep_view();
    let mut fdiags_mut = fdiags;
    diags.append(&mut fdiags_mut);
    proof {
        assert(diags.deep_view() =~= tdv + fddv);
    }
    ModulePlan { types: tplans, fns: fplans, diags }
}

/// After one step that pushed a plan, the accumulated plans plus the
/// rest equal the accumulated plans before the step plus head and rest.
proof fn lemma_emit_step_plan(
    now: Seq<RsTypePlanV>,
    before: Seq<RsTypePlanV>,
    rest: Seq<RsTypePlanV>,
)
    requires
        now.len() == before.len() + 1,
        now.drop_last() == before,
    ensures
        before + (seq![now.last()] + rest) =~= now + rest,
{
    assert(before + (seq![now.last()] + rest) =~= (before.push(now.last())) + rest);
    assert(before.push(now.last()) =~= now);
}

proof fn lemma_emit_step_fplan(now: Seq<RsFnPlanV>, before: Seq<RsFnPlanV>, rest: Seq<RsFnPlanV>)
    requires
        now.len() == before.len() + 1,
        now.drop_last() == before,
    ensures
        before + (seq![now.last()] + rest) =~= now + rest,
{
    assert(before + (seq![now.last()] + rest) =~= (before.push(now.last())) + rest);
    assert(before.push(now.last()) =~= now);
}

proof fn lemma_emit_step_diag(now: Seq<DiagV>, before: Seq<DiagV>, rest: Seq<DiagV>)
    requires
        now.len() == before.len() + 1,
        now.drop_last() == before,
    ensures
        before + (seq![now.last()] + rest) =~= now + rest,
{
    assert(before + (seq![now.last()] + rest) =~= (before.push(now.last())) + rest);
    assert(before.push(now.last()) =~= now);
}

/// Stage two's driver: the module plan, rendered into one `codegen`
/// scope, beside the diagnostics of every omitted entity. The returned
/// scope's contents are the rendering of this catalog's module plan,
/// item for item, in order: every emitted declaration, then one
/// connection-scoped impl holding every emitted binding.
pub fn run(database: &PgDatabase) -> (r: (codegen::Scope, Vec<Diag>))
    requires
        database.wf(),
    ensures
        crate::render::scope_model(r.0).items == crate::render::spec_rendered_items(
            spec_emit_types(
                database.types.deep_view(),
                database.types.deep_view(),
                Seq::empty(),
            ).0,
            spec_emit_fns(
                database.types.deep_view(),
                database.functions.deep_view(),
                Seq::empty(),
            ).0,
        ),
        crate::render::scope_model(r.0).imports == crate::render::spec_rendered_imports(),
        r.1.deep_view() == spec_emit_types(
            database.types.deep_view(),
            database.types.deep_view(),
            Seq::empty(),
        ).1 + spec_emit_fns(
            database.types.deep_view(),
            database.functions.deep_view(),
            Seq::empty(),
        ).1,
{
    let plan = emit_module(database);
    let scope = crate::render::render_module(&plan);
    (scope, plan.diags)
}

} // verus!
