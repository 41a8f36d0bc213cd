//! Rendering: turn a verified module plan into `codegen` declarations.
//!
//! Every call into `codegen` goes through a trusted wrapper. The
//! wrappers' contracts speak of content models — named abstractions of
//! what each `codegen` builder has recorded so far — and each clause
//! states exactly the vector push or field set that `codegen`'s source
//! performs. On top of them, `render_module` proves that the returned
//! scope's contents are the plan's declarations, item for item, in
//! order, followed by one connection-scoped impl holding the plan's
//! bindings.
use vstd::prelude::*;
use vstd::string::StringExecFns;

use crate::stage2::ModulePlan;
use crate::stage2::RsEnumPlan;
use crate::stage2::RsEnumPlanV;
use crate::stage2::RsFieldPlanV;
use crate::stage2::RsFnPlan;
use crate::stage2::RsFnPlanV;
use crate::stage2::RsStructPlan;
use crate::stage2::RsStructPlanV;
use crate::stage2::RsTypePlan;
use crate::stage2::RsTypePlanV;
use crate::stage2::RsVariantV;

verus! {

#[verifier::external_type_specification]
#[verifier::external_body]
pub struct ExScope(codegen::Scope);

#[verifier::external_type_specification]
#[verifier::external_body]
pub struct ExEnum(codegen::Enum);

#[verifier::external_type_specification]
#[verifier::external_body]
pub struct ExVariant(codegen::Variant);

#[verifier::external_type_specification]
#[verifier::external_body]
pub struct ExStruct(codegen::Struct);

#[verifier::external_type_specification]
#[verifier::external_body]
pub struct ExField(codegen::Field);

#[verifier::external_type_specification]
#[verifier::external_body]
pub struct ExImpl(codegen::Impl);

#[verifier::external_type_specification]
#[verifier::external_body]
pub struct ExFunction(codegen::Function);

// ---------------------------------------------------------------------------
// Content models: what each builder holds. One name per declared type;
// every wrapper's clause states, over these names, the push or set its
// `codegen` call performs.
// ---------------------------------------------------------------------------

pub ghost struct VariantModel {
    pub name: Seq<char>,
    pub annotations: Seq<Seq<char>>,
}

pub ghost struct EnumModel {
    pub name: Seq<char>,
    pub vis: Option<Seq<char>>,
    pub derives: Seq<Seq<char>>,
    pub variants: Seq<VariantModel>,
}

pub ghost struct FieldModel {
    pub name: Seq<char>,
    pub ty: Seq<char>,
    pub annotations: Seq<Seq<char>>,
}

pub ghost struct StructModel {
    pub name: Seq<char>,
    pub vis: Option<Seq<char>>,
    pub derives: Seq<Seq<char>>,
    pub attrs: Seq<Seq<char>>,
    /// Whether the struct holds tuple fields; pushing a named field
    /// onto such a struct is the one call below that could panic, so
    /// its wrapper requires this to be false.
    pub tuple_fields: bool,
    pub fields: Seq<FieldModel>,
}

pub ghost struct FnModel {
    pub name: Seq<char>,
    pub vis: Option<Seq<char>>,
    pub self_arg: Option<Seq<char>>,
    pub args: Seq<(Seq<char>, Seq<char>)>,
    pub ret: Option<Seq<char>>,
    pub lines: Seq<Seq<char>>,
}

pub ghost struct ImplModel {
    pub target: Seq<char>,
    pub fns: Seq<FnModel>,
}

pub ghost enum ScopeItemModel {
    Enum(EnumModel),
    Struct(StructModel),
    Impl(ImplModel),
    Raw(Seq<char>),
}

pub ghost struct ScopeModel {
    pub imports: Set<(Seq<char>, Seq<char>)>,
    pub items: Seq<ScopeItemModel>,
}

/// The contents a `codegen::Scope` has recorded: its import pairs and
/// its items in push order.
pub uninterp spec fn scope_model(s: codegen::Scope) -> ScopeModel;

/// The contents a `codegen::Enum` has recorded.
pub uninterp spec fn enum_model(e: codegen::Enum) -> EnumModel;

/// The contents a `codegen::Variant` has recorded.
pub uninterp spec fn variant_model(v: codegen::Variant) -> VariantModel;

/// The contents a `codegen::Struct` has recorded.
pub uninterp spec fn struct_model(s: codegen::Struct) -> StructModel;

/// The contents a `codegen::Field` has recorded.
pub uninterp spec fn field_model(f: codegen::Field) -> FieldModel;

/// The contents a `codegen::Impl` has recorded.
pub uninterp spec fn impl_model(i: codegen::Impl) -> ImplModel;

/// The contents a `codegen::Function` has recorded.
pub uninterp spec fn fn_model(f: codegen::Function) -> FnModel;

// ---------------------------------------------------------------------------
// Trusted wrappers, one `codegen` call each
// ---------------------------------------------------------------------------

/// Relies on `codegen::Scope::new`: an empty scope, no imports, no
/// items.
#[verifier::external_body]
fn scope_new() -> (r: codegen::Scope)
    ensures
        scope_model(r) == (ScopeModel {
            imports: Set::empty(),
            items: Seq::empty(),
        }),
{
    codegen::Scope::new()
}

/// Relies on `codegen::Scope::import`: records one import pair, keyed
/// by path and name (a repeated pair overwrites itself); items are
/// untouched. The call keeps only the part of the name before a
/// `::`, so the claim is stated for names holding no colon.
#[verifier::external_body]
fn scope_import(scope: &mut codegen::Scope, path: &str, ty: &str)
    requires
        forall|i: int| 0 <= i < ty@.len() ==> ty@[i] != ':',
    ensures
        scope_model(*final(scope)) == (ScopeModel {
            imports: scope_model(*old(scope)).imports.insert((path@, ty@)),
            items: scope_model(*old(scope)).items,
        }),
{
    scope.import(path, ty);
}

/// Relies on `codegen::Scope::push_enum`: appends one enum declaration
/// to the items.
#[verifier::external_body]
fn scope_push_enum(scope: &mut codegen::Scope, item: codegen::Enum)
    ensures
        scope_model(*final(scope)) == (ScopeModel {
            imports: scope_model(*old(scope)).imports,
            items: scope_model(*old(scope)).items.push(ScopeItemModel::Enum(enum_model(item))),
        }),
{
    scope.push_enum(item);
}

/// Relies on `codegen::Scope::push_struct`: appends one struct
/// declaration to the items.
#[verifier::external_body]
fn scope_push_struct(scope: &mut codegen::Scope, item: codegen::Struct)
    ensures
        scope_model(*final(scope)) == (ScopeModel {
            imports: scope_model(*old(scope)).imports,
            items: scope_model(*old(scope)).items.push(
                ScopeItemModel::Struct(struct_model(item)),
            ),
        }),
{
    scope.push_struct(item);
}

/// Relies on `codegen::Scope::push_impl`: appends one impl block to the
/// items.
#[verifier::external_body]
fn scope_push_impl(scope: &mut codegen::Scope, item: codegen::Impl)
    ensures
        scope_model(*final(scope)) == (ScopeModel {
            imports: scope_model(*old(scope)).imports,
            items: scope_model(*old(scope)).items.push(ScopeItemModel::Impl(impl_model(item))),
        }),
{
    scope.push_impl(item);
}

/// Relies on `codegen::Scope::raw`: appends one verbatim line to the
/// items, used for the attribute that precedes a declaration.
#[verifier::external_body]
fn scope_raw(scope: &mut codegen::Scope, val: &str)
    ensures
        scope_model(*final(scope)) == (ScopeModel {
            imports: scope_model(*old(scope)).imports,
            items: scope_model(*old(scope)).items.push(ScopeItemModel::Raw(val@)),
        }),
{
    scope.raw(val);
}

/// Relies on `codegen::Enum::new`: the named enum with no visibility,
/// derives or variants yet.
#[verifier::external_body]
fn enum_new(name: &str) -> (r: codegen::Enum)
    ensures
        enum_model(r) == (EnumModel {
            name: name@,
            vis: Option::None,
            derives: Seq::empty(),
            variants: Seq::empty(),
        }),
{
    codegen::Enum::new(name)
}

/// Relies on `codegen::Enum::vis`: sets the visibility.
#[verifier::external_body]
fn enum_vis(item: &mut codegen::Enum, vis: &str)
    ensures
        enum_model(*final(item)) == (EnumModel {
            name: enum_model(*old(item)).name,
            vis: Option::Some(vis@),
            derives: enum_model(*old(item)).derives,
            variants: enum_model(*old(item)).variants,
        }),
{
    item.vis(vis);
}

/// Relies on `codegen::Enum::derive`: appends one derive.
#[verifier::external_body]
fn enum_derive(item: &mut codegen::Enum, name: &str)
    ensures
        enum_model(*final(item)) == (EnumModel {
            name: enum_model(*old(item)).name,
            vis: enum_model(*old(item)).vis,
            derives: enum_model(*old(item)).derives.push(name@),
            variants: enum_model(*old(item)).variants,
        }),
{
    item.derive(name);
}

/// Relies on `codegen::Enum::push_variant`: appends one variant.
#[verifier::external_body]
fn enum_push_variant(item: &mut codegen::Enum, variant: codegen::Variant)
    ensures
        enum_model(*final(item)) == (EnumModel {
            name: enum_model(*old(item)).name,
            vis: enum_model(*old(item)).vis,
            derives: enum_model(*old(item)).derives,
            variants: enum_model(*old(item)).variants.push(variant_model(variant)),
        }),
{
    item.push_variant(variant);
}

/// Relies on `codegen::Variant::new`: the named variant with no
/// annotations yet.
#[verifier::external_body]
fn variant_new(name: &str) -> (r: codegen::Variant)
    ensures
        variant_model(r) == (VariantModel { name: name@, annotations: Seq::empty() }),
{
    codegen::Variant::new(name)
}

/// Relies on `codegen::Variant::annotation`: appends one annotation
/// line.
#[verifier::external_body]
fn variant_annotation(variant: &mut codegen::Variant, annotation: &str)
    ensures
        variant_model(*final(variant)) == (VariantModel {
            name: variant_model(*old(variant)).name,
            annotations: variant_model(*old(variant)).annotations.push(annotation@),
        }),
{
    variant.annotation(annotation);
}

/// Relies on `codegen::Struct::new`: the named struct with nothing set
/// yet; its fields start empty, not tuple-shaped.
#[verifier::external_body]
fn struct_new(name: &str) -> (r: codegen::Struct)
    ensures
        struct_model(r) == (StructModel {
            name: name@,
            vis: Option::None,
            derives: Seq::empty(),
            attrs: Seq::empty(),
            tuple_fields: false,
            fields: Seq::empty(),
        }),
{
    codegen::Struct::new(name)
}

/// Relies on `codegen::Struct::vis`: sets the visibility.
#[verifier::external_body]
fn struct_vis(item: &mut codegen::Struct, vis: &str)
    ensures
        struct_model(*final(item)) == (StructModel {
            name: struct_model(*old(item)).name,
            vis: Option::Some(vis@),
            derives: struct_model(*old(item)).derives,
            attrs: struct_model(*old(item)).attrs,
            tuple_fields: struct_model(*old(item)).tuple_fields,
            fields: struct_model(*old(item)).fields,
        }),
{
    item.vis(vis);
}

/// Relies on `codegen::Struct::derive`: appends one derive.
#[verifier::external_body]
fn struct_derive(item: &mut codegen::Struct, name: &str)
    ensures
        struct_model(*final(item)) == (StructModel {
            name: struct_model(*old(item)).name,
            vis: struct_model(*old(item)).vis,
            derives: struct_model(*old(item)).derives.push(name@),
            attrs: struct_model(*old(item)).attrs,
            tuple_fields: struct_model(*old(item)).tuple_fields,
            fields: struct_model(*old(item)).fields,
        }),
{
    item.derive(name);
}

/// Relies on `codegen::Struct::attr`: appends one attribute, written
/// without its surrounding brackets (they are added when rendered).
#[verifier::external_body]
fn struct_attr(item: &mut codegen::Struct, attr: &str)
    ensures
        struct_model(*final(item)) == (StructModel {
            name: struct_model(*old(item)).name,
            vis: struct_model(*old(item)).vis,
            derives: struct_model(*old(item)).derives,
            attrs: struct_model(*old(item)).attrs.push(attr@),
            tuple_fields: struct_model(*old(item)).tuple_fields,
            fields: struct_model(*old(item)).fields,
        }),
{
    item.attr(attr);
}

/// Relies on `codegen::Struct::push_field`: appends one named field.
/// The call panics on a struct already holding tuple fields, which no
/// wrapper here can create; the precondition records that.
#[verifier::external_body]
fn struct_push_field(item: &mut codegen::Struct, field: codegen::Field)
    requires
        !struct_model(*old(item)).tuple_fields,
    ensures
        struct_model(*final(item)) == (StructModel {
            name: struct_model(*old(item)).name,
            vis: struct_model(*old(item)).vis,
            derives: struct_model(*old(item)).derives,
            attrs: struct_model(*old(item)).attrs,
            tuple_fields: false,
            fields: struct_model(*old(item)).fields.push(field_model(field)),
        }),
{
    item.push_field(field);
}

/// Relies on `codegen::Field::new`: the named field of the given type,
/// with no annotations yet.
#[verifier::external_body]
fn field_new(name: &str, ty: &str) -> (r: codegen::Field)
    ensures
        field_model(r) == (FieldModel { name: name@, ty: ty@, annotations: Seq::empty() }),
{
    codegen::Field::new(name, ty)
}

/// Relies on `codegen::Field::annotation`: appends one annotation line.
#[verifier::external_body]
fn field_annotation(field: &mut codegen::Field, annotation: &str)
    ensures
        field_model(*final(field)) == (FieldModel {
            name: field_model(*old(field)).name,
            ty: field_model(*old(field)).ty,
            annotations: field_model(*old(field)).annotations.push(annotation@),
        }),
{
    field.annotation(annotation);
}

/// Relies on `codegen::Impl::new`: an impl block for the named target,
/// holding no functions yet.
#[verifier::external_body]
fn impl_new(target: &str) -> (r: codegen::Impl)
    ensures
        impl_model(r) == (ImplModel { target: target@, fns: Seq::empty() }),
{
    codegen::Impl::new(target)
}

/// Relies on `codegen::Impl::push_fn`: appends one function.
#[verifier::external_body]
fn impl_push_fn(item: &mut codegen::Impl, function: codegen::Function)
    ensures
        impl_model(*final(item)) == (ImplModel {
            target: impl_model(*old(item)).target,
            fns: impl_model(*old(item)).fns.push(fn_model(function)),
        }),
{
    item.push_fn(function);
}

/// Relies on `codegen::Function::new`: the named function with nothing
/// set yet and an empty body.
#[verifier::external_body]
fn function_new(name: &str) -> (r: codegen::Function)
    ensures
        fn_model(r) == (FnModel {
            name: name@,
            vis: Option::None,
            self_arg: Option::None,
            args: Seq::empty(),
            ret: Option::None,
            lines: Seq::empty(),
        }),
{
    codegen::Function::new(name)
}

/// Relies on `codegen::Function::vis`: sets the visibility.
#[verifier::external_body]
fn function_vis(function: &mut codegen::Function, vis: &str)
    ensures
        fn_model(*final(function)) == (FnModel {
            name: fn_model(*old(function)).name,
            vis: Option::Some(vis@),
            self_arg: fn_model(*old(function)).self_arg,
            args: fn_model(*old(function)).args,
            ret: fn_model(*old(function)).ret,
            lines: fn_model(*old(function)).lines,
        }),
{
    function.vis(vis);
}

/// Relies on `codegen::Function::arg_ref_self`: takes the receiver by
/// shared reference.
#[verifier::external_body]
fn function_arg_ref_self(function: &mut codegen::Function)
    ensures
        fn_model(*final(function)) == (FnModel {
            name: fn_model(*old(function)).name,
            vis: fn_model(*old(function)).vis,
            self_arg: Option::Some("&self"@),
            args: fn_model(*old(function)).args,
            ret: fn_model(*old(function)).ret,
            lines: fn_model(*old(function)).lines,
        }),
{
    function.arg_ref_self();
}

/// Relies on `codegen::Function::arg`: appends one argument.
#[verifier::external_body]
fn function_arg(function: &mut codegen::Function, name: &str, ty: &str)
    ensures
        fn_model(*final(function)) == (FnModel {
            name: fn_model(*old(function)).name,
            vis: fn_model(*old(function)).vis,
            self_arg: fn_model(*old(function)).self_arg,
            args: fn_model(*old(function)).args.push((name@, ty@)),
            ret: fn_model(*old(function)).ret,
            lines: fn_model(*old(function)).lines,
        }),
{
    function.arg(name, ty);
}

/// Relies on `codegen::Function::ret`: sets the return type.
#[verifier::external_body]
fn function_ret(function: &mut codegen::Function, ty: &str)
    ensures
        fn_model(*final(function)) == (FnModel {
            name: fn_model(*old(function)).name,
            vis: fn_model(*old(function)).vis,
            self_arg: fn_model(*old(function)).self_arg,
            args: fn_model(*old(function)).args,
            ret: Option::Some(ty@),
            lines: fn_model(*old(function)).lines,
        }),
{
    function.ret(ty);
}

/// Relies on `codegen::Function::line`: appends one body line.
#[verifier::external_body]
fn function_line(function: &mut codegen::Function, line: &str)
    ensures
        fn_model(*final(function)) == (FnModel {
            name: fn_model(*old(function)).name,
            vis: fn_model(*old(function)).vis,
            self_arg: fn_model(*old(function)).self_arg,
            args: fn_model(*old(function)).args,
            ret: fn_model(*old(function)).ret,
            lines: fn_model(*old(function)).lines.push(line@),
        }),
{
    function.line(line);
}

// ---------------------------------------------------------------------------
// What rendering a plan must produce, stated over the models
// ---------------------------------------------------------------------------

/// The attribute that keeps a database-facing call on the literal
/// catalog spelling.
pub open spec fn spec_postgres_attr(name: Seq<char>) -> Seq<char> {
    "#[postgres(name = \""@ + name + "\")]"@
}

/// The same attribute without its brackets, as struct attributes are
/// recorded.
pub open spec fn spec_postgres_inner(name: Seq<char>) -> Seq<char> {
    "postgres(name = \""@ + name + "\")"@
}

/// The attribute content that binds a row-backed record to its table
/// or view.
pub open spec fn spec_pg_mapper_inner(name: Seq<char>) -> Seq<char> {
    "pg_mapper(table = \""@ + name + "\")"@
}

/// The mapping annotation a variant carries when normalization altered
/// its text.
pub open spec fn spec_variant_annotations(v: RsVariantV) -> Seq<Seq<char>> {
    match v.pg_name {
        Option::Some(pg) => seq![spec_postgres_attr(pg)],
        Option::None => Seq::empty(),
    }
}

/// The derives every generated enum carries.
pub open spec fn spec_enum_derives() -> Seq<Seq<char>> {
    seq![
        "Debug"@,
        "Copy"@,
        "Clone"@,
        "PartialEq"@,
        "Eq"@,
        "PartialOrd"@,
        "Ord"@,
        "Serialize"@,
        "Deserialize"@,
        "ToSql"@,
        "FromSql"@,
        "FromFormValue"@,
        "Enum"@,
    ]
}

/// The rendered declaration of one enum plan.
pub open spec fn spec_rendered_enum(p: RsEnumPlanV) -> EnumModel {
    EnumModel {
        name: p.name,
        vis: Option::Some("pub"@),
        derives: spec_enum_derives(),
        variants: Seq::new(
            p.variants.len(),
            |i: int|
                VariantModel {
                    name: p.variants[i].tag,
                    annotations: spec_variant_annotations(p.variants[i]),
                },
        ),
    }
}

/// The derives a generated record carries: its row binding, then its
/// capability flags, computed once by the resolver.
pub open spec fn spec_struct_derives(p: RsStructPlanV) -> Seq<Seq<char>> {
    (seq!["Debug"@, "Clone"@] + (if p.row_backed {
        seq!["PostgresMapper"@]
    } else {
        seq!["ToSql"@, "FromSql"@]
    })) + (if p.copyable {
        seq!["Copy"@]
    } else {
        Seq::empty()
    }) + (if p.serializable {
        seq!["Serialize"@, "Deserialize"@]
    } else {
        Seq::empty()
    })
}

/// The mapping annotation a field carries when normalization altered
/// its catalog spelling.
pub open spec fn spec_field_annotations(f: RsFieldPlanV) -> Seq<Seq<char>> {
    match f.pg_name {
        Option::Some(pg) => seq![spec_postgres_attr(pg)],
        Option::None => Seq::empty(),
    }
}

/// The rendered declaration of one record plan.
pub open spec fn spec_rendered_struct(p: RsStructPlanV) -> StructModel {
    StructModel {
        name: p.name,
        vis: Option::Some("pub"@),
        derives: spec_struct_derives(p),
        attrs: seq![
            if p.row_backed {
                spec_pg_mapper_inner(p.pg_name)
            } else {
                spec_postgres_inner(p.pg_name)
            },
        ],
        tuple_fields: false,
        fields: Seq::new(
            p.fields.len(),
            |i: int|
                FieldModel {
                    name: "pub "@ + p.fields[i].name,
                    ty: p.fields[i].ty,
                    annotations: spec_field_annotations(p.fields[i]),
                },
        ),
    }
}

/// The rendered binding of one signature plan.
pub open spec fn spec_rendered_fn(p: RsFnPlanV) -> FnModel {
    FnModel {
        name: p.name,
        vis: Option::Some("pub"@),
        self_arg: Option::Some("&self"@),
        args: Seq::new(p.args.len(), |i: int| (p.args[i].name, p.args[i].ty)),
        ret: Option::Some(p.ret),
        lines: p.lines,
    }
}

/// The scope items that one type plan contributes: an enum is preceded
/// by its original-name attribute line; a record carries its attribute
/// itself.
pub open spec fn spec_rendered_type_items(types: Seq<RsTypePlanV>) -> Seq<ScopeItemModel>
    decreases types.len(),
{
    if types.len() == 0 {
        Seq::empty()
    } else {
        (match types[0] {
            RsTypePlanV::Enum(e) => seq![
                ScopeItemModel::Raw(spec_postgres_attr(e.pg_name)),
                ScopeItemModel::Enum(spec_rendered_enum(e)),
            ],
            RsTypePlanV::Struct(s) => seq![ScopeItemModel::Struct(spec_rendered_struct(s))],
        }) + spec_rendered_type_items(types.skip(1))
    }
}

/// The whole rendered module: every type declaration in plan order,
/// then one connection-scoped impl holding every binding in plan order.
pub open spec fn spec_rendered_items(
    types: Seq<RsTypePlanV>,
    fns: Seq<RsFnPlanV>,
) -> Seq<ScopeItemModel> {
    spec_rendered_type_items(types) + seq![
        ScopeItemModel::Impl(
            ImplModel {
                target: "PgConnection"@,
                fns: Seq::new(fns.len(), |i: int| spec_rendered_fn(fns[i])),
            },
        ),
    ]
}

/// The three imports the generated module carries.
pub open spec fn spec_rendered_imports() -> Set<(Seq<char>, Seq<char>)> {
    Set::empty().insert(("enum_map"@, "*"@)).insert(
        ("super"@, "{PgConnection, PgResult}"@),
    ).insert(("postgres_mapper"@, "FromPostgresRow"@))
}

// ---------------------------------------------------------------------------
// The renderer
// ---------------------------------------------------------------------------

fn postgres_name_attr(name: &String) -> (r: String)
    ensures
        r@ == spec_postgres_attr(name@),
{
    let mut s = String::from_str("#[postgres(name = \"");
    s.append(name.as_str());
    s.append("\")]");
    s
}

fn postgres_name_inner(name: &String) -> (r: String)
    ensures
        r@ == spec_postgres_inner(name@),
{
    let mut s = String::from_str("postgres(name = \"");
    s.append(name.as_str());
    s.append("\")");
    s
}

fn pg_mapper_inner(name: &String) -> (r: String)
    ensures
        r@ == spec_pg_mapper_inner(name@),
{
    let mut s = String::from_str("pg_mapper(table = \"");
    s.append(name.as_str());
    s.append("\")");
    s
}

/// One enum declaration, from its plan.
fn render_enum(plan: &RsEnumPlan) -> (r: codegen::Enum)
    ensures
        enum_model(r) == spec_rendered_enum(plan.deep_view()),
{
    let ghost pv = plan.deep_view();
    let mut item = enum_new(plan.name.as_str());
    enum_vis(&mut item, "pub");
    enum_derive(&mut item, "Debug");
    enum_derive(&mut item, "Copy");
    enum_derive(&mut item, "Clone");
    enum_derive(&mut item, "PartialEq");
    enum_derive(&mut item, "Eq");
    enum_derive(&mut item, "PartialOrd");
    enum_derive(&mut item, "Ord");
    enum_derive(&mut item, "Serialize");
    enum_derive(&mut item, "Deserialize");
    enum_derive(&mut item, "ToSql");
    enum_derive(&mut item, "FromSql");
    enum_derive(&mut item, "FromFormValue");
    enum_derive(&mut item, "Enum");
    proof {
        assert(enum_model(item).derives =~= spec_enum_derives());
    }
    let n: usize = plan.variants.len();
    let mut i: usize = 0;
    while i < n
        invariant
            pv == plan.deep_view(),
            n == plan.variants@.len(),
            0 <= i <= n,
            enum_model(item).name == pv.name,
            enum_model(item).vis == Option::Some("pub"@),
            enum_model(item).derives == spec_enum_derives(),
            enum_model(item).variants =~= spec_rendered_enum(pv).variants.take(i as int),
        decreases n - i,
    {
        let v = &plan.variants[i];
        proof {
            assert(v.deep_view() == pv.variants[i as int]);
        }
        let mut variant = variant_new(v.tag.as_str());
        match &v.pg_name {
            Option::Some(pg) => {
                let a = postgres_name_attr(pg);
                variant_annotation(&mut variant, a.as_str());
                proof {
                    assert(variant_model(variant).annotations =~= spec_variant_annotations(
                        pv.variants[i as int],
                    ));
                }
            },
            Option::None => {},
        }
        enum_push_variant(&mut item, variant);
        proof {
            assert(enum_model(item).variants =~= spec_rendered_enum(pv).variants.take(
                i as int + 1,
            ));
        }
        i = i + 1;
    }
    proof {
        assert(spec_rendered_enum(pv).variants.take(n as int) =~= spec_rendered_enum(
            pv,
        ).variants);
        assert(enum_model(item) == spec_rendered_enum(pv));
    }
    item
}

/// One record declaration, from its plan. The capability flags decide
/// the derives; the emitter computed them once and this function never
/// re-derives them.
fn render_struct(plan: &RsStructPlan) -> (r: codegen::Struct)
    ensures
        struct_model(r) == spec_rendered_struct(plan.deep_view()),
{
    let ghost pv = plan.deep_view();
    let mut item = struct_new(plan.name.as_str());
    struct_vis(&mut item, "pub");
    struct_derive(&mut item, "Debug");
    struct_derive(&mut item, "Clone");
    if plan.row_backed {
        struct_derive(&mut item, "PostgresMapper");
        let attr = pg_mapper_inner(&plan.pg_name);
        struct_attr(&mut item, attr.as_str());
    } else {
        struct_derive(&mut item, "ToSql");
        struct_derive(&mut item, "FromSql");
        let attr = postgres_name_inner(&plan.pg_name);
        struct_attr(&mut item, attr.as_str());
    }
    if plan.copyable {
        struct_derive(&mut item, "Copy");
    }
    if plan.serializable {
        struct_derive(&mut item, "Serialize");
        struct_derive(&mut item, "Deserialize");
    }
    proof {
        assert(struct_model(item).derives =~= spec_struct_derives(pv));
        assert(struct_model(item).attrs =~= spec_rendered_struct(pv).attrs);
    }
    let n: usize = plan.fields.len();
    let mut i: usize = 0;
    while i < n
        invariant
            pv == plan.deep_view(),
            n == plan.fields@.len(),
            0 <= i <= n,
            struct_model(item).name == pv.name,
            struct_model(item).vis == Option::Some("pub"@),
            struct_model(item).derives == spec_struct_derives(pv),
            struct_model(item).attrs == spec_rendered_struct(pv).attrs,
            !struct_model(item).tuple_fields,
            struct_model(item).fields =~= spec_rendered_struct(pv).fields.take(i as int),
        decreases n - i,
    {
        let f = &plan.fields[i];
        proof {
            assert(f.deep_view() == pv.fields[i as int]);
        }
        let mut named = String::from_str("pub ");
        named.append(f.name.as_str());
        let mut field = field_new(named.as_str(), f.ty.as_str());
        match &f.pg_name {
            Option::Some(pg) => {
                let a = postgres_name_attr(pg);
                field_annotation(&mut field, a.as_str());
                proof {
                    assert(field_model(field).annotations =~= spec_field_annotations(
                        pv.fields[i as int],
                    ));
                }
            },
            Option::None => {},
        }
        struct_push_field(&mut item, field);
        proof {
            assert(struct_model(item).fields =~= spec_rendered_struct(pv).fields.take(
                i as int + 1,
            ));
        }
        i = i + 1;
    }
    proof {
        assert(spec_rendered_struct(pv).fields.take(n as int) =~= spec_rendered_struct(
            pv,
        ).fields);
        assert(struct_model(item) == spec_rendered_struct(pv));
    }
    item
}

/// One callable binding, from its plan.
fn render_fn(plan: &RsFnPlan) -> (r: codegen::Function)
    ensures
        fn_model(r) == spec_rendered_fn(plan.deep_view()),
{
    let ghost pv = plan.deep_view();
    let mut item = function_new(plan.name.as_str());
    function_vis(&mut item, "pub");
    function_arg_ref_self(&mut item);
    let n: usize = plan.args.len();
    let mut i: usize = 0;
    while i < n
        invariant
            pv == plan.deep_view(),
            n == plan.args@.len(),
            0 <= i <= n,
            fn_model(item).name == pv.name,
            fn_model(item).vis == Option::Some("pub"@),
            fn_model(item).self_arg == Option::Some("&self"@),
            fn_model(item).ret is None,
            fn_model(item).lines == Seq::<Seq<char>>::empty(),
            fn_model(item).args =~= spec_rendered_fn(pv).args.take(i as int),
        decreases n - i,
    {
        let a = &plan.args[i];
        proof {
            assert(a.deep_view() == pv.args[i as int]);
        }
        function_arg(&mut item, a.name.as_str(), a.ty.as_str());
        proof {
            assert(fn_model(item).args =~= spec_rendered_fn(pv).args.take(i as int + 1));
        }
        i = i + 1;
    }
    function_ret(&mut item, plan.ret.as_str());
    let ln: usize = plan.lines.len();
    let mut j: usize = 0;
    while j < ln
        invariant
            pv == plan.deep_view(),
            ln == plan.lines@.len(),
            0 <= j <= ln,
            fn_model(item).name == pv.name,
            fn_model(item).vis == Option::Some("pub"@),
            fn_model(item).self_arg == Option::Some("&self"@),
            fn_model(item).ret == Option::Some(pv.ret),
            fn_model(item).args == spec_rendered_fn(pv).args,
            fn_model(item).lines =~= pv.lines.take(j as int),
        decreases ln - j,
    {
        proof {
            assert(plan.lines@[j as int]@ == pv.lines[j as int]);
        }
        function_line(&mut item, plan.lines[j].as_str());
        proof {
            assert(fn_model(item).lines =~= pv.lines.take(j as int + 1));
        }
        j = j + 1;
    }
    proof {
        assert(fn_model(item).args =~= spec_rendered_fn(pv).args.take(n as int));
        assert(spec_rendered_fn(pv).args.take(n as int) =~= spec_rendered_fn(pv).args);
        assert(pv.lines.take(ln as int) =~= pv.lines);
        assert(fn_model(item) == spec_rendered_fn(pv));
    }
    item
}

/// The whole generated module: the imports, every type declaration in
/// plan order, and one connection-scoped impl holding every binding in
/// plan order.
pub fn render_module(plan: &ModulePlan) -> (r: codegen::Scope)
    ensures
        scope_model(r).items == spec_rendered_items(
            plan.types.deep_view(),
            plan.fns.deep_view(),
        ),
        scope_model(r).imports == spec_rendered_imports(),
{
    let ghost tdv = plan.types.deep_view();
    let ghost fdv = plan.fns.deep_view();
    let mut scope = scope_new();
    proof {
        reveal_strlit("*");
        reveal_strlit("{PgConnection, PgResult}");
        reveal_strlit("FromPostgresRow");
    }
    scope_import(&mut scope, "enum_map", "*");
    scope_import(&mut scope, "super", "{PgConnection, PgResult}");
    scope_import(&mut scope, "postgres_mapper", "FromPostgresRow");
    proof {
        assert(scope_model(scope).imports == spec_rendered_imports());
        assert(scope_model(scope).items =~= Seq::<ScopeItemModel>::empty());
    }
    let n: usize = plan.types.len();
    let mut i: usize = 0;
    proof {
        assert(tdv.skip(0) =~= tdv);
    }
    while i < n
        invariant
            tdv == plan.types.deep_view(),
            n == plan.types@.len(),
            0 <= i <= n,
            scope_model(scope).imports == spec_rendered_imports(),
            spec_rendered_type_items(tdv) =~= scope_model(scope).items
                + spec_rendered_type_items(tdv.skip(i as int)),
        decreases n - i,
    {
        let ghost tail = tdv.skip(i as int);
        proof {
            assert(tail[0] == tdv[i as int]);
            assert(tdv[i as int] == plan.types@[i as int].deep_view());
            assert(tail.skip(1) =~= tdv.skip(i as int + 1));
        }
        let ghost before = scope_model(scope).items;
        match &plan.types[i] {
            RsTypePlan::Enum(e) => {
                let attr = postgres_name_attr(&e.pg_name);
                scope_raw(&mut scope, attr.as_str());
                let item = render_enum(e);
                scope_push_enum(&mut scope, item);
                proof {
                    assert(scope_model(scope).items =~= before + seq![
                        ScopeItemModel::Raw(spec_postgres_attr(e.deep_view().pg_name)),
                        ScopeItemModel::Enum(spec_rendered_enum(e.deep_view())),
                    ]);
                    assert(spec_rendered_type_items(tdv) =~= scope_model(scope).items
                        + spec_rendered_type_items(tdv.skip(i as int + 1)));
                }
            },
            RsTypePlan::Struct(s) => {
                let item = render_struct(s);
                scope_push_struct(&mut scope, item);
                proof {
                    assert(scope_model(scope).items =~= before + seq![
                        ScopeItemModel::Struct(spec_rendered_struct(s.deep_view())),
                    ]);
                    assert(spec_rendered_type_items(tdv) =~= scope_model(scope).items
                        + spec_rendered_type_items(tdv.skip(i as int + 1)));
                }
            },
        }
        i = i + 1;
    }
    proof {
        assert(spec_rendered_type_items(tdv.skip(n as int)) =~= Seq::<ScopeItemModel>::empty());
        assert(scope_model(scope).items =~= spec_rendered_type_items(tdv));
    }

    let mut conn = impl_new("PgConnection");
    let fn_count: usize = plan.fns.len();
    let mut j: usize = 0;
    while j < fn_count
        invariant
            fdv == plan.fns.deep_view(),
            fn_count == plan.fns@.len(),
            0 <= j <= fn_count,
            impl_model(conn).target == "PgConnection"@,
            impl_model(conn).fns =~= Seq::new(fdv.len(), |k: int| spec_rendered_fn(fdv[k])).take(
                j as int,
            ),
        decreases fn_count - j,
    {
        proof {
            assert(plan.fns@[j as int].deep_view() == fdv[j as int]);
        }
        let item = render_fn(&plan.fns[j]);
        impl_push_fn(&mut conn, item);
        proof {
            assert(impl_model(conn).fns =~= Seq::new(
                fdv.len(),
                |k: int| spec_rendered_fn(fdv[k]),
            ).take(j as int + 1));
        }
        j = j + 1;
    }
    proof {
        assert(impl_model(conn).fns =~= Seq::new(fdv.len(), |k: int| spec_rendered_fn(fdv[k])));
    }
    scope_push_impl(&mut scope, conn);
    proof {
        assert(scope_model(scope).items =~= spec_rendered_items(tdv, fdv));
    }
    scope
}

} // verus!
