use postgres_bindgen::diag::Diag;
use postgres_bindgen::oidmap::OidMap;
use postgres_bindgen::stage1;
use postgres_bindgen::stage1::FunctionRow;
use postgres_bindgen::stage1::SeedTypeRow;
use postgres_bindgen::stage1::TypeRow;
use postgres_bindgen::stage2;
use postgres_bindgen::types::PgArgument;
use postgres_bindgen::types::PgArgumentMode;
use postgres_bindgen::types::PgDatabase;
use postgres_bindgen::types::PgField;
use postgres_bindgen::types::PgFunction;
use postgres_bindgen::types::PgProcedureKind;
use postgres_bindgen::types::PgReturn;
use postgres_bindgen::types::PgType;
use postgres_bindgen::types::PgTypeKind;
use postgres_bindgen::types::TypeCorrespondence;
use postgres_bindgen::names;
use postgres_bindgen::resolve;

fn tc(rs: &str, copyable: bool, serializable: bool) -> TypeCorrespondence {
    TypeCorrespondence {
        rs_type: rs.to_string(),
        copyable,
        serializable,
    }
}

fn field(name: &str, typ: u32, nullable: bool) -> PgField {
    PgField {
        name: name.to_string(),
        typ,
        is_nullable: nullable,
        description: None,
    }
}

/// A small graph: int4 (23), text (25), an enum (100), a table-backed
/// composite (200), a free composite (201), a domain over int4 (300),
/// an array of text (301), a range of int4 (302).
fn sample_types() -> OidMap<PgType> {
    let mut m: OidMap<PgType> = OidMap::new();
    m.insert(23, PgType::Base(tc("i32", true, true)));
    m.insert(25, PgType::Base(tc("String", false, true)));
    m.insert(
        100,
        PgType::Enum {
            schema: "public".to_string(),
            name: "status".to_string(),
            values: vec!["a".to_string(), "b".to_string(), "B".to_string()],
        },
    );
    m.insert(
        200,
        PgType::Composite {
            schema: "public".to_string(),
            name: "users".to_string(),
            is_table: true,
            is_view: false,
            fields: vec![field("id", 23, false), field("FullName", 25, true)],
        },
    );
    m.insert(
        201,
        PgType::Composite {
            schema: "public".to_string(),
            name: "point_pair".to_string(),
            is_table: false,
            is_view: false,
            fields: vec![field("x", 23, false), field("y", 23, false)],
        },
    );
    m.insert(
        300,
        PgType::Domain {
            schema: "public".to_string(),
            name: "age".to_string(),
            base_type: 23,
        },
    );
    m.insert(
        301,
        PgType::Array {
            schema: "pg_catalog".to_string(),
            name: "_text".to_string(),
            base_type: 25,
        },
    );
    m.insert(
        302,
        PgType::Range {
            schema: "public".to_string(),
            name: "int_range".to_string(),
            base_type: 23,
        },
    );
    m
}

#[test]
fn tag_decoders() {
    assert_eq!(PgTypeKind::from_sql(b"b"), Some(PgTypeKind::Base));
    assert_eq!(PgTypeKind::from_sql(b"p"), Some(PgTypeKind::Pseudo));
    assert_eq!(PgTypeKind::from_sql(b"e"), Some(PgTypeKind::Enum));
    assert_eq!(PgTypeKind::from_sql(b"c"), Some(PgTypeKind::Composite));
    assert_eq!(PgTypeKind::from_sql(b"d"), Some(PgTypeKind::Domain));
    assert_eq!(PgTypeKind::from_sql(b"r"), Some(PgTypeKind::Range));
    assert_eq!(PgTypeKind::from_sql(b"a"), Some(PgTypeKind::Array));
    assert_eq!(PgTypeKind::from_sql(b"x"), None);
    assert_eq!(PgTypeKind::from_sql(b"bb"), None);
    assert_eq!(PgProcedureKind::from_sql(b"f"), Some(PgProcedureKind::Function));
    assert_eq!(PgProcedureKind::from_sql(b"p"), Some(PgProcedureKind::Proc));
    assert_eq!(PgProcedureKind::from_sql(b"a"), Some(PgProcedureKind::Aggregate));
    assert_eq!(PgProcedureKind::from_sql(b"w"), Some(PgProcedureKind::Window));
    assert_eq!(PgProcedureKind::from_sql(b""), None);
    assert_eq!(PgArgumentMode::from_sql(b"i"), Some(PgArgumentMode::In));
    assert_eq!(PgArgumentMode::from_sql(b"o"), Some(PgArgumentMode::Out));
    assert_eq!(PgArgumentMode::from_sql(b"b"), Some(PgArgumentMode::InOut));
    assert_eq!(PgArgumentMode::from_sql(b"v"), Some(PgArgumentMode::Variadic));
    assert_eq!(PgArgumentMode::from_sql(b"t"), Some(PgArgumentMode::Table));
    assert_eq!(PgArgumentMode::from_sql(b"z"), None);
}

#[test]
fn generated_names() {
    // normalization alters these names, so the conversions are visible
    assert_eq!(
        names::gen_type_name(&"public".to_string(), &"status_type".to_string()),
        "StatusType"
    );
    assert_eq!(
        names::gen_type_name(&"audit".to_string(), &"log_entry".to_string()),
        "Audit_LogEntry"
    );
    assert_eq!(
        names::gen_function_name(&"public".to_string(), &"AddUser".to_string()),
        "add_user"
    );
    assert_eq!(
        names::gen_function_name(&"audit".to_string(), &"Append".to_string()),
        "audit_append"
    );
    assert_eq!(names::gen_fld_name(&"FullName".to_string()), "full_name");
    assert_eq!(names::gen_arg_name(&"userId".to_string()), "user_id");
    // already in target casing: kept exactly
    assert_eq!(
        names::gen_type_name(&"public".to_string(), &"Users".to_string()),
        "Users"
    );
    assert_eq!(names::gen_arg_name(&"user_id".to_string()), "user_id");
    // snake-casing is idempotent: converting a converted name is a no-op
    let once = names::gen_fld_name(&"FullName".to_string());
    assert_eq!(names::gen_fld_name(&once), once);
    let arg_once = names::gen_arg_name(&"userId".to_string());
    assert_eq!(names::gen_arg_name(&arg_once), arg_once);
}

#[test]
fn seed_pass_classifies() {
    let equivalences = vec![
        ("int4".to_string(), tc("i32", true, true)),
        ("text".to_string(), tc("String", false, true)),
    ];
    let rows = vec![
        SeedTypeRow { oid: 23, name: "int4".to_string(), kind: b'b', base_type: 0 },
        SeedTypeRow { oid: 2278, name: "void".to_string(), kind: b'p', base_type: 0 },
        SeedTypeRow { oid: 600, name: "mystery".to_string(), kind: b'b', base_type: 0 },
        SeedTypeRow { oid: 301, name: "_text".to_string(), kind: b'a', base_type: 25 },
        SeedTypeRow { oid: 300, name: "age".to_string(), kind: b'd', base_type: 23 },
        SeedTypeRow { oid: 302, name: "int_range".to_string(), kind: b'r', base_type: 23 },
        // enums and composites wait for the detail pass: no node, no diagnostic
        SeedTypeRow { oid: 100, name: "status".to_string(), kind: b'e', base_type: 0 },
        // an unknown tag is a parse failure: one diagnostic
        SeedTypeRow { oid: 700, name: "odd".to_string(), kind: b'q', base_type: 0 },
    ];
    let (db, diags) = PgDatabase::new(&equivalences, &rows);
    assert_eq!(db.types.get(23), Some(&PgType::Base(tc("i32", true, true))));
    assert_eq!(db.types.get(600), Some(&PgType::Unknown("mystery".to_string())));
    assert_eq!(
        db.types.get(301),
        Some(&PgType::Array {
            schema: "pg_catalog".to_string(),
            name: "_text".to_string(),
            base_type: 25
        })
    );
    assert_eq!(db.types.get(100), None);
    assert_eq!(db.types.get(700), None);
    assert_eq!(
        diags,
        vec![Diag::UnknownSeedKind { oid: 700, name: "odd".to_string(), tag: b'q' }]
    );
}

#[test]
fn parse_type_rows() {
    let row = TypeRow {
        oid: 100,
        schema: "public".to_string(),
        name: "status".to_string(),
        kind: PgTypeKind::Enum,
        is_table: false,
        is_view: false,
        enum_values: Some(vec!["a".to_string(), "b".to_string()]),
        struct_fields: None,
        base_type: None,
    };
    let (oid, node) = stage1::parse_type(&row).unwrap();
    assert_eq!(oid, 100);
    assert_eq!(
        node,
        PgType::Enum {
            schema: "public".to_string(),
            name: "status".to_string(),
            values: vec!["a".to_string(), "b".to_string()],
        }
    );

    // an enum row without its values failed to parse
    let bad = TypeRow { enum_values: None, ..row };
    assert_eq!(
        stage1::parse_type(&bad),
        Err(Diag::IncompleteTypeRow {
            oid: 100,
            schema: "public".to_string(),
            name: "status".to_string(),
            kind: PgTypeKind::Enum,
        })
    );

    // base rows belong to the seed query alone
    let misplaced = TypeRow {
        oid: 23,
        schema: "pg_catalog".to_string(),
        name: "int4".to_string(),
        kind: PgTypeKind::Base,
        is_table: false,
        is_view: false,
        enum_values: None,
        struct_fields: None,
        base_type: None,
    };
    assert_eq!(
        stage1::parse_type(&misplaced),
        Err(Diag::MisplacedTypeRow {
            oid: 23,
            schema: "pg_catalog".to_string(),
            name: "int4".to_string(),
            kind: PgTypeKind::Base,
        })
    );
}

fn fn_row(name: &str, kind: PgProcedureKind, strict: bool, ret: u32, set: bool) -> FunctionRow {
    FunctionRow {
        oid: 9000,
        schema: "public".to_string(),
        name: name.to_string(),
        kind,
        is_strict: strict,
        arg_names: None,
        arg_types: None,
        arg_modes: None,
        ret_type: ret,
        ret_set: set,
    }
}

#[test]
fn parse_function_rejections() {
    let agg = fn_row("count_all", PgProcedureKind::Aggregate, false, 23, false);
    assert_eq!(
        stage1::parse_function(&agg),
        Err(Diag::UnsupportedKind {
            oid: 9000,
            schema: "public".to_string(),
            name: "count_all".to_string(),
            kind: PgProcedureKind::Aggregate,
        })
    );

    // the trigger pseudo-type's oid comes from the store's own catalog
    let trig = fn_row("on_insert", PgProcedureKind::Function, false, 2279, false);
    assert_eq!(
        stage1::parse_function(&trig),
        Err(Diag::UnsupportedTrigger {
            oid: 9000,
            schema: "public".to_string(),
            name: "on_insert".to_string(),
        })
    );

    let mut inout = fn_row("swap", PgProcedureKind::Function, false, 23, false);
    inout.arg_names = Some(vec!["x".to_string()]);
    inout.arg_types = Some(vec![23]);
    inout.arg_modes = Some(vec![PgArgumentMode::InOut]);
    assert_eq!(
        stage1::parse_function(&inout),
        Err(Diag::UnsupportedInOut {
            oid: 9000,
            schema: "public".to_string(),
            name: "swap".to_string(),
        })
    );
}

#[test]
fn parse_function_void_collapse_and_defaults() {
    // declared to return void with no outputs: Void, and absent mode
    // array defaults every argument to "in"
    let mut row = fn_row("ping", PgProcedureKind::Function, true, 2278, false);
    row.arg_names = Some(vec!["a".to_string()]);
    row.arg_types = Some(vec![23]);
    let (_, f) = stage1::parse_function(&row).unwrap();
    assert_eq!(f.returns, PgReturn::Void);
    assert_eq!(f.arguments.len(), 1);
    assert!(!f.arguments[0].is_nullable);
    assert!(!f.arguments[0].is_variadic);

    // a procedure returns nothing whatever it declares
    let proc_row = fn_row("do_it", PgProcedureKind::Proc, false, 23, false);
    let (_, p) = stage1::parse_function(&proc_row).unwrap();
    assert_eq!(p.returns, PgReturn::Void);
}

#[test]
fn variadic_after_plain_arguments() {
    // catalog order: variadic first, then two plain "in" arguments
    let mut row = fn_row("concat_all", PgProcedureKind::Function, true, 25, false);
    row.arg_names = Some(vec!["rest".to_string(), "a".to_string(), "b".to_string()]);
    row.arg_types = Some(vec![301, 23, 23]);
    row.arg_modes = Some(vec![
        PgArgumentMode::Variadic,
        PgArgumentMode::In,
        PgArgumentMode::In,
    ]);
    let (_, f) = stage1::parse_function(&row).unwrap();
    let names: Vec<&str> = f.arguments.iter().map(|a| a.name.as_str()).collect();
    assert_eq!(names, vec!["a", "b", "rest"]);
    assert!(!f.arguments[0].is_variadic);
    assert!(!f.arguments[1].is_variadic);
    assert!(f.arguments[2].is_variadic);
}

#[test]
fn table_argument_forces_set() {
    // the declared flag is false; the table-mode argument wins
    let mut row = fn_row("list_users", PgProcedureKind::Function, false, 2249, false);
    row.arg_names = Some(vec!["id".to_string(), "name".to_string()]);
    row.arg_types = Some(vec![23, 25]);
    row.arg_modes = Some(vec![PgArgumentMode::In, PgArgumentMode::Table]);
    let (_, f) = stage1::parse_function(&row).unwrap();
    assert!(f.returns_set);
    match &f.returns {
        PgReturn::Record(outs) => {
            assert_eq!(outs.len(), 1);
            assert_eq!(outs[0].name, "name");
        }
        other => panic!("expected a record return, got {:?}", other),
    }
}

#[test]
fn resolver_modes() {
    let types = sample_types();
    // base types: the equivalence verbatim in field mode
    let r = resolve::resolve_fld_type(&types, 23).unwrap();
    assert_eq!(r, tc("i32", true, true));
    // argument mode: copy-safe by value, others by reference
    assert_eq!(resolve::resolve_arg_type(&types, 23).unwrap(), "i32");
    assert_eq!(resolve::resolve_arg_type(&types, 25).unwrap(), "&String");
    assert_eq!(resolve::resolve_arg_type(&types, 200).unwrap(), "&Users");
    assert_eq!(resolve::resolve_arg_type(&types, 100).unwrap(), "Status");
    // return mode: always by value, bare names
    assert_eq!(resolve::resolve_ret_type(&types, 200).unwrap(), "Users");
    assert_eq!(resolve::resolve_ret_type(&types, 301).unwrap(), "Vec<String>");
    // an absent type id fails with that id, never aborts
    assert_eq!(resolve::resolve_fld_type(&types, 999), Err(999));
}

#[test]
fn domain_resolution_is_transparent() {
    let types = sample_types();
    // domain 300 aliases int4 (23): identical results in every mode
    assert_eq!(
        resolve::resolve_fld_type(&types, 300).unwrap(),
        resolve::resolve_fld_type(&types, 23).unwrap()
    );
    assert_eq!(
        resolve::resolve_arg_type(&types, 300).unwrap(),
        resolve::resolve_arg_type(&types, 23).unwrap()
    );
    assert_eq!(
        resolve::resolve_ret_type(&types, 300).unwrap(),
        resolve::resolve_ret_type(&types, 23).unwrap()
    );
}

#[test]
fn array_and_range_wrapping() {
    let types = sample_types();
    // array of a serializable element: never copyable, serializability kept
    let arr = resolve::resolve_fld_type(&types, 301).unwrap();
    assert_eq!(arr, tc("Vec<String>", false, true));
    // range of a copyable element: copyability kept, never serializable
    let rng = resolve::resolve_fld_type(&types, 302).unwrap();
    assert_eq!(rng, tc("postgres_range::Range<i32>", true, false));
}

#[test]
fn capability_propagation_is_conjunctive() {
    let types = sample_types();
    // all-copyable fields: the composite is copyable
    let pair = resolve::resolve_fld_type(&types, 201).unwrap();
    assert_eq!(pair, tc("PointPair", true, true));
    // one non-copyable field (text) flips the composite's flag
    let users = resolve::resolve_fld_type(&types, 200).unwrap();
    assert_eq!(users, tc("Users", false, true));

    // and any composite embedding it flips too
    let mut types2 = sample_types();
    types2.insert(
        400,
        PgType::Composite {
            schema: "public".to_string(),
            name: "wrapper".to_string(),
            is_table: false,
            is_view: false,
            fields: vec![field("inner", 200, false), field("n", 23, false)],
        },
    );
    let wrapper = resolve::resolve_fld_type(&types2, 400).unwrap();
    assert_eq!(wrapper, tc("Wrapper", false, true));
}

#[test]
fn self_referential_composite_short_circuits() {
    // node: a composite holding an array of itself; the walk re-enters
    // the composite and must stop with conservative capabilities
    let mut types: OidMap<PgType> = OidMap::new();
    types.insert(
        500,
        PgType::Composite {
            schema: "public".to_string(),
            name: "node".to_string(),
            is_table: false,
            is_view: false,
            fields: vec![field("children", 501, false)],
        },
    );
    types.insert(
        501,
        PgType::Array {
            schema: "pg_catalog".to_string(),
            name: "_node".to_string(),
            base_type: 500,
        },
    );
    let r = resolve::resolve_fld_type(&types, 500).unwrap();
    assert_eq!(r.rs_type, "Node");
    assert!(!r.copyable);
    assert!(!r.serializable);
}

#[test]
fn enum_collision_gets_distinct_tag() {
    let plan = stage2::gen_enum(
        &"public".to_string(),
        &"status".to_string(),
        &vec!["a".to_string(), "b".to_string(), "B".to_string()],
    );
    assert_eq!(plan.name, "Status");
    assert_eq!(plan.pg_name, "status");
    assert_eq!(plan.variants.len(), 3);
    assert_eq!(plan.variants[0].tag, "A");
    assert_eq!(plan.variants[0].pg_name, Some("a".to_string()));
    assert_eq!(plan.variants[1].tag, "B");
    assert_eq!(plan.variants[1].pg_name, Some("b".to_string()));
    // "B" normalizes to the taken tag "B": a distinct tag, carrying the
    // literal catalog spelling
    assert_ne!(plan.variants[2].tag, "B");
    assert_eq!(plan.variants[2].tag, "B_");
    assert_eq!(plan.variants[2].pg_name, Some("B".to_string()));
    // a value already in target casing keeps its text with no mapping
    let clean = stage2::gen_enum(
        &"public".to_string(),
        &"level".to_string(),
        &vec!["High".to_string(), "Low".to_string()],
    );
    assert_eq!(clean.variants[0].tag, "High");
    assert_eq!(clean.variants[0].pg_name, None);
    assert_eq!(clean.variants[1].tag, "Low");
    assert_eq!(clean.variants[1].pg_name, None);
}

#[test]
fn composite_plan_fields() {
    let types = sample_types();
    let plan = stage2::gen_composite(
        &types,
        &"public".to_string(),
        &"users".to_string(),
        true,
        false,
        &vec![field("id", 23, false), field("FullName", 25, true)],
    )
    .unwrap();
    assert_eq!(plan.name, "Users");
    assert!(plan.row_backed);
    assert!(!plan.copyable);
    assert!(plan.serializable);
    assert_eq!(plan.fields.len(), 2);
    assert_eq!(plan.fields[0].name, "id");
    assert_eq!(plan.fields[0].pg_name, None);
    assert_eq!(plan.fields[0].ty, "i32");
    // a nullable column of a row-backed composite becomes optional, and
    // the altered name keeps its catalog spelling
    assert_eq!(plan.fields[1].name, "full_name");
    assert_eq!(plan.fields[1].pg_name, Some("FullName".to_string()));
    assert_eq!(plan.fields[1].ty, "Option<String>");

    // a free-standing composite keeps every field mandatory
    let free = stage2::gen_composite(
        &types,
        &"public".to_string(),
        &"point_pair".to_string(),
        false,
        false,
        &vec![field("x", 23, true), field("y", 23, false)],
    )
    .unwrap();
    assert_eq!(free.fields[0].ty, "i32");

    // a field of an unknown type fails the composite with that id
    assert_eq!(
        stage2::gen_composite(
            &types,
            &"public".to_string(),
            &"broken".to_string(),
            false,
            false,
            &vec![field("x", 999, false)],
        ),
        Err(999)
    );
}

fn strict_add() -> PgFunction {
    PgFunction {
        schema: "public".to_string(),
        name: "add".to_string(),
        kind: PgProcedureKind::Function,
        is_strict: true,
        arguments: vec![
            PgArgument {
                name: "a".to_string(),
                typ: 23,
                is_variadic: false,
                is_nullable: false,
            },
            PgArgument {
                name: "b".to_string(),
                typ: 23,
                is_variadic: false,
                is_nullable: false,
            },
        ],
        returns: PgReturn::Scalar(23),
        returns_set: false,
    }
}

#[test]
fn binding_for_strict_scalar_function() {
    let types = sample_types();
    let plan = stage2::gen_function(&types, &strict_add()).unwrap();
    assert_eq!(plan.name, "add");
    assert_eq!(plan.args.len(), 2);
    assert_eq!(plan.args[0].name, "a");
    assert_eq!(plan.args[0].ty, "i32");
    assert_eq!(plan.args[1].name, "b");
    assert_eq!(plan.args[1].ty, "i32");
    assert_eq!(plan.ret, "PgResult<i32>");
    assert_eq!(
        plan.lines,
        vec![
            "let query = self.query(\"SELECT * FROM \\\"public\\\".\\\"add\\\"($1, $2)\", &[&a, &b])?;"
                .to_string(),
            "let row = query.into_iter().next()?;".to_string(),
            "let result = row.get(0);".to_string(),
            "Ok(result)".to_string(),
        ]
    );
}

#[test]
fn binding_for_set_returning_table_composite() {
    let types = sample_types();
    let f = PgFunction {
        schema: "public".to_string(),
        name: "all_users".to_string(),
        kind: PgProcedureKind::Function,
        is_strict: false,
        arguments: vec![],
        returns: PgReturn::Scalar(200),
        returns_set: true,
    };
    let plan = stage2::gen_function(&types, &f).unwrap();
    assert_eq!(plan.ret, "PgResult<Vec<(Users)>>");
    assert_eq!(
        plan.lines,
        vec![
            "let query = self.query(\"SELECT * FROM \\\"public\\\".\\\"all_users\\\"()\", &[])?;"
                .to_string(),
            "let result: Result<Vec<Users>, _> = query.iter().map(|row| Users::from_postgres_row(row)).collect();"
                .to_string(),
            "Ok(result?)".to_string(),
        ]
    );
}

#[test]
fn binding_for_procedure_and_record() {
    let types = sample_types();
    let p = PgFunction {
        schema: "audit".to_string(),
        name: "log".to_string(),
        kind: PgProcedureKind::Proc,
        is_strict: false,
        arguments: vec![PgArgument {
            name: "msg".to_string(),
            typ: 25,
            is_variadic: false,
            is_nullable: true,
        }],
        returns: PgReturn::Void,
        returns_set: false,
    };
    let plan = stage2::gen_function(&types, &p).unwrap();
    assert_eq!(plan.name, "audit_log");
    assert_eq!(plan.args[0].ty, "&String");
    assert_eq!(plan.ret, "PgResult<()>");
    assert_eq!(
        plan.lines,
        vec![
            "let _query = self.query(\"CALL \\\"audit\\\".\\\"log\\\"($1)\", &[&msg])?;"
                .to_string(),
            "Ok(())".to_string(),
        ]
    );

    let rec = PgFunction {
        schema: "public".to_string(),
        name: "minmax".to_string(),
        kind: PgProcedureKind::Function,
        is_strict: false,
        arguments: vec![],
        returns: PgReturn::Record(vec![
            PgArgument {
                name: "lo".to_string(),
                typ: 23,
                is_variadic: false,
                is_nullable: true,
            },
            PgArgument {
                name: "hi".to_string(),
                typ: 23,
                is_variadic: false,
                is_nullable: true,
            },
        ]),
        returns_set: false,
    };
    let plan = stage2::gen_function(&types, &rec).unwrap();
    assert_eq!(plan.ret, "PgResult<(i32, i32)>");
    assert_eq!(
        plan.lines,
        vec![
            "let query = self.query(\"SELECT * FROM \\\"public\\\".\\\"minmax\\\"()\", &[])?;"
                .to_string(),
            "let row = query.into_iter().next()?;".to_string(),
            "let result = (row.get(\"lo\"),row.get(\"hi\"));".to_string(),
            "Ok(result)".to_string(),
        ]
    );
}

#[test]
fn empty_enum_has_no_variants() {
    let plan = stage2::gen_enum(&"public".to_string(), &"nothing".to_string(), &vec![]);
    assert_eq!(plan.name, "Nothing");
    assert!(plan.variants.is_empty());
}

#[test]
fn positional_parameters_reach_two_digits() {
    let types = sample_types();
    let mut args = Vec::new();
    for k in 0..12 {
        args.push(PgArgument {
            name: format!("p{}", k),
            typ: 23,
            is_variadic: false,
            is_nullable: false,
        });
    }
    let f = PgFunction {
        schema: "public".to_string(),
        name: "wide".to_string(),
        kind: PgProcedureKind::Function,
        is_strict: true,
        arguments: args,
        returns: PgReturn::Scalar(23),
        returns_set: false,
    };
    let plan = stage2::gen_function(&types, &f).unwrap();
    assert!(
        plan.lines[0].contains("($1, $2, $3, $4, $5, $6, $7, $8, $9, $10, $11, $12)"),
        "got: {}",
        plan.lines[0]
    );
}

#[test]
fn emitter_rejects_unemittable_kind() {
    let types = sample_types();
    let f = PgFunction {
        schema: "public".to_string(),
        name: "oddity".to_string(),
        kind: PgProcedureKind::Window,
        is_strict: false,
        arguments: vec![],
        returns: PgReturn::Scalar(23),
        returns_set: false,
    };
    assert_eq!(
        stage2::gen_function(&types, &f),
        Err(Diag::UnsupportedBinding {
            schema: "public".to_string(),
            name: "oddity".to_string(),
            kind: PgProcedureKind::Window,
        })
    );
}

#[test]
fn one_diagnostic_per_omission() {
    // oid 999 exists nowhere: every referencing entity is omitted, with
    // exactly one diagnostic each
    let mut types = sample_types();
    types.insert(
        400,
        PgType::Composite {
            schema: "public".to_string(),
            name: "broken".to_string(),
            is_table: false,
            is_view: false,
            fields: vec![field("x", 999, false)],
        },
    );
    let mut functions: OidMap<PgFunction> = OidMap::new();
    functions.insert(
        9001,
        PgFunction {
            schema: "public".to_string(),
            name: "get_broken".to_string(),
            kind: PgProcedureKind::Function,
            is_strict: false,
            arguments: vec![],
            returns: PgReturn::Scalar(999),
            returns_set: false,
        },
    );
    let db = PgDatabase { types, functions };
    let plan = stage2::emit_module(&db);
    // declared: status (100), users (200), point_pair (201); omitted: broken
    assert_eq!(plan.types.len(), 3);
    assert_eq!(plan.fns.len(), 0);
    assert_eq!(
        plan.diags,
        vec![
            Diag::UnresolvedType {
                schema: "public".to_string(),
                name: "broken".to_string(),
                typ: 999,
            },
            Diag::UnresolvedType {
                schema: "public".to_string(),
                name: "get_broken".to_string(),
                typ: 999,
            },
        ]
    );
}

#[test]
fn name_collision_is_detected() {
    // two distinct catalog names normalize to the same identifier
    let mut types: OidMap<PgType> = OidMap::new();
    types.insert(
        600,
        PgType::Enum {
            schema: "public".to_string(),
            name: "foo_bar".to_string(),
            values: vec!["x".to_string()],
        },
    );
    types.insert(
        601,
        PgType::Enum {
            schema: "public".to_string(),
            name: "FooBar".to_string(),
            values: vec!["y".to_string()],
        },
    );
    let db = PgDatabase { types, functions: OidMap::new() };
    let plan = stage2::emit_module(&db);
    assert_eq!(plan.types.len(), 1);
    assert_eq!(
        plan.diags,
        vec![Diag::NameCollision {
            schema: "public".to_string(),
            name: "FooBar".to_string(),
            ident: "FooBar".to_string(),
        }]
    );
}

#[test]
fn end_to_end_generated_text() {
    let equivalences = vec![
        ("int4".to_string(), tc("i32", true, true)),
        ("text".to_string(), tc("String", false, true)),
        ("void".to_string(), tc("()", true, true)),
    ];
    let seed_rows = vec![
        SeedTypeRow { oid: 23, name: "int4".to_string(), kind: b'b', base_type: 0 },
        SeedTypeRow { oid: 25, name: "text".to_string(), kind: b'b', base_type: 0 },
    ];
    let type_rows = vec![TypeRow {
        oid: 100,
        schema: "public".to_string(),
        name: "status".to_string(),
        kind: PgTypeKind::Enum,
        is_table: false,
        is_view: false,
        enum_values: Some(vec!["on".to_string(), "off".to_string()]),
        struct_fields: None,
        base_type: None,
    }];
    let mut add_row = FunctionRow {
        oid: 9000,
        schema: "public".to_string(),
        name: "add".to_string(),
        kind: PgProcedureKind::Function,
        is_strict: true,
        arg_names: Some(vec!["a".to_string(), "b".to_string()]),
        arg_types: Some(vec![23, 23]),
        arg_modes: None,
        ret_type: 23,
        ret_set: false,
    };
    add_row.arg_modes = None;
    let (db, diags) = stage1::build_database(&equivalences, &seed_rows, &type_rows, &vec![add_row]);
    assert!(diags.is_empty());
    let (scope, emit_diags) = stage2::run(&db);
    assert!(emit_diags.is_empty());
    let text = scope.to_string();
    assert!(text.contains("pub enum Status"), "missing enum: {}", text);
    assert!(text.contains("#[postgres(name = \"status\")]"), "missing attr: {}", text);
    assert!(text.contains("impl PgConnection"), "missing impl: {}", text);
    assert!(
        text.contains("pub fn add(&self, a: i32, b: i32) -> PgResult<i32>"),
        "missing binding: {}",
        text
    );
    assert!(
        text.contains("SELECT * FROM \\\"public\\\".\\\"add\\\"($1, $2)"),
        "missing query: {}",
        text
    );
}
