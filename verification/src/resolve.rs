//! The type resolver: a recursive walk of the type graph that turns a
//! type id into a Rust representation plus capability flags, in one of
//! three modes (record field, binding argument, binding result).
//!
//! The graph may contain reference cycles, so every walk threads a
//! "currently resolving" set through its calls: re-entering a type short-
//! circuits to the type's bare generated name with conservative
//! capabilities (neither copyable nor serializable) instead of recursing.
use vstd::prelude::*;
use vstd::string::StringExecFns;

use crate::names::gen_type_name;
use crate::names::spec_type_name;
use crate::oidmap::OidMap;
use crate::oidmap::spec_get;
use crate::types::Oid;
use crate::types::PgField;
use crate::types::PgFieldV;
use crate::types::PgType;
use crate::types::PgTypeV;
use crate::types::TypeCorrespondence;
use crate::types::TypeCorrespondenceV;

verus! {

/// The three resolution modes.
pub ghost enum ResolveMode {
    Field,
    Argument,
    Return,
}

/// The keys of a graph's entry sequence.
pub open spec fn graph_keys(g: Seq<(Oid, PgTypeV)>) -> Set<Oid> {
    g.map_values(|p: (Oid, PgTypeV)| p.0).to_set()
}

/// A key the graph holds is a graph key, and conversely.
pub proof fn lemma_get_in_keys(g: Seq<(Oid, PgTypeV)>, k: Oid)
    ensures
        graph_keys(g).contains(k) <==> spec_get(g, k) is Some,
    decreases g.len(),
{
    if g.len() > 0 {
        lemma_get_in_keys(g.skip(1), k);
        assert(g.map_values(|p: (Oid, PgTypeV)| p.0).skip(1) =~= g.skip(1).map_values(
            |p: (Oid, PgTypeV)| p.0,
        ));
        let m = g.map_values(|p: (Oid, PgTypeV)| p.0);
        if g[0].0 == k {
            assert(m[0] == k);
            assert(m.contains(k));
        } else {
            assert(m.contains(k) <==> m.skip(1).contains(k)) by {
                if m.contains(k) {
                    let i = choose|i: int| 0 <= i < m.len() && m[i] == k;
                    assert(i != 0);
                    assert(m.skip(1)[i - 1] == k);
                }
                if m.skip(1).contains(k) {
                    let i = choose|i: int| 0 <= i < m.skip(1).len() && m.skip(1)[i] == k;
                    assert(m[i + 1] == k);
                }
            }
        }
    }
}

/// Marking one more graph key as "currently resolving" strictly shrinks
/// the set of keys still open to the walk: the walk terminates.
pub proof fn lemma_keys_decrease(g: Seq<(Oid, PgTypeV)>, v: Set<Oid>, oid: Oid)
    requires
        spec_get(g, oid) is Some,
        !v.contains(oid),
    ensures
        graph_keys(g).difference(v.insert(oid)).len() < graph_keys(g).difference(v).len(),
{
    broadcast use vstd::set::group_set_axioms;
    broadcast use vstd::seq_lib::seq_to_set_is_finite;

    lemma_get_in_keys(g, oid);
    let a = graph_keys(g).difference(v);
    let b = graph_keys(g).difference(v.insert(oid));
    assert(graph_keys(g).finite());
    assert(a.finite());
    assert(b =~= a.remove(oid));
    assert(a.contains(oid));
    assert(a.remove(oid).len() == a.len() - 1);
}

/// The rendered name of a re-entered or pass-by-reference type: the bare
/// generated name, prefixed with a borrow in argument mode.
pub open spec fn spec_mode_name(schema: Seq<char>, name: Seq<char>, m: ResolveMode) -> Seq<char> {
    if m == ResolveMode::Argument {
        "&"@ + spec_type_name(schema, name)
    } else {
        spec_type_name(schema, name)
    }
}

/// Resolve one type id. `Err` carries the id on which resolution failed:
/// one that the graph does not hold, or an `Unknown` node.
pub open spec fn spec_resolve(
    g: Seq<(Oid, PgTypeV)>,
    v: Set<Oid>,
    oid: Oid,
    m: ResolveMode,
) -> Result<TypeCorrespondenceV, Oid>
    decreases graph_keys(g).difference(v).len(), 0int, 0int
    via spec_resolve_decreases
{
    match spec_get(g, oid) {
        Option::None => Result::Err(oid),
        Option::Some(node) => if v.contains(oid) {
            // Re-entry: a reference cycle. Conservative capabilities and
            // the bare name stand in for the unbounded expansion.
            match node {
                PgTypeV::Base(tc) => Result::Ok(
                    TypeCorrespondenceV {
                        rs_type: if m == ResolveMode::Argument {
                            "&"@ + tc.rs_type
                        } else {
                            tc.rs_type
                        },
                        copyable: false,
                        serializable: false,
                    },
                ),
                PgTypeV::Enum { schema, name, .. } => Result::Ok(
                    TypeCorrespondenceV {
                        rs_type: spec_mode_name(schema, name, m),
                        copyable: false,
                        serializable: false,
                    },
                ),
                PgTypeV::Composite { schema, name, .. } => Result::Ok(
                    TypeCorrespondenceV {
                        rs_type: spec_mode_name(schema, name, m),
                        copyable: false,
                        serializable: false,
                    },
                ),
                PgTypeV::Domain { schema, name, .. } => Result::Ok(
                    TypeCorrespondenceV {
                        rs_type: spec_mode_name(schema, name, m),
                        copyable: false,
                        serializable: false,
                    },
                ),
                PgTypeV::Array { schema, name, .. } => Result::Ok(
                    TypeCorrespondenceV {
                        rs_type: spec_mode_name(schema, name, m),
                        copyable: false,
                        serializable: false,
                    },
                ),
                PgTypeV::Range { schema, name, .. } => Result::Ok(
                    TypeCorrespondenceV {
                        rs_type: spec_mode_name(schema, name, m),
                        copyable: false,
                        serializable: false,
                    },
                ),
                PgTypeV::Unknown(_) => Result::Err(oid),
            }
        } else {
            match node {
                PgTypeV::Base(tc) => Result::Ok(
                    TypeCorrespondenceV {
                        rs_type: if m == ResolveMode::Argument && !tc.copyable {
                            "&"@ + tc.rs_type
                        } else {
                            tc.rs_type
                        },
                        copyable: tc.copyable,
                        serializable: tc.serializable,
                    },
                ),
                PgTypeV::Enum { schema, name, .. } => Result::Ok(
                    TypeCorrespondenceV {
                        rs_type: spec_type_name(schema, name),
                        copyable: true,
                        serializable: true,
                    },
                ),
                PgTypeV::Composite { schema, name, fields, .. } => match m {
                    ResolveMode::Field => match spec_resolve_fields(g, v.insert(oid), fields) {
                        Result::Ok((c, s)) => Result::Ok(
                            TypeCorrespondenceV {
                                rs_type: spec_type_name(schema, name),
                                copyable: c,
                                serializable: s,
                            },
                        ),
                        Result::Err(o) => Result::Err(o),
                    },
                    ResolveMode::Argument => Result::Ok(
                        TypeCorrespondenceV {
                            rs_type: "&"@ + spec_type_name(schema, name),
                            copyable: false,
                            serializable: false,
                        },
                    ),
                    ResolveMode::Return => Result::Ok(
                        TypeCorrespondenceV {
                            rs_type: spec_type_name(schema, name),
                            copyable: false,
                            serializable: false,
                        },
                    ),
                },
                PgTypeV::Domain { base_type, .. } => spec_resolve(g, v.insert(oid), base_type, m),
                PgTypeV::Array { base_type, .. } => match spec_resolve(
                    g,
                    v.insert(oid),
                    base_type,
                    m,
                ) {
                    Result::Ok(inner) => Result::Ok(
                        TypeCorrespondenceV {
                            rs_type: if m == ResolveMode::Argument {
                                "&["@ + inner.rs_type + "]"@
                            } else {
                                "Vec<"@ + inner.rs_type + ">"@
                            },
                            copyable: false,
                            serializable: inner.serializable,
                        },
                    ),
                    Result::Err(o) => Result::Err(o),
                },
                PgTypeV::Range { base_type, .. } => match spec_resolve(
                    g,
                    v.insert(oid),
                    base_type,
                    m,
                ) {
                    Result::Ok(inner) => Result::Ok(
                        TypeCorrespondenceV {
                            rs_type: if m == ResolveMode::Argument {
                                "&postgres_range::Range<"@ + inner.rs_type + ">"@
                            } else {
                                "postgres_range::Range<"@ + inner.rs_type + ">"@
                            },
                            copyable: inner.copyable,
                            serializable: false,
                        },
                    ),
                    Result::Err(o) => Result::Err(o),
                },
                PgTypeV::Unknown(_) => Result::Err(oid),
            }
        },
    }
}

#[via_fn]
proof fn spec_resolve_decreases(g: Seq<(Oid, PgTypeV)>, v: Set<Oid>, oid: Oid, m: ResolveMode) {
    if spec_get(g, oid) is Some && !v.contains(oid) {
        lemma_keys_decrease(g, v, oid);
    }
}

/// Resolve a composite's fields in order, in field mode, and conjoin
/// their capability flags. The first failing field fails the composite.
pub open spec fn spec_resolve_fields(
    g: Seq<(Oid, PgTypeV)>,
    v: Set<Oid>,
    fields: Seq<PgFieldV>,
) -> Result<(bool, bool), Oid>
    decreases graph_keys(g).difference(v).len(), 1int, fields.len()
{
    if fields.len() == 0 {
        Result::Ok((true, true))
    } else {
        match spec_resolve(g, v, fields[0].typ, ResolveMode::Field) {
            Result::Err(o) => Result::Err(o),
            Result::Ok(c0) => match spec_resolve_fields(g, v, fields.skip(1)) {
                Result::Err(o) => Result::Err(o),
                Result::Ok((c, s)) => Result::Ok(
                    (c0.copyable && c, c0.serializable && s),
                ),
            },
        }
    }
}

/// The rendered type alone, for the modes whose flags the caller never
/// reads.
pub open spec fn spec_resolve_rs(
    g: Seq<(Oid, PgTypeV)>,
    v: Set<Oid>,
    oid: Oid,
    m: ResolveMode,
) -> Result<Seq<char>, Oid> {
    match spec_resolve(g, v, oid, m) {
        Result::Ok(c) => Result::Ok(c.rs_type),
        Result::Err(o) => Result::Err(o),
    }
}

/// Membership test on the "currently resolving" stack.
fn vec_contains_oid(v: &Vec<Oid>, x: Oid) -> (b: bool)
    ensures
        b == v@.contains(x),
{
    let n: usize = v.len();
    let mut i: usize = 0;
    while i < n
        invariant
            n == v@.len(),
            0 <= i <= n,
            forall|j: int| 0 <= j < i ==> v@[j] != x,
        decreases n - i,
    {
        if v[i] == x {
            return true;
        }
        i = i + 1;
    }
    false
}

/// Appending to the resolving stack marks exactly one more id.
proof fn lemma_push_to_set(s: Seq<Oid>, x: Oid)
    ensures
        s.push(x).to_set() =~= s.to_set().insert(x),
{
    broadcast use vstd::set::group_set_axioms;

    assert forall|a: Oid| s.push(x).to_set().contains(a) implies s.to_set().insert(x).contains(
        a,
    ) by {
        let i = choose|i: int| 0 <= i < s.push(x).len() && s.push(x)[i] == a;
        if i < s.len() {
            assert(s[i] == a);
        }
    }
    assert forall|a: Oid| s.to_set().insert(x).contains(a) implies s.push(x).to_set().contains(
        a,
    ) by {
        if a == x {
            assert(s.push(x)[s.len() as int] == a);
        } else {
            let i = choose|i: int| 0 <= i < s.len() && s[i] == a;
            assert(s.push(x)[i] == a);
        }
    }
}

/// Field-mode resolution, threading the resolving stack.
fn resolve_fld_go(db: &OidMap<PgType>, visiting: &mut Vec<Oid>, oid: Oid) -> (r: Result<
    TypeCorrespondence,
    Oid,
>)
    requires
        db.wf(),
    ensures
        final(visiting)@ == old(visiting)@,
        ({
            let s = spec_resolve(
                db.deep_view(),
                old(visiting)@.to_set(),
                oid,
                ResolveMode::Field,
            );
            match r {
                Result::Ok(tc) => s == Result::<TypeCorrespondenceV, Oid>::Ok(tc.deep_view()),
                Result::Err(o) => s == Result::<TypeCorrespondenceV, Oid>::Err(o),
            }
        }),
    decreases graph_keys(db.deep_view()).difference(old(visiting)@.to_set()).len(),
{
    broadcast use vstd::set::group_set_axioms;

    let ghost g = db.deep_view();
    let ghost v0 = old(visiting)@.to_set();
    match db.get(oid) {
        Option::None => Result::Err(oid),
        Option::Some(node) => {
            let cyc = vec_contains_oid(visiting, oid);
            proof {
                assert(cyc == v0.contains(oid));
            }
            if cyc {
                match node {
                    PgType::Base(tc) => Result::Ok(
                        TypeCorrespondence {
                            rs_type: tc.rs_type.clone(),
                            copyable: false,
                            serializable: false,
                        },
                    ),
                    PgType::Enum { schema, name, .. } => Result::Ok(
                        TypeCorrespondence {
                            rs_type: gen_type_name(schema, name),
                            copyable: false,
                            serializable: false,
                        },
                    ),
                    PgType::Composite { schema, name, .. } => Result::Ok(
                        TypeCorrespondence {
                            rs_type: gen_type_name(schema, name),
                            copyable: false,
                            serializable: false,
                        },
                    ),
                    PgType::Domain { schema, name, .. } => Result::Ok(
                        TypeCorrespondence {
                            rs_type: gen_type_name(schema, name),
                            copyable: false,
                            serializable: false,
                        },
                    ),
                    PgType::Array { schema, name, .. } => Result::Ok(
                        TypeCorrespondence {
                            rs_type: gen_type_name(schema, name),
                            copyable: false,
                            serializable: false,
                        },
                    ),
                    PgType::Range { schema, name, .. } => Result::Ok(
                        TypeCorrespondence {
                            rs_type: gen_type_name(schema, name),
                            copyable: false,
                            serializable: false,
                        },
                    ),
                    PgType::Unknown(_) => Result::Err(oid),
                }
            } else {
                match node {
                    PgType::Base(tc) => Result::Ok(tc.clone()),
                    PgType::Enum { schema, name, .. } => Result::Ok(
                        TypeCorrespondence {
                            rs_type: gen_type_name(schema, name),
                            copyable: true,
                            serializable: true,
                        },
                    ),
                    PgType::Composite { schema, name, fields, .. } => {
                        proof {
                            lemma_keys_decrease(g, v0, oid);
                            lemma_push_to_set(old(visiting)@, oid);
                        }
                        visiting.push(oid);
                        let ghost v1 = v0.insert(oid);
                        let ghost fdv = fields.deep_view();
                        proof {
                            assert(visiting@.to_set() == v1);
                            assert(fdv.skip(0) =~= fdv);
                        }
                        let mut copyable: bool = true;
                        let mut serializable: bool = true;
                        let n: usize = fields.len();
                        let mut i: usize = 0;
                        while i < n
                            invariant
                                db.wf(),
                                g == db.deep_view(),
                                visiting@ == old(visiting)@.push(oid),
                                visiting@.to_set() == v1,
                                v0 == old(visiting)@.to_set(),
                                v1 == v0.insert(oid),
                                graph_keys(g).difference(v1).len() < graph_keys(g).difference(
                                    v0,
                                ).len(),
                                n == fields@.len(),
                                fdv == fields.deep_view(),
                                0 <= i <= n,
                                spec_resolve_fields(g, v1, fdv) == (match spec_resolve_fields(
                                    g,
                                    v1,
                                    fdv.skip(i as int),
                                ) {
                                    Result::Ok((c, s)) => Result::<(bool, bool), Oid>::Ok(
                                        ((copyable && c), (serializable && s)),
                                    ),
                                    Result::Err(o) => Result::<(bool, bool), Oid>::Err(o),
                                }),
                                (match spec_resolve_fields(g, v1, fdv) {
                                    Result::Ok((c, s)) => spec_resolve(
                                        g,
                                        v0,
                                        oid,
                                        ResolveMode::Field,
                                    ) == Result::<TypeCorrespondenceV, Oid>::Ok(
                                        TypeCorrespondenceV {
                                            rs_type: spec_type_name(schema@, name@),
                                            copyable: c,
                                            serializable: s,
                                        },
                                    ),
                                    Result::Err(o) => spec_resolve(
                                        g,
                                        v0,
                                        oid,
                                        ResolveMode::Field,
                                    ) == Result::<TypeCorrespondenceV, Oid>::Err(o),
                                }),
                            decreases n - i,
                        {
                            let ghost tail = fdv.skip(i as int);
                            proof {
                                assert(tail[0] == fdv[i as int]);
                                assert(fdv[i as int] == fields@[i as int].deep_view());
                                assert(tail.skip(1) =~= fdv.skip(i as int + 1));
                            }
                            match resolve_fld_go(db, visiting, fields[i].typ) {
                                Result::Ok(tc) => {
                                    copyable = copyable && tc.copyable;
                                    serializable = serializable && tc.serializable;
                                },
                                Result::Err(o) => {
                                    proof {
                                        assert(spec_resolve_fields(g, v1, tail) == Result::<
                                            (bool, bool),
                                            Oid,
                                        >::Err(o));
                                    }
                                    let _ = visiting.pop();
                                    proof {
                                        assert(visiting@ =~= old(visiting)@);
                                    }
                                    return Result::Err(o);
                                },
                            }
                            i = i + 1;
                        }
                        proof {
                            assert(fdv.skip(n as int) =~= Seq::<PgFieldV>::empty());
                        }
                        let _ = visiting.pop();
                        proof {
                            assert(visiting@ =~= old(visiting)@);
                        }
                        Result::Ok(
                            TypeCorrespondence {
                                rs_type: gen_type_name(schema, name),
                                copyable,
                                serializable,
                            },
                        )
                    },
                    PgType::Domain { base_type, .. } => {
                        proof {
                            lemma_keys_decrease(g, v0, oid);
                            lemma_push_to_set(old(visiting)@, oid);
                        }
                        visiting.push(oid);
                        proof {
                            assert(visiting@.to_set() == v0.insert(oid));
                        }
                        let r = resolve_fld_go(db, visiting, *base_type);
                        let _ = visiting.pop();
                        proof {
                            assert(visiting@ =~= old(visiting)@);
                        }
                        r
                    },
                    PgType::Array { base_type, .. } => {
                        proof {
                            lemma_keys_decrease(g, v0, oid);
                            lemma_push_to_set(old(visiting)@, oid);
                        }
                        visiting.push(oid);
                        proof {
                            assert(visiting@.to_set() == v0.insert(oid));
                        }
                        let rec = resolve_fld_go(db, visiting, *base_type);
                        let _ = visiting.pop();
                        proof {
                            assert(visiting@ =~= old(visiting)@);
                        }
                        match rec {
                            Result::Ok(inner) => {
                                let mut s = String::from_str("Vec<");
                                s.append(inner.rs_type.as_str());
                                s.append(">");
                                Result::Ok(
                                    TypeCorrespondence {
                                        rs_type: s,
                                        copyable: false,
                                        serializable: inner.serializable,
                                    },
                                )
                            },
                            Result::Err(o) => Result::Err(o),
                        }
                    },
                    PgType::Range { base_type, .. } => {
                        proof {
                            lemma_keys_decrease(g, v0, oid);
                            lemma_push_to_set(old(visiting)@, oid);
                        }
                        visiting.push(oid);
                        proof {
                            assert(visiting@.to_set() == v0.insert(oid));
                        }
                        let rec = resolve_fld_go(db, visiting, *base_type);
                        let _ = visiting.pop();
                        proof {
                            assert(visiting@ =~= old(visiting)@);
                        }
                        match rec {
                            Result::Ok(inner) => {
                                let mut s = String::from_str("postgres_range::Range<");
                                s.append(inner.rs_type.as_str());
                                s.append(">");
                                Result::Ok(
                                    TypeCorrespondence {
                                        rs_type: s,
                                        copyable: inner.copyable,
                                        serializable: false,
                                    },
                                )
                            },
                            Result::Err(o) => Result::Err(o),
                        }
                    },
                    PgType::Unknown(_) => Result::Err(oid),
                }
            }
        },
    }
}

/// Resolve a type id for a record field: the Rust representation and
/// both capability flags.
pub fn resolve_fld_type(database: &OidMap<PgType>, oid: Oid) -> (r: Result<
    TypeCorrespondence,
    Oid,
>)
    requires
        database.wf(),
    ensures
        ({
            let s = spec_resolve(database.deep_view(), Set::empty(), oid, ResolveMode::Field);
            match r {
                Result::Ok(tc) => s == Result::<TypeCorrespondenceV, Oid>::Ok(tc.deep_view()),
                Result::Err(o) => s == Result::<TypeCorrespondenceV, Oid>::Err(o),
            }
        }),
{
    broadcast use vstd::set::group_set_axioms;

    let mut visiting: Vec<Oid> = Vec::new();
    proof {
        assert(visiting@.to_set() =~= Set::<Oid>::empty());
    }
    resolve_fld_go(database, &mut visiting, oid)
}

/// Argument-mode resolution: copy-safe bases and enums pass by value;
/// composites, non-copy-safe bases, arrays and ranges pass by reference;
/// a domain delegates its base's decision unchanged.
fn resolve_arg_go(db: &OidMap<PgType>, visiting: &mut Vec<Oid>, oid: Oid) -> (r: Result<
    String,
    Oid,
>)
    requires
        db.wf(),
    ensures
        final(visiting)@ == old(visiting)@,
        ({
            let s = spec_resolve_rs(
                db.deep_view(),
                old(visiting)@.to_set(),
                oid,
                ResolveMode::Argument,
            );
            match r {
                Result::Ok(t) => s == Result::<Seq<char>, Oid>::Ok(t@),
                Result::Err(o) => s == Result::<Seq<char>, Oid>::Err(o),
            }
        }),
    decreases graph_keys(db.deep_view()).difference(old(visiting)@.to_set()).len(),
{
    broadcast use vstd::set::group_set_axioms;

    let ghost g = db.deep_view();
    let ghost v0 = old(visiting)@.to_set();
    match db.get(oid) {
        Option::None => Result::Err(oid),
        Option::Some(node) => {
            let cyc = vec_contains_oid(visiting, oid);
            proof {
                assert(cyc == v0.contains(oid));
            }
            if cyc {
                match node {
                    PgType::Base(tc) => {
                        let mut s = String::from_str("&");
                        s.append(tc.rs_type.as_str());
                        Result::Ok(s)
                    },
                    PgType::Enum { schema, name, .. } => Result::Ok(
                        borrowed_name(schema, name),
                    ),
                    PgType::Composite { schema, name, .. } => Result::Ok(
                        borrowed_name(schema, name),
                    ),
                    PgType::Domain { schema, name, .. } => Result::Ok(
                        borrowed_name(schema, name),
                    ),
                    PgType::Array { schema, name, .. } => Result::Ok(
                        borrowed_name(schema, name),
                    ),
                    PgType::Range { schema, name, .. } => Result::Ok(
                        borrowed_name(schema, name),
                    ),
                    PgType::Unknown(_) => Result::Err(oid),
                }
            } else {
                match node {
                    PgType::Base(tc) => {
                        if tc.copyable {
                            Result::Ok(tc.rs_type.clone())
                        } else {
                            let mut s = String::from_str("&");
                            s.append(tc.rs_type.as_str());
                            Result::Ok(s)
                        }
                    },
                    PgType::Enum { schema, name, .. } => Result::Ok(gen_type_name(schema, name)),
                    PgType::Composite { schema, name, .. } => Result::Ok(
                        borrowed_name(schema, name),
                    ),
                    PgType::Domain { base_type, .. } => {
                        proof {
                            lemma_keys_decrease(g, v0, oid);
                            lemma_push_to_set(old(visiting)@, oid);
                        }
                        visiting.push(oid);
                        proof {
                            assert(visiting@.to_set() == v0.insert(oid));
                        }
                        let r = resolve_arg_go(db, visiting, *base_type);
                        let _ = visiting.pop();
                        proof {
                            assert(visiting@ =~= old(visiting)@);
                        }
                        r
                    },
                    PgType::Array { base_type, .. } => {
                        proof {
                            lemma_keys_decrease(g, v0, oid);
                            lemma_push_to_set(old(visiting)@, oid);
                        }
                        visiting.push(oid);
                        proof {
                            assert(visiting@.to_set() == v0.insert(oid));
                        }
                        let rec = resolve_arg_go(db, visiting, *base_type);
                        let _ = visiting.pop();
                        proof {
                            assert(visiting@ =~= old(visiting)@);
                        }
                        match rec {
                            Result::Ok(inner) => {
                                let mut s = String::from_str("&[");
                                s.append(inner.as_str());
                                s.append("]");
                                Result::Ok(s)
                            },
                            Result::Err(o) => Result::Err(o),
                        }
                    },
                    PgType::Range { base_type, .. } => {
                        proof {
                            lemma_keys_decrease(g, v0, oid);
                            lemma_push_to_set(old(visiting)@, oid);
                        }
                        visiting.push(oid);
                        proof {
                            assert(visiting@.to_set() == v0.insert(oid));
                        }
                        let rec = resolve_arg_go(db, visiting, *base_type);
                        let _ = visiting.pop();
                        proof {
                            assert(visiting@ =~= old(visiting)@);
                        }
                        match rec {
                            Result::Ok(inner) => {
                                let mut s = String::from_str("&postgres_range::Range<");
                                s.append(inner.as_str());
                                s.append(">");
                                Result::Ok(s)
                            },
                            Result::Err(o) => Result::Err(o),
                        }
                    },
                    PgType::Unknown(_) => Result::Err(oid),
                }
            }
        },
    }
}

/// The generated name behind a borrow.
fn borrowed_name(schema: &String, name: &String) -> (r: String)
    ensures
        r@ == "&"@ + spec_type_name(schema@, name@),
{
    let mut s = String::from_str("&");
    let n = gen_type_name(schema, name);
    s.append(n.as_str());
    s
}

/// Return-mode resolution: always by value, composites and enums as
/// their bare generated names.
fn resolve_ret_go(db: &OidMap<PgType>, visiting: &mut Vec<Oid>, oid: Oid) -> (r: Result<
    String,
    Oid,
>)
    requires
        db.wf(),
    ensures
        final(visiting)@ == old(visiting)@,
        ({
            let s = spec_resolve_rs(
                db.deep_view(),
                old(visiting)@.to_set(),
                oid,
                ResolveMode::Return,
            );
            match r {
                Result::Ok(t) => s == Result::<Seq<char>, Oid>::Ok(t@),
                Result::Err(o) => s == Result::<Seq<char>, Oid>::Err(o),
            }
        }),
    decreases graph_keys(db.deep_view()).difference(old(visiting)@.to_set()).len(),
{
    broadcast use vstd::set::group_set_axioms;

    let ghost g = db.deep_view();
    let ghost v0 = old(visiting)@.to_set();
    match db.get(oid) {
        Option::None => Result::Err(oid),
        Option::Some(node) => {
            let cyc = vec_contains_oid(visiting, oid);
            proof {
                assert(cyc == v0.contains(oid));
            }
            if cyc {
                match node {
                    PgType::Base(tc) => Result::Ok(tc.rs_type.clone()),
                    PgType::Enum { schema, name, .. } => Result::Ok(gen_type_name(schema, name)),
                    PgType::Composite { schema, name, .. } => Result::Ok(
                        gen_type_name(schema, name),
                    ),
                    PgType::Domain { schema, name, .. } => Result::Ok(
                        gen_type_name(schema, name),
                    ),
                    PgType::Array { schema, name, .. } => Result::Ok(
                        gen_type_name(schema, name),
                    ),
                    PgType::Range { schema, name, .. } => Result::Ok(
                        gen_type_name(schema, name),
                    ),
                    PgType::Unknown(_) => Result::Err(oid),
                }
            } else {
                match node {
                    PgType::Base(tc) => Result::Ok(tc.rs_type.clone()),
                    PgType::Enum { schema, name, .. } => Result::Ok(gen_type_name(schema, name)),
                    PgType::Composite { schema, name, .. } => Result::Ok(
                        gen_type_name(schema, name),
                    ),
                    PgType::Domain { base_type, .. } => {
                        proof {
                            lemma_keys_decrease(g, v0, oid);
                            lemma_push_to_set(old(visiting)@, oid);
                        }
                        visiting.push(oid);
                        proof {
                            assert(visiting@.to_set() == v0.insert(oid));
                        }
                        let r = resolve_ret_go(db, visiting, *base_type);
                        let _ = visiting.pop();
                        proof {
                            assert(visiting@ =~= old(visiting)@);
                        }
                        r
                    },
                    PgType::Array { base_type, .. } => {
                        proof {
                            lemma_keys_decrease(g, v0, oid);
                            lemma_push_to_set(old(visiting)@, oid);
                        }
                        visiting.push(oid);
                        proof {
                            assert(visiting@.to_set() == v0.insert(oid));
                        }
                        let rec = resolve_ret_go(db, visiting, *base_type);
                        let _ = visiting.pop();
                        proof {
                            assert(visiting@ =~= old(visiting)@);
                        }
                        match rec {
                            Result::Ok(inner) => {
                                let mut s = String::from_str("Vec<");
                                s.append(inner.as_str());
                                s.append(">");
                                Result::Ok(s)
                            },
                            Result::Err(o) => Result::Err(o),
                        }
                    },
                    PgType::Range { base_type, .. } => {
                        proof {
                            lemma_keys_decrease(g, v0, oid);
                            lemma_push_to_set(old(visiting)@, oid);
                        }
                        visiting.push(oid);
                        proof {
                            assert(visiting@.to_set() == v0.insert(oid));
                        }
                        let rec = resolve_ret_go(db, visiting, *base_type);
                        let _ = visiting.pop();
                        proof {
                            assert(visiting@ =~= old(visiting)@);
                        }
                        match rec {
                            Result::Ok(inner) => {
                                let mut s = String::from_str("postgres_range::Range<");
                                s.append(inner.as_str());
                                s.append(">");
                                Result::Ok(s)
                            },
                            Result::Err(o) => Result::Err(o),
                        }
                    },
                    PgType::Unknown(_) => Result::Err(oid),
                }
            }
        },
    }
}

/// Resolve a type id for a binding argument.
pub fn resolve_arg_type(database: &OidMap<PgType>, oid: Oid) -> (r: Result<String, Oid>)
    requires
        database.wf(),
    ensures
        ({
            let s = spec_resolve_rs(
                database.deep_view(),
                Set::empty(),
                oid,
                ResolveMode::Argument,
            );
            match r {
                Result::Ok(t) => s == Result::<Seq<char>, Oid>::Ok(t@),
                Result::Err(o) => s == Result::<Seq<char>, Oid>::Err(o),
            }
        }),
{
    broadcast use vstd::set::group_set_axioms;

    let mut visiting: Vec<Oid> = Vec::new();
    proof {
        assert(visiting@.to_set() =~= Set::<Oid>::empty());
    }
    resolve_arg_go(database, &mut visiting, oid)
}

/// Resolve a type id for a binding result.
pub fn resolve_ret_type(database: &OidMap<PgType>, oid: Oid) -> (r: Result<String, Oid>)
    requires
        database.wf(),
    ensures
        ({
            let s = spec_resolve_rs(
                database.deep_view(),
                Set::empty(),
                oid,
                ResolveMode::Return,
            );
            match r {
                Result::Ok(t) => s == Result::<Seq<char>, Oid>::Ok(t@),
                Result::Err(o) => s == Result::<Seq<char>, Oid>::Err(o),
            }
        }),
{
    broadcast use vstd::set::group_set_axioms;

    let mut visiting: Vec<Oid> = Vec::new();
    proof {
        assert(visiting@.to_set() =~= Set::<Oid>::empty());
    }
    resolve_ret_go(database, &mut visiting, oid)
}

} // verus!
