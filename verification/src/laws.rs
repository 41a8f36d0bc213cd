//! The library's laws: properties of the pipeline that hold beyond the
//! per-function contracts, each stated over the specification functions
//! that those contracts use and proved here once and for all.
use vstd::prelude::*;

use crate::diag::DiagV;
use crate::oidmap::spec_get;
use crate::resolve::ResolveMode;
use crate::resolve::graph_keys;
use crate::resolve::lemma_get_in_keys;
use crate::resolve::spec_resolve;
use crate::resolve::spec_resolve_fields;
use crate::stage1::FunctionRowV;
use crate::stage1::spec_has_table;
use crate::stage1::spec_row_modes;
use crate::stage1::spec_arg_at;
use crate::types::PgArgumentMode;
use crate::stage1::spec_in_args_upto;
use crate::stage1::spec_out_args_upto;
use crate::stage1::spec_parse_function;
use crate::stage1::spec_variadic_args_upto;
use crate::stage1::spec_zip_len;
use crate::stage2::spec_emit_fns;
use crate::stage2::spec_emit_types;
use crate::stage2::spec_fresh;
use crate::stage2::spec_variant;
use crate::stage2::spec_variants;
use crate::types::Oid;
use crate::types::PgFieldV;
use crate::types::PgFunctionV;
use crate::types::PgReturnV;
use crate::types::PgTypeV;

verus! {

// ---------------------------------------------------------------------------
// Every omission leaves exactly one diagnostic
// ---------------------------------------------------------------------------

/// Entries that the emitter declares: enums and composites. Everything
/// else in the graph exists only to be referenced.
pub open spec fn spec_declarable(node: PgTypeV) -> bool {
    node is Enum || node is Composite
}

pub open spec fn spec_declarable_count(entries: Seq<(Oid, PgTypeV)>) -> nat
    decreases entries.len(),
{
    if entries.len() == 0 {
        0
    } else {
        (if spec_declarable(entries[0].1) {
            1nat
        } else {
            0nat
        }) + spec_declarable_count(entries.skip(1))
    }
}

/// Every declarable graph entry becomes exactly one of: a declaration,
/// or one diagnostic. In particular, a type id promised by the seed
/// pass but never materialized fails each entity that references it
/// with one diagnostic per omission, never more.
pub proof fn lemma_one_diagnostic_per_type_omission(
    g: Seq<(Oid, PgTypeV)>,
    entries: Seq<(Oid, PgTypeV)>,
    used: Seq<Seq<char>>,
)
    ensures
        spec_emit_types(g, entries, used).0.len() + spec_emit_types(g, entries, used).1.len()
            == spec_declarable_count(entries),
    decreases entries.len(),
{
    if entries.len() > 0 {
        let node = entries[0].1;
        match node {
            PgTypeV::Enum { schema, name, values } => {
                let nm = crate::names::spec_type_name(schema, name);
                if used.contains(nm) {
                    lemma_one_diagnostic_per_type_omission(g, entries.skip(1), used);
                } else {
                    lemma_one_diagnostic_per_type_omission(g, entries.skip(1), used.push(nm));
                }
            },
            PgTypeV::Composite { schema, name, is_table, is_view, fields } => {
                let nm = crate::names::spec_type_name(schema, name);
                if used.contains(nm) {
                    lemma_one_diagnostic_per_type_omission(g, entries.skip(1), used);
                } else {
                    match crate::stage2::spec_composite_plan(
                        g,
                        schema,
                        name,
                        is_table,
                        is_view,
                        fields,
                    ) {
                        Result::Ok(_) => {
                            lemma_one_diagnostic_per_type_omission(
                                g,
                                entries.skip(1),
                                used.push(nm),
                            );
                        },
                        Result::Err(_) => {
                            lemma_one_diagnostic_per_type_omission(g, entries.skip(1), used);
                        },
                    }
                }
            },
            _ => {
                lemma_one_diagnostic_per_type_omission(g, entries.skip(1), used);
            },
        }
    }
}

/// Every catalog signature becomes exactly one of: a binding, or one
/// diagnostic.
pub proof fn lemma_one_diagnostic_per_binding_omission(
    g: Seq<(Oid, PgTypeV)>,
    entries: Seq<(Oid, PgFunctionV)>,
    used: Seq<Seq<char>>,
)
    ensures
        spec_emit_fns(g, entries, used).0.len() + spec_emit_fns(g, entries, used).1.len()
            == entries.len(),
    decreases entries.len(),
{
    if entries.len() > 0 {
        let f = entries[0].1;
        let nm = crate::names::spec_function_name(f.schema, f.name);
        if used.contains(nm) {
            lemma_one_diagnostic_per_binding_omission(g, entries.skip(1), used);
        } else {
            match crate::stage2::spec_fn_plan(g, f) {
                Result::Ok(_) => {
                    lemma_one_diagnostic_per_binding_omission(g, entries.skip(1), used.push(nm));
                },
                Result::Err(_) => {
                    lemma_one_diagnostic_per_binding_omission(g, entries.skip(1), used);
                },
            }
        }
    }
}

// ---------------------------------------------------------------------------
// Array and range wrapping
// ---------------------------------------------------------------------------

/// Array wrapping never yields a copyable representation, whatever the
/// element's capability, in every mode and under every resolving set.
pub proof fn lemma_array_never_copyable(
    g: Seq<(Oid, PgTypeV)>,
    v: Set<Oid>,
    oid: Oid,
    m: ResolveMode,
)
    requires
        spec_get(g, oid) is Some,
        spec_get(g, oid).unwrap() is Array,
        spec_resolve(g, v, oid, m) is Ok,
    ensures
        !spec_resolve(g, v, oid, m).unwrap().copyable,
{
}

/// Range wrapping never yields a serializable representation, whatever
/// the element's capability, in every mode and under every resolving
/// set.
pub proof fn lemma_range_never_serializable(
    g: Seq<(Oid, PgTypeV)>,
    v: Set<Oid>,
    oid: Oid,
    m: ResolveMode,
)
    requires
        spec_get(g, oid) is Some,
        spec_get(g, oid).unwrap() is Range,
        spec_resolve(g, v, oid, m) is Ok,
    ensures
        !spec_resolve(g, v, oid, m).unwrap().serializable,
{
}

// ---------------------------------------------------------------------------
// Capability propagation is conjunctive
// ---------------------------------------------------------------------------

/// A field walk that succeeds resolves every field, and its flags are
/// the conjunctions over all fields: the composite is copyable or
/// serializable exactly when every field is.
pub proof fn lemma_capability_conjunctive(g: Seq<(Oid, PgTypeV)>, v: Set<Oid>, fields: Seq<PgFieldV>)
    requires
        spec_resolve_fields(g, v, fields) is Ok,
    ensures
        forall|i: int| #![all_triggers]
            0 <= i < fields.len() ==> spec_resolve(g, v, fields[i].typ, ResolveMode::Field)
                is Ok,
        spec_resolve_fields(g, v, fields).unwrap().0 <==> (forall|i: int| #![all_triggers]
            0 <= i < fields.len() ==> spec_resolve(
                g,
                v,
                fields[i].typ,
                ResolveMode::Field,
            ).unwrap().copyable),
        spec_resolve_fields(g, v, fields).unwrap().1 <==> (forall|i: int| #![all_triggers]
            0 <= i < fields.len() ==> spec_resolve(
                g,
                v,
                fields[i].typ,
                ResolveMode::Field,
            ).unwrap().serializable),
    decreases fields.len(),
{
    if fields.len() > 0 {
        lemma_capability_conjunctive(g, v, fields.skip(1));
        assert forall|i: int| 0 <= i < fields.len() implies spec_resolve(
            g,
            v,
            fields[i].typ,
            ResolveMode::Field,
        ) is Ok by {
            if i > 0 {
                assert(fields.skip(1)[i - 1] == fields[i]);
            }
        }
        let rest = fields.skip(1);
        if spec_resolve_fields(g, v, fields).unwrap().0 {
            assert forall|i: int| 0 <= i < fields.len() implies spec_resolve(
                g,
                v,
                fields[i].typ,
                ResolveMode::Field,
            ).unwrap().copyable by {
                if i > 0 {
                    assert(rest[i - 1] == fields[i]);
                }
            }
        } else {
            if !spec_resolve(g, v, fields[0].typ, ResolveMode::Field).unwrap().copyable {
            } else {
                let j = choose|j: int|
                    0 <= j < rest.len() && !spec_resolve(
                        g,
                        v,
                        rest[j].typ,
                        ResolveMode::Field,
                    ).unwrap().copyable;
                assert(fields[j + 1] == rest[j]);
            }
        }
        if spec_resolve_fields(g, v, fields).unwrap().1 {
            assert forall|i: int| 0 <= i < fields.len() implies spec_resolve(
                g,
                v,
                fields[i].typ,
                ResolveMode::Field,
            ).unwrap().serializable by {
                if i > 0 {
                    assert(rest[i - 1] == fields[i]);
                }
            }
        } else {
            if !spec_resolve(g, v, fields[0].typ, ResolveMode::Field).unwrap().serializable {
            } else {
                let j = choose|j: int|
                    0 <= j < rest.len() && !spec_resolve(
                        g,
                        v,
                        rest[j].typ,
                        ResolveMode::Field,
                    ).unwrap().serializable;
                assert(fields[j + 1] == rest[j]);
            }
        }
    }
}

// ---------------------------------------------------------------------------
// Variadic arguments come last; a table argument forces a set result
// ---------------------------------------------------------------------------

pub proof fn lemma_in_args_plain(r: FunctionRowV, n: int)
    ensures
        forall|i: int| #![all_triggers]
            0 <= i < spec_in_args_upto(r, n).len() ==> !spec_in_args_upto(r, n)[i].is_variadic,
    decreases n,
{
    if n > 0 {
        lemma_in_args_plain(r, n - 1);
        let rest = spec_in_args_upto(r, n - 1);
        let cur = spec_in_args_upto(r, n);
        assert forall|i: int| 0 <= i < cur.len() implies !cur[i].is_variadic by {
            if spec_row_modes(r)[n - 1] == PgArgumentMode::In {
                if i < rest.len() {
                    assert(cur[i] == rest[i]);
                } else {
                    assert(cur[i] == spec_arg_at(r, n - 1));
                }
            } else {
                assert(cur == rest);
            }
        }
    }
}

pub proof fn lemma_variadic_args_variadic(r: FunctionRowV, n: int)
    ensures
        forall|i: int| #![all_triggers]
            0 <= i < spec_variadic_args_upto(r, n).len() ==> spec_variadic_args_upto(
                r,
                n,
            )[i].is_variadic,
    decreases n,
{
    if n > 0 {
        lemma_variadic_args_variadic(r, n - 1);
        let rest = spec_variadic_args_upto(r, n - 1);
        let cur = spec_variadic_args_upto(r, n);
        assert forall|i: int| 0 <= i < cur.len() implies cur[i].is_variadic by {
            if spec_row_modes(r)[n - 1] == PgArgumentMode::Variadic {
                if i < rest.len() {
                    assert(cur[i] == rest[i]);
                } else {
                    assert(cur[i] == spec_arg_at(r, n - 1));
                }
            } else {
                assert(cur == rest);
            }
        }
    }
}

/// In an accepted signature, every variadic argument stands after every
/// plain "in" argument, whatever their positions in the catalog arrays:
/// once a variadic argument appears, everything after it is variadic.
pub proof fn lemma_variadic_after_plain(row: FunctionRowV)
    requires
        spec_parse_function(row) is Ok,
    ensures
        forall|i: int, j: int| #![all_triggers]
            0 <= i < j < spec_parse_function(row)->Ok_0.1.arguments.len()
                && spec_parse_function(row)->Ok_0.1.arguments[i].is_variadic
                ==> spec_parse_function(row)->Ok_0.1.arguments[j].is_variadic,
{
    let args = spec_parse_function(row)->Ok_0.1.arguments;
    let zl = spec_zip_len(row);
    let ins = spec_in_args_upto(row, zl);
    let vars = spec_variadic_args_upto(row, zl);
    lemma_in_args_plain(row, zl);
    lemma_variadic_args_variadic(row, zl);
    assert forall|i: int, j: int|
        0 <= i < j < args.len() && args[i].is_variadic implies args[j].is_variadic by {
        assert(args == ins + vars);
        if i < ins.len() {
            assert(args[i] == ins[i]);
            assert(!args[i].is_variadic);
        } else {
            assert(j >= ins.len());
            assert(args[j] == vars[j - ins.len()]);
        }
    }
}

/// A table-mode argument forces the signature's effective set-returning
/// flag, even when the declared flag was false.
pub proof fn lemma_table_forces_set(row: FunctionRowV)
    requires
        spec_parse_function(row) is Ok,
        spec_has_table(row),
    ensures
        spec_parse_function(row)->Ok_0.1.returns_set,
{
}

// ---------------------------------------------------------------------------
// Identifier round trip
// ---------------------------------------------------------------------------

/// A candidate that collides with nothing is kept as it stands.
pub proof fn lemma_fresh_untouched(cand: Seq<char>, used: Seq<Seq<char>>)
    requires
        !used.contains(cand),
    ensures
        spec_fresh(cand, used) == cand,
{
}

/// Every generated enum variant round-trips: a variant carries no
/// original-text mapping exactly when its tag is the literal catalog
/// spelling, and a mapping, where present, holds that spelling. In
/// particular a value already in target casing, colliding with
/// nothing, keeps its text with no mapping.
pub proof fn lemma_variant_round_trip(values: Seq<Seq<char>>, used: Seq<Seq<char>>)
    ensures
        spec_variants(values, used).len() == values.len(),
        forall|i: int| #![all_triggers]
            0 <= i < values.len() ==> ((spec_variants(values, used)[i].pg_name is None
                <==> spec_variants(values, used)[i].tag == values[i]) && (spec_variants(
                values,
                used,
            )[i].pg_name is Some ==> spec_variants(values, used)[i].pg_name.unwrap()
                == values[i])),
    decreases values.len(),
{
    if values.len() > 0 {
        let v0 = spec_variant(values[0], used);
        lemma_variant_round_trip(values.skip(1), used.push(v0.tag));
        let all = spec_variants(values, used);
        let rest = spec_variants(values.skip(1), used.push(v0.tag));
        assert forall|i: int|
            0 <= i < values.len() implies ((all[i].pg_name is None <==> all[i].tag == values[i])
            && (all[i].pg_name is Some ==> all[i].pg_name.unwrap() == values[i])) by {
            if i == 0 {
                assert(all[0] == v0);
            } else {
                assert(all[i] == rest[i - 1]);
                assert(values.skip(1)[i - 1] == values[i]);
            }
        }
    }
}

// ---------------------------------------------------------------------------
// Domain resolution is transparent
// ---------------------------------------------------------------------------

/// The type ids a node references.
pub open spec fn refs_of(node: PgTypeV) -> Set<Oid> {
    match node {
        PgTypeV::Composite { fields, .. } => Set::new(
            |o: Oid| exists|i: int| 0 <= i < fields.len() && fields[i].typ == o,
        ),
        PgTypeV::Domain { base_type, .. } => Set::empty().insert(base_type),
        PgTypeV::Array { base_type, .. } => Set::empty().insert(base_type),
        PgTypeV::Range { base_type, .. } => Set::empty().insert(base_type),
        _ => Set::empty(),
    }
}

/// A rank witness orders the graph: every reference held by the graph
/// strictly descends. A graph with such a witness has no reference
/// cycle, so resolution never takes the re-entry short-circuit.
pub open spec fn rank_ok(g: Seq<(Oid, PgTypeV)>, r: Map<Oid, nat>) -> bool {
    &&& forall|k: Oid| graph_keys(g).contains(k) ==> #[trigger] r.dom().contains(k)
    &&& forall|k: Oid, k2: Oid| #![all_triggers]
        graph_keys(g).contains(k) && graph_keys(g).contains(k2) && refs_of(
            spec_get(g, k).unwrap(),
        ).contains(k2) ==> r[k2] < r[k]
}

/// On a ranked graph, resolution does not depend on the "currently
/// resolving" set, as long as the set holds only ids of strictly higher
/// rank — in particular ids on the walk down to this one.
pub proof fn lemma_resolve_visiting_irrelevant(
    g: Seq<(Oid, PgTypeV)>,
    r: Map<Oid, nat>,
    v1: Set<Oid>,
    v2: Set<Oid>,
    oid: Oid,
    m: ResolveMode,
)
    requires
        rank_ok(g, r),
        forall|x: Oid| #![all_triggers]
            v1.contains(x) && graph_keys(g).contains(x) && graph_keys(g).contains(oid)
                ==> r[x] > r[oid],
        forall|x: Oid| #![all_triggers]
            v2.contains(x) && graph_keys(g).contains(x) && graph_keys(g).contains(oid)
                ==> r[x] > r[oid],
    ensures
        spec_resolve(g, v1, oid, m) == spec_resolve(g, v2, oid, m),
    decreases (if graph_keys(g).contains(oid) {
        r[oid] + 1
    } else {
        0
    }), 1int, 0int,
{
    lemma_get_in_keys(g, oid);
    match spec_get(g, oid) {
        Option::None => {},
        Option::Some(node) => {
            assert(graph_keys(g).contains(oid));
            assert(!v1.contains(oid));
            assert(!v2.contains(oid));
            match node {
                PgTypeV::Composite { fields, .. } => {
                    if m == ResolveMode::Field {
                        assert forall|i: int|
                            0 <= i < fields.len() && graph_keys(g).contains(
                                fields[i].typ,
                            ) implies r[fields[i].typ] < r[oid] by {
                            assert(refs_of(node).contains(fields[i].typ));
                        }
                        assert forall|x: Oid|
                            v1.insert(oid).contains(x) && graph_keys(g).contains(
                                x,
                            ) implies r[x] >= r[oid] by {}
                        assert forall|x: Oid|
                            v2.insert(oid).contains(x) && graph_keys(g).contains(
                                x,
                            ) implies r[x] >= r[oid] by {}
                        lemma_fields_irrelevant(
                            g,
                            r,
                            v1.insert(oid),
                            v2.insert(oid),
                            fields,
                            r[oid],
                        );
                    }
                },
                PgTypeV::Domain { base_type, .. } => {
                    lemma_step_irrelevant(g, r, v1, v2, oid, base_type, node, m);
                },
                PgTypeV::Array { base_type, .. } => {
                    lemma_step_irrelevant(g, r, v1, v2, oid, base_type, node, m);
                },
                PgTypeV::Range { base_type, .. } => {
                    lemma_step_irrelevant(g, r, v1, v2, oid, base_type, node, m);
                },
                _ => {},
            }
        },
    }
}

/// One descent through a wrapping node: the recursive resolution of the
/// referenced id is independent of the resolving set.
proof fn lemma_step_irrelevant(
    g: Seq<(Oid, PgTypeV)>,
    r: Map<Oid, nat>,
    v1: Set<Oid>,
    v2: Set<Oid>,
    oid: Oid,
    base_type: Oid,
    node: PgTypeV,
    m: ResolveMode,
)
    requires
        rank_ok(g, r),
        graph_keys(g).contains(oid),
        spec_get(g, oid) == Option::Some(node),
        refs_of(node).contains(base_type),
        forall|x: Oid| #![all_triggers]
            v1.contains(x) && graph_keys(g).contains(x) ==> r[x] > r[oid],
        forall|x: Oid| #![all_triggers]
            v2.contains(x) && graph_keys(g).contains(x) ==> r[x] > r[oid],
    ensures
        spec_resolve(g, v1.insert(oid), base_type, m) == spec_resolve(
            g,
            v2.insert(oid),
            base_type,
            m,
        ),
    decreases (r[oid] + 1), 0int, 0int,
{
    if graph_keys(g).contains(base_type) {
        assert(r[base_type] < r[oid]);
    }
    assert forall|x: Oid|
        v1.insert(oid).contains(x) && graph_keys(g).contains(x) && graph_keys(g).contains(
            base_type,
        ) implies r[x] > r[base_type] by {
        if x != oid {
            assert(r[x] > r[oid]);
        }
    }
    assert forall|x: Oid|
        v2.insert(oid).contains(x) && graph_keys(g).contains(x) && graph_keys(g).contains(
            base_type,
        ) implies r[x] > r[base_type] by {
        if x != oid {
            assert(r[x] > r[oid]);
        }
    }
    lemma_resolve_visiting_irrelevant(g, r, v1.insert(oid), v2.insert(oid), base_type, m);
}

/// Field walks are likewise independent of the resolving set, as long
/// as the set stays above every field type's rank.
proof fn lemma_fields_irrelevant(
    g: Seq<(Oid, PgTypeV)>,
    r: Map<Oid, nat>,
    v1: Set<Oid>,
    v2: Set<Oid>,
    fields: Seq<PgFieldV>,
    b: nat,
)
    requires
        rank_ok(g, r),
        forall|i: int| #![all_triggers]
            0 <= i < fields.len() && graph_keys(g).contains(fields[i].typ) ==> r[fields[i].typ]
                < b,
        forall|x: Oid| #![all_triggers]
            v1.contains(x) && graph_keys(g).contains(x) ==> r[x] >= b,
        forall|x: Oid| #![all_triggers]
            v2.contains(x) && graph_keys(g).contains(x) ==> r[x] >= b,
    ensures
        spec_resolve_fields(g, v1, fields) == spec_resolve_fields(g, v2, fields),
    decreases b, 2int, fields.len(),
{
    if fields.len() > 0 {
        let t = fields[0].typ;
        assert forall|x: Oid|
            v1.contains(x) && graph_keys(g).contains(x) && graph_keys(g).contains(
                t,
            ) implies r[x] > r[t] by {
            assert(r[t] < b);
        }
        assert forall|x: Oid|
            v2.contains(x) && graph_keys(g).contains(x) && graph_keys(g).contains(
                t,
            ) implies r[x] > r[t] by {
            assert(r[t] < b);
        }
        lemma_resolve_visiting_irrelevant(g, r, v1, v2, t, ResolveMode::Field);
        assert forall|i: int|
            0 <= i < fields.skip(1).len() && graph_keys(g).contains(
                fields.skip(1)[i].typ,
            ) implies r[fields.skip(1)[i].typ] < b by {
            assert(fields.skip(1)[i] == fields[i + 1]);
        }
        lemma_fields_irrelevant(g, r, v1, v2, fields.skip(1), b);
    }
}

/// The base a domain aliases, if the node is a domain.
pub open spec fn spec_domain_base(node: PgTypeV) -> Option<Oid> {
    match node {
        PgTypeV::Domain { base_type, .. } => Option::Some(base_type),
        _ => Option::None,
    }
}

/// Domain resolution is transparent: on a ranked (cycle-free) graph,
/// resolving a domain equals resolving its base directly, in every
/// mode.
pub proof fn lemma_domain_transparent(
    g: Seq<(Oid, PgTypeV)>,
    r: Map<Oid, nat>,
    d: Oid,
    m: ResolveMode,
)
    requires
        rank_ok(g, r),
        spec_get(g, d) is Some,
        spec_domain_base(spec_get(g, d).unwrap()) is Some,
    ensures
        spec_resolve(g, Set::empty(), d, m) == spec_resolve(
            g,
            Set::empty(),
            spec_domain_base(spec_get(g, d).unwrap()).unwrap(),
            m,
        ),
{
    let node = spec_get(g, d).unwrap();
    let b = spec_domain_base(node).unwrap();
    lemma_get_in_keys(g, d);
    assert(!Set::<Oid>::empty().contains(d));
    assert(spec_resolve(g, Set::empty(), d, m) == spec_resolve(
        g,
        Set::<Oid>::empty().insert(d),
        b,
        m,
    ));
    assert(refs_of(node).contains(b));
    assert forall|x: Oid|
        Set::<Oid>::empty().insert(d).contains(x) && graph_keys(g).contains(x) && graph_keys(
            g,
        ).contains(b) implies r[x] > r[b] by {
        assert(x == d);
    }
    lemma_resolve_visiting_irrelevant(g, r, Set::<Oid>::empty().insert(d), Set::empty(), b, m);
}

/// The fields of a composite node.
pub open spec fn node_fields(node: PgTypeV) -> Seq<PgFieldV> {
    match node {
        PgTypeV::Composite { fields, .. } => fields,
        _ => Seq::empty(),
    }
}

/// Capability propagation is transitive: on a ranked graph, a field
/// whose resolved copy flag is false makes its composite's flag false —
/// and through this lemma applied again, any composite embedding it.
pub proof fn lemma_capability_transitive(
    g: Seq<(Oid, PgTypeV)>,
    r: Map<Oid, nat>,
    d: Oid,
    i: int,
)
    requires
        rank_ok(g, r),
        spec_get(g, d) is Some,
        spec_get(g, d).unwrap() is Composite,
        0 <= i < node_fields(spec_get(g, d).unwrap()).len(),
        spec_resolve(
            g,
            Set::empty(),
            node_fields(spec_get(g, d).unwrap())[i].typ,
            ResolveMode::Field,
        ) is Ok,
        !spec_resolve(
            g,
            Set::empty(),
            node_fields(spec_get(g, d).unwrap())[i].typ,
            ResolveMode::Field,
        ).unwrap().copyable,
        spec_resolve(g, Set::empty(), d, ResolveMode::Field) is Ok,
    ensures
        !spec_resolve(g, Set::empty(), d, ResolveMode::Field).unwrap().copyable,
{
    let node = spec_get(g, d).unwrap();
    let fields = node_fields(node);
    let c = fields[i].typ;
    lemma_get_in_keys(g, d);
    assert(!Set::<Oid>::empty().contains(d));
    let vd = Set::<Oid>::empty().insert(d);
    assert(spec_resolve_fields(g, vd, fields) is Ok);
    lemma_capability_conjunctive(g, vd, fields);
    assert forall|x: Oid|
        vd.contains(x) && graph_keys(g).contains(x) && graph_keys(g).contains(
            c,
        ) implies r[x] > r[c] by {
        assert(x == d);
        assert(refs_of(node).contains(c));
    }
    lemma_resolve_visiting_irrelevant(g, r, vd, Set::empty(), c, ResolveMode::Field);
    assert(!spec_resolve(g, vd, c, ResolveMode::Field).unwrap().copyable);
    assert(!spec_resolve_fields(g, vd, fields).unwrap().0);
}

// ---------------------------------------------------------------------------
// Omission is per referrer: a failing entity is omitted with its own
// diagnostic; everything else is emitted unchanged
// ---------------------------------------------------------------------------

/// The schema of a named node.
pub open spec fn node_schema(node: PgTypeV) -> Seq<char> {
    match node {
        PgTypeV::Enum { schema, .. } => schema,
        PgTypeV::Composite { schema, .. } => schema,
        PgTypeV::Domain { schema, .. } => schema,
        PgTypeV::Array { schema, .. } => schema,
        PgTypeV::Range { schema, .. } => schema,
        _ => Seq::empty(),
    }
}

/// The catalog name of a named node.
pub open spec fn node_name(node: PgTypeV) -> Seq<char> {
    match node {
        PgTypeV::Enum { name, .. } => name,
        PgTypeV::Composite { name, .. } => name,
        PgTypeV::Domain { name, .. } => name,
        PgTypeV::Array { name, .. } => name,
        PgTypeV::Range { name, .. } => name,
        PgTypeV::Unknown(name) => name,
        _ => Seq::empty(),
    }
}

/// The values of an enum node.
pub open spec fn node_values(node: PgTypeV) -> Seq<Seq<char>> {
    match node {
        PgTypeV::Enum { values, .. } => values,
        _ => Seq::empty(),
    }
}

pub open spec fn node_is_table(node: PgTypeV) -> bool {
    match node {
        PgTypeV::Composite { is_table, .. } => is_table,
        _ => false,
    }
}

pub open spec fn node_is_view(node: PgTypeV) -> bool {
    match node {
        PgTypeV::Composite { is_view, .. } => is_view,
        _ => false,
    }
}

/// The generated identifier of a declarable entry.
pub open spec fn spec_entry_type_name(node: PgTypeV) -> Seq<char> {
    crate::names::spec_type_name(node_schema(node), node_name(node))
}

/// A composite entry's declaration plan, or the id its fields fail on.
pub open spec fn spec_composite_outcome(g: Seq<(Oid, PgTypeV)>, node: PgTypeV) -> Result<
    crate::stage2::RsStructPlanV,
    Oid,
> {
    crate::stage2::spec_composite_plan(
        g,
        node_schema(node),
        node_name(node),
        node_is_table(node),
        node_is_view(node),
        node_fields(node),
    )
}

proof fn lemma_push_not_contains<A>(s: Seq<A>, x: A, y: A)
    requires
        !s.contains(y),
        x != y,
    ensures
        !s.push(x).contains(y),
{
    if s.push(x).contains(y) {
        let i = choose|i: int| 0 <= i < s.push(x).len() && s.push(x)[i] == y;
        if i < s.len() {
            assert(s[i] == y);
        }
    }
}

proof fn lemma_concat_contains_right<A>(a: Seq<A>, b: Seq<A>, x: A)
    requires
        b.contains(x),
    ensures
        (a + b).contains(x),
{
    let i = choose|i: int| 0 <= i < b.len() && b[i] == x;
    assert((a + b)[a.len() + i] == x);
}

/// Generated names being pairwise distinct (and fresh against the taken
/// set), a composite whose fields fail resolution — in particular one
/// referencing a type id absent from the graph — is omitted with its
/// own unresolved-type diagnostic, naming the entity and the failing
/// id.
pub proof fn lemma_failed_referrer_omitted(
    g: Seq<(Oid, PgTypeV)>,
    entries: Seq<(Oid, PgTypeV)>,
    used: Seq<Seq<char>>,
    k: int,
)
    requires
        0 <= k < entries.len(),
        entries[k].1 is Composite,
        spec_composite_outcome(g, entries[k].1) is Err,
        !used.contains(spec_entry_type_name(entries[k].1)),
        forall|j: int| #![all_triggers]
            0 <= j < entries.len() && j != k && spec_declarable(entries[j].1)
                ==> spec_entry_type_name(entries[j].1) != spec_entry_type_name(entries[k].1),
    ensures
        spec_emit_types(g, entries, used).1.contains(
            DiagV::UnresolvedType {
                schema: node_schema(entries[k].1),
                name: node_name(entries[k].1),
                typ: spec_composite_outcome(g, entries[k].1)->Err_0,
            },
        ),
    decreases entries.len(),
{
    let node = entries[k].1;
    let target = DiagV::UnresolvedType {
        schema: node_schema(node),
        name: node_name(node),
        typ: spec_composite_outcome(g, node)->Err_0,
    };
    if k == 0 {
        let rest = spec_emit_types(g, entries.skip(1), used);
        assert((seq![target] + rest.1)[0] == target);
    } else {
        let head = entries[0].1;
        let rest_entries = entries.skip(1);
        assert(rest_entries[k - 1] == entries[k]);
        assert forall|j: int|
            0 <= j < rest_entries.len() && j != k - 1 && spec_declarable(
                rest_entries[j].1,
            ) implies spec_entry_type_name(rest_entries[j].1) != spec_entry_type_name(
            rest_entries[k - 1].1,
        ) by {
            assert(rest_entries[j] == entries[j + 1]);
        }
        match head {
            PgTypeV::Enum { schema, name, values } => {
                let nm = crate::names::spec_type_name(schema, name);
                if used.contains(nm) {
                    lemma_failed_referrer_omitted(g, rest_entries, used, k - 1);
                    lemma_concat_contains_right(
                        seq![
                            DiagV::NameCollision { schema: schema, name: name, ident: nm },
                        ],
                        spec_emit_types(g, rest_entries, used).1,
                        target,
                    );
                } else {
                    assert(spec_declarable(entries[0].1));
                    assert(nm == spec_entry_type_name(entries[0].1));
                    lemma_push_not_contains(used, nm, spec_entry_type_name(node));
                    lemma_failed_referrer_omitted(g, rest_entries, used.push(nm), k - 1);
                }
            },
            PgTypeV::Composite { schema, name, is_table, is_view, fields } => {
                let nm = crate::names::spec_type_name(schema, name);
                if used.contains(nm) {
                    lemma_failed_referrer_omitted(g, rest_entries, used, k - 1);
                    lemma_concat_contains_right(
                        seq![
                            DiagV::NameCollision { schema: schema, name: name, ident: nm },
                        ],
                        spec_emit_types(g, rest_entries, used).1,
                        target,
                    );
                } else {
                    assert(spec_declarable(entries[0].1));
                    assert(nm == spec_entry_type_name(entries[0].1));
                    lemma_push_not_contains(used, nm, spec_entry_type_name(node));
                    match crate::stage2::spec_composite_plan(
                        g,
                        schema,
                        name,
                        is_table,
                        is_view,
                        fields,
                    ) {
                        Result::Ok(_) => {
                            lemma_failed_referrer_omitted(g, rest_entries, used.push(nm), k - 1);
                        },
                        Result::Err(o) => {
                            lemma_failed_referrer_omitted(g, rest_entries, used, k - 1);
                            lemma_concat_contains_right(
                                seq![
                                    DiagV::UnresolvedType {
                                        schema: schema,
                                        name: name,
                                        typ: o,
                                    },
                                ],
                                spec_emit_types(g, rest_entries, used).1,
                                target,
                            );
                        },
                    }
                }
            },
            _ => {
                lemma_failed_referrer_omitted(g, rest_entries, used, k - 1);
            },
        }
    }
}

/// The complement: under the same distinctness, an enum entry, or a
/// composite entry whose fields all resolve, is emitted unchanged —
/// its declaration plan stands among the emitted plans.
pub proof fn lemma_sound_entry_emitted(
    g: Seq<(Oid, PgTypeV)>,
    entries: Seq<(Oid, PgTypeV)>,
    used: Seq<Seq<char>>,
    k: int,
)
    requires
        0 <= k < entries.len(),
        spec_declarable(entries[k].1),
        entries[k].1 is Composite ==> spec_composite_outcome(g, entries[k].1) is Ok,
        !used.contains(spec_entry_type_name(entries[k].1)),
        forall|j: int| #![all_triggers]
            0 <= j < entries.len() && j != k && spec_declarable(entries[j].1)
                ==> spec_entry_type_name(entries[j].1) != spec_entry_type_name(entries[k].1),
    ensures
        entries[k].1 is Enum ==> spec_emit_types(g, entries, used).0.contains(
            crate::stage2::RsTypePlanV::Enum(
                crate::stage2::spec_enum_plan(
                    node_schema(entries[k].1),
                    node_name(entries[k].1),
                    node_values(entries[k].1),
                ),
            ),
        ),
        entries[k].1 is Composite ==> spec_emit_types(g, entries, used).0.contains(
            crate::stage2::RsTypePlanV::Struct(spec_composite_outcome(g, entries[k].1)->Ok_0),
        ),
    decreases entries.len(),
{
    let node = entries[k].1;
    if k == 0 {
        match node {
            PgTypeV::Enum { schema, name, values } => {
                let nm = crate::names::spec_type_name(schema, name);
                let rest = spec_emit_types(g, entries.skip(1), used.push(nm));
                let plan = crate::stage2::RsTypePlanV::Enum(
                    crate::stage2::spec_enum_plan(schema, name, values),
                );
                assert((seq![plan] + rest.0)[0] == plan);
            },
            PgTypeV::Composite { schema, name, is_table, is_view, fields } => {
                let nm = crate::names::spec_type_name(schema, name);
                let p = crate::stage2::spec_composite_plan(
                    g,
                    schema,
                    name,
                    is_table,
                    is_view,
                    fields,
                )->Ok_0;
                let rest = spec_emit_types(g, entries.skip(1), used.push(nm));
                let plan = crate::stage2::RsTypePlanV::Struct(p);
                assert((seq![plan] + rest.0)[0] == plan);
            },
            _ => {},
        }
    } else {
        let head = entries[0].1;
        let rest_entries = entries.skip(1);
        assert(rest_entries[k - 1] == entries[k]);
        assert forall|j: int|
            0 <= j < rest_entries.len() && j != k - 1 && spec_declarable(
                rest_entries[j].1,
            ) implies spec_entry_type_name(rest_entries[j].1) != spec_entry_type_name(
            rest_entries[k - 1].1,
        ) by {
            assert(rest_entries[j] == entries[j + 1]);
        }
        match head {
            PgTypeV::Enum { schema, name, values } => {
                let nm = crate::names::spec_type_name(schema, name);
                if used.contains(nm) {
                    lemma_sound_entry_emitted(g, rest_entries, used, k - 1);
                } else {
                    assert(spec_declarable(entries[0].1));
                    assert(nm == spec_entry_type_name(entries[0].1));
                    lemma_push_not_contains(used, nm, spec_entry_type_name(node));
                    lemma_sound_entry_emitted(g, rest_entries, used.push(nm), k - 1);
                    let rest = spec_emit_types(g, rest_entries, used.push(nm));
                    let head_plan = crate::stage2::RsTypePlanV::Enum(
                        crate::stage2::spec_enum_plan(schema, name, values),
                    );
                    if node is Enum {
                        lemma_concat_contains_right(
                            seq![head_plan],
                            rest.0,
                            crate::stage2::RsTypePlanV::Enum(
                                crate::stage2::spec_enum_plan(
                                    node_schema(node),
                                    node_name(node),
                                    node_values(node),
                                ),
                            ),
                        );
                    } else {
                        lemma_concat_contains_right(
                            seq![head_plan],
                            rest.0,
                            crate::stage2::RsTypePlanV::Struct(
                                spec_composite_outcome(g, node)->Ok_0,
                            ),
                        );
                    }
                }
            },
            PgTypeV::Composite { schema, name, is_table, is_view, fields } => {
                let nm = crate::names::spec_type_name(schema, name);
                if used.contains(nm) {
                    lemma_sound_entry_emitted(g, rest_entries, used, k - 1);
                } else {
                    assert(spec_declarable(entries[0].1));
                    assert(nm == spec_entry_type_name(entries[0].1));
                    lemma_push_not_contains(used, nm, spec_entry_type_name(node));
                    match crate::stage2::spec_composite_plan(
                        g,
                        schema,
                        name,
                        is_table,
                        is_view,
                        fields,
                    ) {
                        Result::Ok(p) => {
                            lemma_sound_entry_emitted(g, rest_entries, used.push(nm), k - 1);
                            let rest = spec_emit_types(g, rest_entries, used.push(nm));
                            let head_plan = crate::stage2::RsTypePlanV::Struct(p);
                            if node is Enum {
                                lemma_concat_contains_right(
                                    seq![head_plan],
                                    rest.0,
                                    crate::stage2::RsTypePlanV::Enum(
                                        crate::stage2::spec_enum_plan(
                                            node_schema(node),
                                            node_name(node),
                                            node_values(node),
                                        ),
                                    ),
                                );
                            } else {
                                lemma_concat_contains_right(
                                    seq![head_plan],
                                    rest.0,
                                    crate::stage2::RsTypePlanV::Struct(
                                        spec_composite_outcome(g, node)->Ok_0,
                                    ),
                                );
                            }
                        },
                        Result::Err(_) => {
                            lemma_sound_entry_emitted(g, rest_entries, used, k - 1);
                        },
                    }
                }
            },
            _ => {
                lemma_sound_entry_emitted(g, rest_entries, used, k - 1);
            },
        }
    }
}

/// The generated identifier of a catalog signature.
pub open spec fn spec_entry_fn_name(f: PgFunctionV) -> Seq<char> {
    crate::names::spec_function_name(f.schema, f.name)
}

/// Generated names being pairwise distinct and fresh, a signature whose
/// binding cannot be generated — in particular one whose argument or
/// return type is absent from the graph — is omitted with exactly its
/// own diagnostic.
pub proof fn lemma_failed_binding_omitted(
    g: Seq<(Oid, PgTypeV)>,
    entries: Seq<(Oid, PgFunctionV)>,
    used: Seq<Seq<char>>,
    k: int,
)
    requires
        0 <= k < entries.len(),
        crate::stage2::spec_fn_plan(g, entries[k].1) is Err,
        !used.contains(spec_entry_fn_name(entries[k].1)),
        forall|j: int| #![all_triggers]
            0 <= j < entries.len() && j != k ==> spec_entry_fn_name(entries[j].1)
                != spec_entry_fn_name(entries[k].1),
    ensures
        spec_emit_fns(g, entries, used).1.contains(
            crate::stage2::spec_fn_plan(g, entries[k].1)->Err_0,
        ),
    decreases entries.len(),
{
    let f = entries[k].1;
    let target = crate::stage2::spec_fn_plan(g, f)->Err_0;
    let head = entries[0].1;
    let nm = spec_entry_fn_name(head);
    if k == 0 {
        let rest = spec_emit_fns(g, entries.skip(1), used);
        assert((seq![target] + rest.1)[0] == target);
    } else {
        let rest_entries = entries.skip(1);
        assert(rest_entries[k - 1] == entries[k]);
        assert forall|j: int| #![trigger spec_entry_fn_name(rest_entries[j].1)]
            0 <= j < rest_entries.len() && j != k - 1 implies spec_entry_fn_name(
            rest_entries[j].1,
        ) != spec_entry_fn_name(rest_entries[k - 1].1) by {
            assert(rest_entries[j] == entries[j + 1]);
        }
        if used.contains(nm) {
            lemma_failed_binding_omitted(g, rest_entries, used, k - 1);
            lemma_concat_contains_right(
                seq![
                    DiagV::NameCollision { schema: head.schema, name: head.name, ident: nm },
                ],
                spec_emit_fns(g, rest_entries, used).1,
                target,
            );
        } else {
            match crate::stage2::spec_fn_plan(g, head) {
                Result::Ok(_) => {
                    lemma_push_not_contains(used, nm, spec_entry_fn_name(f));
                    lemma_failed_binding_omitted(g, rest_entries, used.push(nm), k - 1);
                },
                Result::Err(d) => {
                    lemma_failed_binding_omitted(g, rest_entries, used, k - 1);
                    lemma_concat_contains_right(
                        seq![d],
                        spec_emit_fns(g, rest_entries, used).1,
                        target,
                    );
                },
            }
        }
    }
}

/// The complement: a signature whose binding generates is emitted
/// unchanged — its binding plan stands among the emitted plans.
pub proof fn lemma_sound_binding_emitted(
    g: Seq<(Oid, PgTypeV)>,
    entries: Seq<(Oid, PgFunctionV)>,
    used: Seq<Seq<char>>,
    k: int,
)
    requires
        0 <= k < entries.len(),
        crate::stage2::spec_fn_plan(g, entries[k].1) is Ok,
        !used.contains(spec_entry_fn_name(entries[k].1)),
        forall|j: int| #![all_triggers]
            0 <= j < entries.len() && j != k ==> spec_entry_fn_name(entries[j].1)
                != spec_entry_fn_name(entries[k].1),
    ensures
        spec_emit_fns(g, entries, used).0.contains(
            crate::stage2::spec_fn_plan(g, entries[k].1)->Ok_0,
        ),
    decreases entries.len(),
{
    let f = entries[k].1;
    let target = crate::stage2::spec_fn_plan(g, f)->Ok_0;
    let head = entries[0].1;
    let nm = spec_entry_fn_name(head);
    if k == 0 {
        let rest = spec_emit_fns(g, entries.skip(1), used.push(nm));
        assert((seq![target] + rest.0)[0] == target);
    } else {
        let rest_entries = entries.skip(1);
        assert(rest_entries[k - 1] == entries[k]);
        assert forall|j: int| #![trigger spec_entry_fn_name(rest_entries[j].1)]
            0 <= j < rest_entries.len() && j != k - 1 implies spec_entry_fn_name(
            rest_entries[j].1,
        ) != spec_entry_fn_name(rest_entries[k - 1].1) by {
            assert(rest_entries[j] == entries[j + 1]);
        }
        if used.contains(nm) {
            lemma_sound_binding_emitted(g, rest_entries, used, k - 1);
        } else {
            match crate::stage2::spec_fn_plan(g, head) {
                Result::Ok(p) => {
                    lemma_push_not_contains(used, nm, spec_entry_fn_name(f));
                    lemma_sound_binding_emitted(g, rest_entries, used.push(nm), k - 1);
                    lemma_concat_contains_right(
                        seq![p],
                        spec_emit_fns(g, rest_entries, used.push(nm)).0,
                        target,
                    );
                },
                Result::Err(_) => {
                    lemma_sound_binding_emitted(g, rest_entries, used, k - 1);
                },
            }
        }
    }
}

// ---------------------------------------------------------------------------
// Within each argument group the catalog order is kept, and a table
// argument lands among the outputs
// ---------------------------------------------------------------------------

/// The catalog positions the plain "in" arguments come from, in order.
pub open spec fn spec_in_positions_upto(r: FunctionRowV, n: int) -> Seq<int>
    decreases n,
{
    if n <= 0 {
        Seq::empty()
    } else {
        let rest = spec_in_positions_upto(r, n - 1);
        if spec_row_modes(r)[n - 1] == PgArgumentMode::In {
            rest.push(n - 1)
        } else {
            rest
        }
    }
}

/// The catalog positions the variadic arguments come from, in order.
pub open spec fn spec_variadic_positions_upto(r: FunctionRowV, n: int) -> Seq<int>
    decreases n,
{
    if n <= 0 {
        Seq::empty()
    } else {
        let rest = spec_variadic_positions_upto(r, n - 1);
        if spec_row_modes(r)[n - 1] == PgArgumentMode::Variadic {
            rest.push(n - 1)
        } else {
            rest
        }
    }
}

/// The plain "in" arguments are exactly the arguments assembled from
/// the "in" positions, at strictly increasing catalog positions: their
/// relative catalog order is kept.
pub proof fn lemma_in_group_order(r: FunctionRowV, n: int)
    ensures
        spec_in_args_upto(r, n).len() == spec_in_positions_upto(r, n).len(),
        forall|i: int| #![trigger spec_in_positions_upto(r, n)[i]]
            0 <= i < spec_in_positions_upto(r, n).len() ==> 0 <= spec_in_positions_upto(r, n)[i]
                < n && spec_row_modes(r)[spec_in_positions_upto(r, n)[i]] == PgArgumentMode::In
                && spec_in_args_upto(r, n)[i] == spec_arg_at(r, spec_in_positions_upto(r, n)[i]),
        forall|i: int, j: int| #![all_triggers]
            0 <= i < j < spec_in_positions_upto(r, n).len() ==> spec_in_positions_upto(r, n)[i]
                < spec_in_positions_upto(r, n)[j],
    decreases n,
{
    if n > 0 {
        lemma_in_group_order(r, n - 1);
    }
}

/// The variadic arguments likewise keep their relative catalog order.
pub proof fn lemma_variadic_group_order(r: FunctionRowV, n: int)
    ensures
        spec_variadic_args_upto(r, n).len() == spec_variadic_positions_upto(r, n).len(),
        forall|i: int| #![trigger spec_variadic_positions_upto(r, n)[i]]
            0 <= i < spec_variadic_positions_upto(r, n).len() ==> 0 <= spec_variadic_positions_upto(
                r,
                n,
            )[i] < n && spec_row_modes(r)[spec_variadic_positions_upto(r, n)[i]]
                == PgArgumentMode::Variadic && spec_variadic_args_upto(r, n)[i] == spec_arg_at(
                r,
                spec_variadic_positions_upto(r, n)[i],
            ),
        forall|i: int, j: int| #![all_triggers]
            0 <= i < j < spec_variadic_positions_upto(r, n).len() ==> spec_variadic_positions_upto(
                r,
                n,
            )[i] < spec_variadic_positions_upto(r, n)[j],
    decreases n,
{
    if n > 0 {
        lemma_variadic_group_order(r, n - 1);
    }
}

/// An output position's argument stands among the collected outputs.
pub proof fn lemma_out_contains(r: FunctionRowV, n: int, p: int)
    requires
        0 <= p < n,
        spec_row_modes(r)[p] == PgArgumentMode::Out || spec_row_modes(r)[p]
            == PgArgumentMode::Table,
    ensures
        spec_out_args_upto(r, n).contains(spec_arg_at(r, p)),
    decreases n,
{
    let cur = spec_out_args_upto(r, n);
    if p == n - 1 {
        assert(cur[cur.len() - 1] == spec_arg_at(r, p));
    } else {
        lemma_out_contains(r, n - 1, p);
        let rest = spec_out_args_upto(r, n - 1);
        let i = choose|i: int| 0 <= i < rest.len() && rest[i] == spec_arg_at(r, p);
        assert(cur[i] == spec_arg_at(r, p));
    }
}

/// A table-mode argument of an accepted function lands among the
/// record's output fields — never among the signature's inputs, which
/// are assembled from "in" and variadic positions alone — and makes
/// the return shape a record.
pub proof fn lemma_table_argument_among_outputs(row: FunctionRowV, p: int)
    requires
        spec_parse_function(row) is Ok,
        0 <= p < spec_zip_len(row),
        spec_row_modes(row)[p] == PgArgumentMode::Table,
    ensures
        spec_out_args_upto(row, spec_zip_len(row)).contains(spec_arg_at(row, p)),
        row.kind == crate::types::PgProcedureKind::Function ==> spec_parse_function(
            row,
        )->Ok_0.1.returns == PgReturnV::Record(spec_out_args_upto(row, spec_zip_len(row))),
{
    lemma_out_contains(row, spec_zip_len(row), p);
    let outs = spec_out_args_upto(row, spec_zip_len(row));
    let i = choose|i: int| 0 <= i < outs.len() && outs[i] == spec_arg_at(row, p);
    assert(outs.len() > 0);
}

/// The referenced id of a wrapping node.
pub open spec fn node_base(node: PgTypeV) -> Oid {
    match node {
        PgTypeV::Domain { base_type, .. } => base_type,
        PgTypeV::Array { base_type, .. } => base_type,
        PgTypeV::Range { base_type, .. } => base_type,
        _ => 0,
    }
}

/// On a ranked graph, array wrapping carries exactly the element's
/// serializability (resolved at top level) beside its unconditional
/// non-copyability, and the rendered type is the element's, wrapped.
pub proof fn lemma_array_wraps_element(
    g: Seq<(Oid, PgTypeV)>,
    r: Map<Oid, nat>,
    a: Oid,
    m: ResolveMode,
)
    requires
        rank_ok(g, r),
        spec_get(g, a) is Some,
        spec_get(g, a).unwrap() is Array,
        spec_resolve(g, Set::empty(), node_base(spec_get(g, a).unwrap()), m) is Ok,
    ensures
        spec_resolve(g, Set::empty(), a, m) is Ok,
        !spec_resolve(g, Set::empty(), a, m).unwrap().copyable,
        spec_resolve(g, Set::empty(), a, m).unwrap().serializable == spec_resolve(
            g,
            Set::empty(),
            node_base(spec_get(g, a).unwrap()),
            m,
        ).unwrap().serializable,
{
    let node = spec_get(g, a).unwrap();
    let e = node_base(node);
    lemma_get_in_keys(g, a);
    lemma_get_in_keys(g, e);
    assert(spec_get(g, e) is Some);
    assert(refs_of(node).contains(e));
    let va = Set::<Oid>::empty().insert(a);
    assert forall|x: Oid|
        va.contains(x) && graph_keys(g).contains(x) && graph_keys(g).contains(e) implies r[x]
        > r[e] by {
        assert(x == a);
    }
    lemma_resolve_visiting_irrelevant(g, r, va, Set::empty(), e, m);
}

/// The mate for ranges: the element's copyability is carried, beside
/// the unconditional non-serializability.
pub proof fn lemma_range_wraps_element(
    g: Seq<(Oid, PgTypeV)>,
    r: Map<Oid, nat>,
    a: Oid,
    m: ResolveMode,
)
    requires
        rank_ok(g, r),
        spec_get(g, a) is Some,
        spec_get(g, a).unwrap() is Range,
        spec_resolve(g, Set::empty(), node_base(spec_get(g, a).unwrap()), m) is Ok,
    ensures
        spec_resolve(g, Set::empty(), a, m) is Ok,
        !spec_resolve(g, Set::empty(), a, m).unwrap().serializable,
        spec_resolve(g, Set::empty(), a, m).unwrap().copyable == spec_resolve(
            g,
            Set::empty(),
            node_base(spec_get(g, a).unwrap()),
            m,
        ).unwrap().copyable,
{
    let node = spec_get(g, a).unwrap();
    let e = node_base(node);
    lemma_get_in_keys(g, a);
    lemma_get_in_keys(g, e);
    assert(refs_of(node).contains(e));
    let va = Set::<Oid>::empty().insert(a);
    assert forall|x: Oid|
        va.contains(x) && graph_keys(g).contains(x) && graph_keys(g).contains(e) implies r[x]
        > r[e] by {
        assert(x == a);
    }
    lemma_resolve_visiting_irrelevant(g, r, va, Set::empty(), e, m);
}

/// On a ranked graph the conjunction law holds in the form the field
/// mode exposes at top level: a composite that resolves is copyable,
/// or serializable, exactly when every field, resolved on its own,
/// is.
pub proof fn lemma_capability_conjunctive_top(g: Seq<(Oid, PgTypeV)>, r: Map<Oid, nat>, d: Oid)
    requires
        rank_ok(g, r),
        spec_get(g, d) is Some,
        spec_get(g, d).unwrap() is Composite,
        spec_resolve(g, Set::empty(), d, ResolveMode::Field) is Ok,
    ensures
        forall|i: int| #![all_triggers]
            0 <= i < node_fields(spec_get(g, d).unwrap()).len() ==> spec_resolve(
                g,
                Set::empty(),
                node_fields(spec_get(g, d).unwrap())[i].typ,
                ResolveMode::Field,
            ) is Ok,
        spec_resolve(g, Set::empty(), d, ResolveMode::Field).unwrap().copyable <==> (forall|
            i: int,
        | #![all_triggers]
            0 <= i < node_fields(spec_get(g, d).unwrap()).len() ==> spec_resolve(
                g,
                Set::empty(),
                node_fields(spec_get(g, d).unwrap())[i].typ,
                ResolveMode::Field,
            ).unwrap().copyable),
        spec_resolve(g, Set::empty(), d, ResolveMode::Field).unwrap().serializable <==> (forall|
            i: int,
        | #![all_triggers]
            0 <= i < node_fields(spec_get(g, d).unwrap()).len() ==> spec_resolve(
                g,
                Set::empty(),
                node_fields(spec_get(g, d).unwrap())[i].typ,
                ResolveMode::Field,
            ).unwrap().serializable),
{
    let node = spec_get(g, d).unwrap();
    let fields = node_fields(node);
    lemma_get_in_keys(g, d);
    assert(!Set::<Oid>::empty().contains(d));
    let vd = Set::<Oid>::empty().insert(d);
    assert(spec_resolve_fields(g, vd, fields) is Ok);
    lemma_capability_conjunctive(g, vd, fields);
    assert forall|i: int|
        0 <= i < fields.len() implies spec_resolve(g, vd, fields[i].typ, ResolveMode::Field)
        == spec_resolve(g, Set::empty(), fields[i].typ, ResolveMode::Field) by {
        let t = fields[i].typ;
        lemma_get_in_keys(g, t);
        assert(spec_resolve(g, vd, t, ResolveMode::Field) is Ok);
        assert(spec_get(g, t) is Some);
        assert(refs_of(node).contains(t));
        assert forall|x: Oid|
            vd.contains(x) && graph_keys(g).contains(x) && graph_keys(g).contains(
                t,
            ) implies r[x] > r[t] by {
            assert(x == d);
        }
        lemma_resolve_visiting_irrelevant(g, r, vd, Set::empty(), t, ResolveMode::Field);
    }
}

/// Composite fields round-trip like enum variants: the emitted field
/// identifier is the snake conversion of the catalog name, and an
/// original-name mapping is attached exactly when the identifier is
/// not that catalog text, so database-facing access stays literal.
pub proof fn lemma_field_round_trip(
    g: Seq<(Oid, PgTypeV)>,
    fields: Seq<PgFieldV>,
    row_backed: bool,
)
    requires
        crate::stage2::spec_field_plans(g, fields, row_backed) is Ok,
    ensures
        crate::stage2::spec_field_plans(g, fields, row_backed)->Ok_0.len() == fields.len(),
        forall|i: int|
            #![trigger crate::stage2::spec_field_plans(g, fields, row_backed)->Ok_0[i]]
            0 <= i < fields.len() ==> crate::stage2::spec_field_plans(
                g,
                fields,
                row_backed,
            )->Ok_0[i].name == crate::names::snake_of(fields[i].name) && (crate::stage2::spec_field_plans(
                g,
                fields,
                row_backed,
            )->Ok_0[i].pg_name is None <==> crate::stage2::spec_field_plans(
                g,
                fields,
                row_backed,
            )->Ok_0[i].name == fields[i].name) && (crate::stage2::spec_field_plans(
                g,
                fields,
                row_backed,
            )->Ok_0[i].pg_name is Some ==> crate::stage2::spec_field_plans(
                g,
                fields,
                row_backed,
            )->Ok_0[i].pg_name.unwrap() == fields[i].name),
    decreases fields.len(),
{
    if fields.len() > 0 {
        lemma_field_round_trip(g, fields.skip(1), row_backed);
        let all = crate::stage2::spec_field_plans(g, fields, row_backed)->Ok_0;
        let rest = crate::stage2::spec_field_plans(g, fields.skip(1), row_backed)->Ok_0;
        assert forall|i: int| #![trigger all[i]]
            0 <= i < fields.len() implies all[i].name == crate::names::snake_of(fields[i].name)
            && (all[i].pg_name is None <==> all[i].name == fields[i].name) && (all[i].pg_name
            is Some ==> all[i].pg_name.unwrap() == fields[i].name) by {
            if i > 0 {
                assert(all[i] == rest[i - 1]);
                assert(fields.skip(1)[i - 1] == fields[i]);
            }
        }
    }
}

} // verus!
