//! What the registry of the known statistics answers, stated over the
//! table it is built from.
use vstd::prelude::*;
use crate::known_statistics::KNOWN_STATISTICS;
use crate::units::{lemma_catch_all_suffix, lemma_known_unit_has_suffix, lemma_unit_named_carries_name, suffix_of, unit_named, Unit};
use crate::value_statistic_details::{
    lookup_in, registry_of, reserved_name, row_details, unknown_details, DetailsView,
    StatisticKind,
};

verus! {

/// Every registry built from rows keeps the reserved entry as it was.
proof fn lemma_rows_keep_reserved(rows: Seq<(&str, Unit, StatisticKind)>)
    ensures
        registry_of(rows).contains_key(reserved_name()),
        registry_of(rows)[reserved_name()] == unknown_details(),
    decreases rows.len(),
{
    if rows.len() > 0 {
        lemma_rows_keep_reserved(rows.drop_last());
    }
}

/// A name that no row carries is not in the registry, unless it is the
/// reserved one.
proof fn lemma_rows_only_hold_their_names(rows: Seq<(&str, Unit, StatisticKind)>, name: Seq<char>)
    requires
        name != reserved_name(),
        forall|i: int| 0 <= i < rows.len() ==> (#[trigger] rows[i]).0@ != name,
    ensures
        !registry_of(rows).contains_key(name),
    decreases rows.len(),
{
    if rows.len() > 0 {
        let rest = rows.drop_last();
        assert forall|i: int| 0 <= i < rest.len() implies (#[trigger] rest[i]).0@ != name by {
            assert(rest[i] == rows[i]);
        }
        lemma_rows_only_hold_their_names(rest, name);
        assert(rows.last() == rows[rows.len() - 1]);
    }
}

/// A row that no later row names again decides what the registry holds
/// under its name.
proof fn lemma_last_row_counts(rows: Seq<(&str, Unit, StatisticKind)>, i: int)
    requires
        0 <= i < rows.len(),
        rows[i].0@ != reserved_name(),
        forall|j: int| i < j < rows.len() ==> (#[trigger] rows[j]).0@ != rows[i].0@,
    ensures
        registry_of(rows).contains_key(rows[i].0@),
        registry_of(rows)[rows[i].0@] == row_details(rows[i]),
    decreases rows.len(),
{
    let rest = rows.drop_last();
    if i < rows.len() - 1 {
        assert(rest[i] == rows[i]);
        assert forall|j: int| i < j < rest.len() implies (#[trigger] rest[j]).0@ != rest[i].0@ by {
            assert(rest[j] == rows[j]);
        }
        lemma_last_row_counts(rest, i);
        assert(rows.last() == rows[rows.len() - 1]);
    } else {
        assert(rows.last() == rows[i]);
    }
}

/// Every unit in a registry built from rows is in the suffix table, and
/// its suffix is the sentinel `"?"` only where the unit is `"?"` itself.
proof fn lemma_rows_units_resolve(rows: Seq<(&str, Unit, StatisticKind)>)
    ensures
        forall|name: Seq<char>| #[trigger]
            registry_of(rows).contains_key(name) ==> {
                let d = registry_of(rows)[name];
                &&& unit_named(d.unit) is Some
                &&& d.unit_suffix == suffix_of(d.unit)
                &&& d.unit_suffix == "?"@ ==> d.unit == "?"@
            },
    decreases rows.len(),
{
    lemma_catch_all_suffix();
    if rows.len() > 0 {
        lemma_rows_units_resolve(rows.drop_last());
        let u = rows.last().1;
        lemma_known_unit_has_suffix(u);
        lemma_unit_named_carries_name(u.spec_name());
    }
}

/// Looking up the name of a known statistic gives the details of the last
/// row that names it: its unit, the suffix that the suffix table gives for
/// that unit, and its kind. The reserved name keeps its reserved details.
pub proof fn lemma_known_statistic_found(i: int)
    requires
        0 <= i < KNOWN_STATISTICS@.len(),
        forall|j: int|
            i < j < KNOWN_STATISTICS@.len() ==> (#[trigger] KNOWN_STATISTICS@[j]).0@
                != KNOWN_STATISTICS@[i].0@,
    ensures
        ({
            let row = KNOWN_STATISTICS@[i];
            let d = lookup_in(registry_of(KNOWN_STATISTICS@), row.0@);
            &&& row.0@ != "?"@ ==> d == (DetailsView {
                unit: row.1.spec_name(),
                unit_suffix: suffix_of(row.1.spec_name()),
                stat_type: row.2.spec_name(),
            })
            &&& row.0@ == "?"@ ==> d == unknown_details()
            &&& d.unit_suffix == suffix_of(d.unit)
        }),
{
    lemma_rows_keep_reserved(KNOWN_STATISTICS@);
    if KNOWN_STATISTICS@[i].0@ != reserved_name() {
        lemma_last_row_counts(KNOWN_STATISTICS@, i);
    }
    lemma_catch_all_suffix();
}

/// Looking up a name that no row of the table carries, the empty name and
/// any other text included, gives `{"?", "?", "?"}`.
pub proof fn lemma_unknown_statistic_falls_back(name: Seq<char>)
    requires
        forall|i: int| 0 <= i < KNOWN_STATISTICS@.len() ==> (#[trigger] KNOWN_STATISTICS@[i]).0@ != name,
    ensures
        lookup_in(registry_of(KNOWN_STATISTICS@), name) == (DetailsView {
            unit: "?"@,
            unit_suffix: "?"@,
            stat_type: "?"@,
        }),
{
    lemma_rows_keep_reserved(KNOWN_STATISTICS@);
    if name != reserved_name() {
        lemma_rows_only_hold_their_names(KNOWN_STATISTICS@, name);
    }
    lemma_catch_all_suffix();
}

/// Every unit that the registry of the known statistics uses is in the
/// suffix table, so resolving it never gives the sentinel `"?"`, except
/// for the unit `"?"` itself.
pub proof fn lemma_known_units_resolve()
    ensures
        forall|name: Seq<char>| #[trigger]
            registry_of(KNOWN_STATISTICS@).contains_key(name) ==> {
                let d = registry_of(KNOWN_STATISTICS@)[name];
                &&& unit_named(d.unit) is Some
                &&& d.unit_suffix == suffix_of(d.unit)
                &&& d.unit_suffix == "?"@ ==> d.unit == "?"@
            },
{
    lemma_rows_units_resolve(KNOWN_STATISTICS@);
}

} // verus!
