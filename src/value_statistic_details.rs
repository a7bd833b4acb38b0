//! The registry of value statistics: for each statistic name, the unit its
//! values are measured in, the unit's display suffix and the kind of
//! statistic it is.
use vstd::prelude::*;
use crate::text::same_text;
use crate::units::{lemma_catch_all_suffix, suffix_of, Unit};

verus! {

/// The kind of a statistic.
#[derive(Debug, Clone, Copy, PartialEq, Eq)]
pub enum StatisticKind {
    /// The kind of the reserved entry for statistics that nobody described.
    Unknown,
    /// A cumulative total since the process started; it only grows.
    Counter,
    /// An instantaneous value, which may rise or fall.
    Gauge,
}

impl StatisticKind {
    /// The kind's name, as it is written in a statistic's details.
    pub open spec fn spec_name(self) -> Seq<char> {
        match self {
            StatisticKind::Unknown => "?"@,
            StatisticKind::Counter => "counter"@,
            StatisticKind::Gauge => "gauge"@,
        }
    }

    /// The kind's name.
    pub fn name(self) -> (r: &'static str)
        ensures
            r@ == self.spec_name(),
    {
        match self {
            StatisticKind::Unknown => "?",
            StatisticKind::Counter => "counter",
            StatisticKind::Gauge => "gauge",
        }
    }
}

/// The details of one named statistic.
#[derive(Debug, Clone)]
pub struct ValueStatisticDetails {
    pub unit: String,
    pub unit_suffix: String,
    pub stat_type: String,
}

/// The details of a statistic, as character sequences.
pub struct DetailsView {
    pub unit: Seq<char>,
    pub unit_suffix: Seq<char>,
    pub stat_type: Seq<char>,
}

impl View for ValueStatisticDetails {
    type V = DetailsView;

    open spec fn view(&self) -> DetailsView {
        DetailsView { unit: self.unit@, unit_suffix: self.unit_suffix@, stat_type: self.stat_type@ }
    }
}

/// The name under which the registry keeps the details it hands out for
/// statistics that it does not know.
pub open spec fn reserved_name() -> Seq<char> {
    "?"@
}

/// The details of a statistic measured in `unit`: the suffix is the one
/// that the suffix table gives for the unit.
pub open spec fn details_for(unit: Seq<char>, stat_type: Seq<char>) -> DetailsView {
    DetailsView { unit, unit_suffix: suffix_of(unit), stat_type }
}

/// The details of a statistic that nobody described.
pub open spec fn unknown_details() -> DetailsView {
    details_for(Unit::Unknown.spec_name(), StatisticKind::Unknown.spec_name())
}

/// The details of one row of a statistics table.
pub open spec fn row_details(row: (&str, Unit, StatisticKind)) -> DetailsView {
    details_for(row.1.spec_name(), row.2.spec_name())
}

/// A registry after `name` was entered with `details`: a later entry under
/// a name replaces the earlier one, and the reserved entry never changes.
pub open spec fn enter(
    m: Map<Seq<char>, DetailsView>,
    name: Seq<char>,
    details: DetailsView,
) -> Map<Seq<char>, DetailsView> {
    if name == reserved_name() {
        m
    } else {
        m.insert(name, details)
    }
}

/// The registry that entering `rows` in order builds, starting from the
/// reserved entry alone.
pub open spec fn registry_of(rows: Seq<(&str, Unit, StatisticKind)>) -> Map<
    Seq<char>,
    DetailsView,
>
    decreases rows.len(),
{
    if rows.len() == 0 {
        map![reserved_name() => unknown_details()]
    } else {
        enter(registry_of(rows.drop_last()), rows.last().0@, row_details(rows.last()))
    }
}

/// What looking `name` up in the registry `m` gives: its own details where
/// `m` has them, else the details under the reserved name.
pub open spec fn lookup_in(m: Map<Seq<char>, DetailsView>, name: Seq<char>) -> DetailsView {
    if m.contains_key(name) {
        m[name]
    } else {
        m[reserved_name()]
    }
}

/// The registry of statistic details, keyed by statistic name.
pub struct ValueStatistics {
    valuestatisticdetails: Vec<(String, ValueStatisticDetails)>,
    index: Ghost<Map<Seq<char>, DetailsView>>,
}

impl View for ValueStatistics {
    type V = Map<Seq<char>, DetailsView>;

    closed spec fn view(&self) -> Map<Seq<char>, DetailsView> {
        self.index@
    }
}

impl ValueStatistics {
    /// The entries are kept in a vector, each name once, the reserved entry
    /// first; the map that the registry stands for holds exactly the
    /// entries, and each suffix in it is the one of its unit.
    pub closed spec fn wf(&self) -> bool {
        let entries = self.valuestatisticdetails@;
        let m = self.index@;
        &&& entries.len() > 0
        &&& entries[0].0@ == reserved_name()
        &&& entries[0].1@ == unknown_details()
        &&& forall|i: int, j: int|
            0 <= i < j < entries.len() ==> #[trigger] entries[i].0@ != #[trigger] entries[j].0@
        &&& forall|i: int|
            0 <= i < entries.len() ==> m.contains_key(#[trigger] entries[i].0@) && m[entries[i].0@]
                == entries[i].1@
        &&& forall|k: Seq<char>|
            #[trigger] m.contains_key(k) ==> exists|i: int|
                0 <= i < entries.len() && #[trigger] entries[i].0@ == k
        &&& forall|k: Seq<char>| #[trigger]
            m.contains_key(k) ==> m[k].unit_suffix == suffix_of(m[k].unit)
    }

    /// A registry that holds the reserved entry alone.
    pub(crate) fn new() -> (r: ValueStatistics)
        ensures
            r.wf(),
            r@ == map![reserved_name() => unknown_details()],
    {
        let unit = Unit::Unknown.name();
        let details = ValueStatisticDetails {
            unit: unit.to_owned(),
            unit_suffix: Self::suffix_lookup_value(unit),
            stat_type: StatisticKind::Unknown.name().to_owned(),
        };
        let mut entries: Vec<(String, ValueStatisticDetails)> = Vec::new();
        entries.push(("?".to_owned(), details));
        let ghost m = map![reserved_name() => unknown_details()];
        let r = ValueStatistics { valuestatisticdetails: entries, index: Ghost(m) };
        assert(r.index@.contains_key(reserved_name()));
        r
    }

    /// Where the entry named `name` stands, if there is one.
    fn position(&self, name: &str) -> (r: Option<usize>)
        ensures
            match r {
                Some(i) => i < self.valuestatisticdetails@.len()
                    && self.valuestatisticdetails@[i as int].0@ == name@,
                None => forall|i: int|
                    0 <= i < self.valuestatisticdetails@.len()
                        ==> self.valuestatisticdetails@[i].0@ != name@,
            },
    {
        let mut i: usize = 0;
        while i < self.valuestatisticdetails.len()
            invariant
                i <= self.valuestatisticdetails@.len(),
                forall|j: int| 0 <= j < i ==> self.valuestatisticdetails@[j].0@ != name@,
            decreases self.valuestatisticdetails@.len() - i,
        {
            if same_text(self.valuestatisticdetails[i].0.as_str(), name) {
                return Some(i);
            }
            i = i + 1;
        }
        None
    }

    /// The details of the statistic `name`, if the registry has its own
    /// entry for it.
    pub fn find(&self, name: &str) -> (r: Option<&ValueStatisticDetails>)
        requires
            self.wf(),
        ensures
            match r {
                Some(d) => self@.contains_key(name@) && d@ == self@[name@],
                None => !self@.contains_key(name@),
            },
    {
        match self.position(name) {
            Some(i) => Some(&self.valuestatisticdetails[i].1),
            None => None,
        }
    }

    /// The details of the statistic `argument`; for a name that the
    /// registry does not know, the details under the reserved name `"?"`.
    pub fn lookup(&self, argument: &str) -> (r: &ValueStatisticDetails)
        requires
            self.wf(),
        ensures
            r@ == lookup_in(self@, argument@),
            !self@.contains_key(argument@) ==> r@ == unknown_details(),
    {
        match self.find(argument) {
            Some(d) => d,
            None => &self.valuestatisticdetails[0].1,
        }
    }

    /// Enters the statistic `name`, measured in `unit` and of the kind
    /// `statistic_type`; the reserved entry is left as it is.
    pub(crate) fn insert(&mut self, name: &str, unit: &str, statistic_type: &str)
        requires
            old(self).wf(),
        ensures
            final(self).wf(),
            final(self)@ == enter(old(self)@, name@, details_for(unit@, statistic_type@)),
    {
        if same_text(name, "?") {
            return;
        }
        let details = ValueStatisticDetails {
            unit: unit.to_owned(),
            unit_suffix: Self::suffix_lookup_value(unit),
            stat_type: statistic_type.to_owned(),
        };
        let ghost d = details@;
        let ghost old_entries = self.valuestatisticdetails@;
        let ghost old_m = self.index@;
        let ghost at: int;
        match self.position(name) {
            Some(i) => {
                self.valuestatisticdetails[i] = (name.to_owned(), details);
                proof {
                    at = i as int;
                }
            },
            None => {
                self.valuestatisticdetails.push((name.to_owned(), details));
                proof {
                    at = old_entries.len() as int;
                }
            },
        }
        self.index = Ghost(self.index@.insert(name@, d));
        proof {
            let entries = self.valuestatisticdetails@;
            let m = self.index@;
            assert(at != 0);
            assert(entries[at].0@ == name@ && entries[at].1@ == d);
            assert forall|i: int| 0 <= i < entries.len() && i != at implies entries[i]
                == old_entries[i] && entries[i].0@ != name@ by {}
            assert forall|k: Seq<char>| #[trigger] m.contains_key(k) implies exists|i: int|
                0 <= i < entries.len() && #[trigger] entries[i].0@ == k by {
                if k != name@ {
                    let i = choose|i: int| 0 <= i < old_entries.len() && #[trigger] old_entries[i].0@ == k;
                    assert(entries[i].0@ == k);
                }
            }
        }
    }

    /// The display suffix of `unit`: the suffix table's entry for it, or
    /// `"?"` where the table has none.
    pub fn suffix_lookup_value(unit: &str) -> (r: String)
        ensures
            r@ == suffix_of(unit@),
    {
        match Unit::from_name(unit) {
            Some(u) => u.suffix().to_owned(),
            None => "?".to_owned(),
        }
    }
}

/// The reserved entry is an entry like any other: every well-formed
/// registry holds it, and looking up `"?"` gives `{"?", "?", "?"}`.
pub proof fn lemma_reserved_entry_retrievable(r: &ValueStatistics)
    requires
        r.wf(),
    ensures
        r@.contains_key("?"@),
        lookup_in(r@, "?"@) == (DetailsView { unit: "?"@, unit_suffix: "?"@, stat_type: "?"@ }),
{
    lemma_catch_all_suffix();
    assert(r.index@.contains_key(r.valuestatisticdetails@[0].0@));
}

} // verus!
