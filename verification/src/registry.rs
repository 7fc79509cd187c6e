use vstd::prelude::*;
use crate::rds_metric::{CollectionOutcome, GaugeUpdateSet};

verus! {

/// The gauge values held for one instance label. A `None` gauge has never
/// been written; a written gauge keeps its value until some later cycle
/// overwrites it. Values are integers in thousandths of a unit.
#[derive(Clone, Copy, Debug, PartialEq, Eq, Structural)]
pub struct InstanceGauges {
    pub iops_limit: Option<u64>,
    pub burst_iops_limit: Option<u64>,
    pub write_iops: Option<u64>,
    pub read_iops: Option<u64>,
    pub total_iops: Option<u64>,
    pub burst_credit_balance: Option<u64>,
}

impl InstanceGauges {
    /// The state of a label no cycle has written yet.
    pub open spec fn spec_empty() -> InstanceGauges {
        InstanceGauges {
            iops_limit: None,
            burst_iops_limit: None,
            write_iops: None,
            read_iops: None,
            total_iops: None,
            burst_credit_balance: None,
        }
    }

    /// The state of a label no cycle has written yet.
    pub fn empty() -> (g: InstanceGauges)
        ensures
            g == InstanceGauges::spec_empty(),
    {
        InstanceGauges {
            iops_limit: None,
            burst_iops_limit: None,
            write_iops: None,
            read_iops: None,
            total_iops: None,
            burst_credit_balance: None,
        }
    }
}

/// The gauges of one label after one update set is applied over them: the
/// always-written gauges take the set's values; the optional burst-ceiling
/// and balance gauges take the set's value only where the set carries one
/// and otherwise keep what they held.
pub open spec fn spec_apply_row(prev: InstanceGauges, s: GaugeUpdateSet) -> InstanceGauges {
    InstanceGauges {
        iops_limit: Some(s.iops_limit),
        burst_iops_limit: match s.burst_iops_limit {
            Some(v) => Some(v),
            None => prev.burst_iops_limit,
        },
        write_iops: Some(s.write_iops),
        read_iops: Some(s.read_iops),
        total_iops: Some(s.total_iops),
        burst_credit_balance: match s.burst_credit_balance {
            Some(v) => Some(v),
            None => prev.burst_credit_balance,
        },
    }
}

/// The row a map holds for a label, or the never-written row.
pub open spec fn row_or_empty(
    m: Map<Seq<char>, InstanceGauges>,
    k: Seq<char>,
) -> InstanceGauges {
    if m.dom().contains(k) {
        m[k]
    } else {
        InstanceGauges::spec_empty()
    }
}

/// The row a map holds for a label, if any.
pub open spec fn opt_row(m: Map<Seq<char>, InstanceGauges>, k: Seq<char>) -> Option<
    InstanceGauges,
> {
    if m.dom().contains(k) {
        Some(m[k])
    } else {
        None
    }
}

/// A registry after one update set: only the set's own label changes, and
/// it changes by `spec_apply_row`.
pub open spec fn spec_apply_set(
    m: Map<Seq<char>, InstanceGauges>,
    s: GaugeUpdateSet,
) -> Map<Seq<char>, InstanceGauges> {
    m.insert(s.instance@, spec_apply_row(row_or_empty(m, s.instance@), s))
}

/// A registry after a whole cycle's outcomes, applied in order: each
/// successful outcome writes its set, each failed outcome writes nothing.
pub open spec fn spec_apply_all(
    m: Map<Seq<char>, InstanceGauges>,
    outcomes: Seq<CollectionOutcome>,
) -> Map<Seq<char>, InstanceGauges>
    decreases outcomes.len(),
{
    if outcomes.len() == 0 {
        m
    } else {
        let rest = spec_apply_all(m, outcomes.drop_last());
        match outcomes.last() {
            Ok(s) => spec_apply_set(rest, s),
            Err(_) => rest,
        }
    }
}

/// Law of isolation: a cycle leaves every label untouched that none of
/// its successful outcomes writes. In particular, when an instance's
/// details fetch fails, its gauges keep the prior cycle's values, however
/// the other instances fare.
pub proof fn lemma_untouched_label(
    m: Map<Seq<char>, InstanceGauges>,
    outcomes: Seq<CollectionOutcome>,
    k: Seq<char>,
)
    requires
        forall|j: int|
            0 <= j < outcomes.len() ==> (#[trigger] outcomes[j] matches Ok(s) ==> s.instance@ != k),
    ensures
        opt_row(spec_apply_all(m, outcomes), k) == opt_row(m, k),
    decreases outcomes.len(),
{
    if outcomes.len() > 0 {
        assert(forall|j: int|
            0 <= j < outcomes.drop_last().len() ==> (#[trigger] outcomes.drop_last()[j] matches Ok(s)
                ==> s.instance@ != k)) by {
            assert(forall|j: int|
                0 <= j < outcomes.drop_last().len() ==> outcomes.drop_last()[j] == outcomes[j]);
        }
        lemma_untouched_label(m, outcomes.drop_last(), k);
        assert(outcomes[outcomes.len() - 1] == outcomes.last());
    }
}

/// Law of application: a successful outcome whose label no other
/// successful outcome of the cycle shares ends the cycle with exactly its
/// update set applied over whatever the label held before the cycle.
/// With one outcome per configured instance and distinct identifiers,
/// every successful instance's set is applied and — with
/// `lemma_untouched_label` — every failed instance's gauges are left
/// unchanged.
pub proof fn lemma_sole_writer_applied(
    m: Map<Seq<char>, InstanceGauges>,
    outcomes: Seq<CollectionOutcome>,
    i: int,
)
    requires
        0 <= i < outcomes.len(),
        outcomes[i] is Ok,
        forall|j: int|
            0 <= j < outcomes.len() && j != i ==> (#[trigger] outcomes[j] matches Ok(s)
                ==> s.instance@ != outcomes[i]->Ok_0.instance@),
    ensures
        opt_row(spec_apply_all(m, outcomes), outcomes[i]->Ok_0.instance@) == Some(
            spec_apply_row(row_or_empty(m, outcomes[i]->Ok_0.instance@), outcomes[i]->Ok_0),
        ),
    decreases outcomes.len(),
{
    let s = outcomes[i]->Ok_0;
    let k = s.instance@;
    assert(forall|j: int|
        0 <= j < outcomes.drop_last().len() ==> outcomes.drop_last()[j] == outcomes[j]);
    if i == outcomes.len() - 1 {
        assert(outcomes.last() == outcomes[i]);
        assert(forall|j: int|
            0 <= j < outcomes.drop_last().len() ==> (#[trigger] outcomes.drop_last()[j] matches Ok(t)
                ==> t.instance@ != k));
        lemma_untouched_label(m, outcomes.drop_last(), k);
    } else {
        lemma_sole_writer_applied(m, outcomes.drop_last(), i);
        assert(outcomes[outcomes.len() - 1] == outcomes.last());
    }
}

/// Law of idempotence at the registry: applying the same update set twice
/// in a row leaves the registry exactly as applying it once does.
pub proof fn lemma_apply_set_idempotent(m: Map<Seq<char>, InstanceGauges>, s: GaugeUpdateSet)
    ensures
        spec_apply_set(spec_apply_set(m, s), s) == spec_apply_set(m, s),
{
    assert(spec_apply_set(spec_apply_set(m, s), s) =~= spec_apply_set(m, s));
}

/// One labelled row of the registry.
#[derive(Clone, Debug)]
pub struct GaugeRow {
    pub label: String,
    pub gauges: InstanceGauges,
}

/// The abstraction of a row sequence: the map from each label to the
/// gauges of its last row.
pub open spec fn rows_map(rows: Seq<GaugeRow>) -> Map<Seq<char>, InstanceGauges>
    decreases rows.len(),
{
    if rows.len() == 0 {
        Map::empty()
    } else {
        rows_map(rows.drop_last()).insert(rows.last().label@, rows.last().gauges)
    }
}

/// No two rows share a label.
pub open spec fn labels_distinct(rows: Seq<GaugeRow>) -> bool {
    forall|i: int, j: int|
        0 <= i < j < rows.len() ==> rows[i].label@ != rows[j].label@
}

/// The process-wide gauge registry: one series of six gauges per instance
/// label, written in place and never removed.
#[derive(Debug)]
pub struct MetricRegistry {
    pub rows: Vec<GaugeRow>,
}

impl View for MetricRegistry {
    type V = Map<Seq<char>, InstanceGauges>;

    open spec fn view(&self) -> Map<Seq<char>, InstanceGauges> {
        rows_map(self.rows@)
    }
}

proof fn lemma_rows_map_membership(rows: Seq<GaugeRow>, k: Seq<char>)
    ensures
        rows_map(rows).dom().contains(k) <==> (exists|j: int|
            0 <= j < rows.len() && rows[j].label@ == k),
    decreases rows.len(),
{
    if rows.len() > 0 {
        lemma_rows_map_membership(rows.drop_last(), k);
        if rows.last().label@ == k {
            assert(rows[rows.len() - 1].label@ == k);
        } else {
            if rows_map(rows).dom().contains(k) {
                let j = choose|j: int|
                    0 <= j < rows.drop_last().len() && rows.drop_last()[j].label@ == k;
                assert(rows[j].label@ == k);
            }
            if exists|j: int| 0 <= j < rows.len() && rows[j].label@ == k {
                let j = choose|j: int| 0 <= j < rows.len() && rows[j].label@ == k;
                assert(rows.drop_last()[j].label@ == k);
            }
        }
    }
}

proof fn lemma_rows_map_index(rows: Seq<GaugeRow>, i: int)
    requires
        labels_distinct(rows),
        0 <= i < rows.len(),
    ensures
        rows_map(rows).dom().contains(rows[i].label@),
        rows_map(rows)[rows[i].label@] == rows[i].gauges,
    decreases rows.len(),
{
    if i < rows.len() - 1 {
        lemma_rows_map_index(rows.drop_last(), i);
        assert(rows.drop_last()[i] == rows[i]);
        assert(rows.last().label@ != rows[i].label@);
    }
}

proof fn lemma_rows_map_update(rows: Seq<GaugeRow>, i: int, row2: GaugeRow)
    requires
        labels_distinct(rows),
        0 <= i < rows.len(),
        row2.label@ == rows[i].label@,
    ensures
        rows_map(rows.update(i, row2)) == rows_map(rows).insert(row2.label@, row2.gauges),
    decreases rows.len(),
{
    let upd = rows.update(i, row2);
    if i == rows.len() - 1 {
        assert(upd.drop_last() =~= rows.drop_last());
        assert(upd.last() == row2);
        assert(rows_map(upd) =~= rows_map(rows).insert(row2.label@, row2.gauges));
    } else {
        assert(upd.drop_last() =~= rows.drop_last().update(i, row2));
        assert(rows.drop_last()[i] == rows[i]);
        lemma_rows_map_update(rows.drop_last(), i, row2);
        assert(upd.last() == rows.last());
        assert(rows.last().label@ != row2.label@);
        assert(rows_map(upd) =~= rows_map(rows).insert(row2.label@, row2.gauges));
    }
}

/// Apply one update set over the gauges a label already holds.
pub fn apply_row(prev: InstanceGauges, s: &GaugeUpdateSet) -> (g: InstanceGauges)
    ensures
        g == spec_apply_row(prev, *s),
{
    InstanceGauges {
        iops_limit: Some(s.iops_limit),
        burst_iops_limit: match s.burst_iops_limit {
            Some(v) => Some(v),
            None => prev.burst_iops_limit,
        },
        write_iops: Some(s.write_iops),
        read_iops: Some(s.read_iops),
        total_iops: Some(s.total_iops),
        burst_credit_balance: match s.burst_credit_balance {
            Some(v) => Some(v),
            None => prev.burst_credit_balance,
        },
    }
}

impl MetricRegistry {
    /// No two rows share a label, so a label names one series.
    pub open spec fn well_formed(&self) -> bool {
        labels_distinct(self.rows@)
    }

    /// A registry with no series at all.
    pub fn new() -> (r: MetricRegistry)
        ensures
            r.well_formed(),
            r@ == Map::<Seq<char>, InstanceGauges>::empty(),
    {
        MetricRegistry { rows: Vec::new() }
    }

    fn find_row(&self, label: &String) -> (idx: Option<usize>)
        ensures
            match idx {
                Some(i) => i < self.rows@.len() && self.rows@[i as int].label@ == label@,
                None => forall|j: int|
                    0 <= j < self.rows@.len() ==> self.rows@[j].label@ != label@,
            },
    {
        let mut i: usize = 0;
        while i < self.rows.len()
            invariant
                i <= self.rows@.len(),
                forall|j: int| 0 <= j < i ==> self.rows@[j].label@ != label@,
            decreases self.rows@.len() - i,
        {
            if self.rows[i].label == *label {
                return Some(i);
            }
            i = i + 1;
        }
        None
    }

    /// The gauges currently held for a label, if any cycle wrote them.
    pub fn get(&self, label: &String) -> (g: Option<InstanceGauges>)
        requires
            self.well_formed(),
        ensures
            g == opt_row(self@, label@),
    {
        match self.find_row(label) {
            Some(i) => {
                proof {
                    lemma_rows_map_index(self.rows@, i as int);
                }
                Some(self.rows[i].gauges)
            },
            None => {
                proof {
                    lemma_rows_map_membership(self.rows@, label@);
                }
                None
            },
        }
    }

    /// Write one instance's update set: the atomic publication step. Only
    /// the set's own label changes.
    pub fn apply_update_set(&mut self, s: &GaugeUpdateSet)
        requires
            old(self).well_formed(),
        ensures
            final(self).well_formed(),
            final(self)@ == spec_apply_set(old(self)@, *s),
    {
        match self.find_row(&s.instance) {
            Some(i) => {
                let prev = self.rows[i].gauges;
                let merged = apply_row(prev, s);
                let row2 = GaugeRow { label: s.instance.clone(), gauges: merged };
                proof {
                    lemma_rows_map_index(self.rows@, i as int);
                    lemma_rows_map_update(self.rows@, i as int, row2);
                }
                self.rows[i] = row2;
            },
            None => {
                proof {
                    lemma_rows_map_membership(self.rows@, s.instance@);
                }
                let row = GaugeRow {
                    label: s.instance.clone(),
                    gauges: apply_row(InstanceGauges::empty(), s),
                };
                self.rows.push(row);
                proof {
                    assert(self.rows@.drop_last() =~= old(self).rows@);
                }
            },
        }
    }

    /// Fan-in of one collection cycle: apply every successful outcome's
    /// update set in order; a failed outcome leaves its instance's gauges
    /// exactly as the prior cycle left them.
    pub fn apply_outcomes(&mut self, outcomes: &Vec<CollectionOutcome>)
        requires
            old(self).well_formed(),
        ensures
            final(self).well_formed(),
            final(self)@ == spec_apply_all(old(self)@, outcomes@),
    {
        let ghost m0 = self@;
        let mut i: usize = 0;
        while i < outcomes.len()
            invariant
                i <= outcomes@.len(),
                self.well_formed(),
                self@ == spec_apply_all(m0, outcomes@.subrange(0, i as int)),
            decreases outcomes@.len() - i,
        {
            proof {
                assert(outcomes@.subrange(0, i + 1).drop_last() =~= outcomes@.subrange(
                    0,
                    i as int,
                ));
            }
            match &outcomes[i] {
                Ok(s) => {
                    self.apply_update_set(s);
                },
                Err(_) => {},
            }
            i = i + 1;
        }
        proof {
            assert(outcomes@.subrange(0, outcomes@.len() as int) =~= outcomes@);
        }
    }
}

} // verus!
