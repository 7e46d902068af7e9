//! The validity aggregator: a registry of the latest reported validity per
//! field, and the aggregate flag that gates submission.

use vstd::prelude::*;

verus! {

/// An opaque token identifying one field within a form. It is used only as
/// a registry key; uniqueness is the responsibility of a single issuing
/// authority such as `IdentitySource`.
pub type FieldIdentity = u64;

/// Issues process-unique field identities from a monotonically increasing
/// counter, so that no two fields of a form ever share one.
pub struct IdentitySource {
    next: u64,
}

impl IdentitySource {
    /// The identity the next call to `fresh` will hand out.
    pub closed spec fn spec_next(&self) -> u64 {
        self.next
    }

    pub fn new() -> (r: Self)
        ensures
            r.spec_next() == 0,
    {
        IdentitySource { next: 0 }
    }

    /// Hands out the next identity; later calls return strictly larger ones.
    pub fn fresh(&mut self) -> (r: FieldIdentity)
        requires
            old(self).spec_next() < u64::MAX,
        ensures
            r == old(self).spec_next(),
            final(self).spec_next() == old(self).spec_next() + 1,
    {
        let r = self.next;
        self.next = self.next + 1;
        r
    }
}

/// The registry left by a sequence of `(field, validity)` reports, folded
/// in order: a later report for the same field overrides an earlier one.
pub open spec fn registry_after(reports: Seq<(u64, bool)>) -> Map<u64, bool>
    decreases reports.len(),
{
    if reports.len() == 0 {
        Map::empty()
    } else {
        registry_after(reports.drop_last()).insert(reports.last().0, reports.last().1)
    }
}

/// The aggregate over a registry: true exactly when every recorded field is
/// valid. An empty registry (a form with no fields) counts as valid.
pub open spec fn spec_aggregate(m: Map<u64, bool>) -> bool {
    forall|k: u64| #[trigger] m.dom().contains(k) ==> m[k]
}

/// No field occurs twice among the entries.
pub open spec fn unique_fields(s: Seq<(u64, bool)>) -> bool {
    forall|i: int, j: int| 0 <= i < j < s.len() ==> s[i].0 != s[j].0
}

/// The validity aggregator: maps field identities to their latest reported
/// validity and recomputes the aggregate from scratch on every report.
pub struct ValidityAggregator {
    entries: Vec<(u64, bool)>,
}

impl View for ValidityAggregator {
    type V = Map<u64, bool>;

    /// The registry as a map from field identity to latest validity.
    closed spec fn view(&self) -> Map<u64, bool> {
        registry_after(self.entries@)
    }
}

proof fn lemma_registry_domain(s: Seq<(u64, bool)>, k: u64)
    ensures
        registry_after(s).dom().contains(k) <==> exists|i: int| 0 <= i < s.len() && s[i].0 == k,
    decreases s.len(),
{
    if s.len() > 0 {
        lemma_registry_domain(s.drop_last(), k);
        if registry_after(s).dom().contains(k) {
            if s.last().0 == k {
                assert(s[s.len() - 1].0 == k);
            } else {
                let i = choose|i: int| 0 <= i < s.drop_last().len() && s.drop_last()[i].0 == k;
                assert(s[i].0 == k);
            }
        }
        if exists|i: int| 0 <= i < s.len() && s[i].0 == k {
            let i = choose|i: int| 0 <= i < s.len() && s[i].0 == k;
            if i < s.len() - 1 {
                assert(s.drop_last()[i].0 == k);
            }
        }
    }
}

proof fn lemma_registry_value(s: Seq<(u64, bool)>, i: int)
    requires
        0 <= i < s.len(),
        unique_fields(s),
    ensures
        registry_after(s)[s[i].0] == s[i].1,
    decreases s.len(),
{
    if i < s.len() - 1 {
        assert(s.drop_last()[i] == s[i]);
        lemma_registry_value(s.drop_last(), i);
        assert(s[i].0 != s.last().0);
    }
}

proof fn lemma_registry_update(s: Seq<(u64, bool)>, i: int, v: bool)
    requires
        0 <= i < s.len(),
        unique_fields(s),
    ensures
        registry_after(s.update(i, (s[i].0, v))) == registry_after(s).insert(s[i].0, v),
    decreases s.len(),
{
    let k = s[i].0;
    let t = s.update(i, (k, v));
    if i == s.len() - 1 {
        assert(t.drop_last() =~= s.drop_last());
        assert(registry_after(s.drop_last()).insert(k, s.last().1).insert(k, v)
            =~= registry_after(s.drop_last()).insert(k, v));
    } else {
        assert(t.drop_last() =~= s.drop_last().update(i, (k, v)));
        assert(s.drop_last()[i] == s[i]);
        lemma_registry_update(s.drop_last(), i, v);
        let lk = s.last().0;
        let lv = s.last().1;
        assert(k != lk);
        assert(registry_after(s.drop_last()).insert(k, v).insert(lk, lv) =~= registry_after(
            s.drop_last(),
        ).insert(lk, lv).insert(k, v));
        assert(t.last() == s.last());
    }
}

impl ValidityAggregator {
    /// The registry invariant: exactly one entry per field that has
    /// reported so far.
    pub closed spec fn wf(&self) -> bool {
        unique_fields(self.entries@)
    }

    /// A fresh aggregator with an empty registry; its aggregate is true.
    pub fn new() -> (r: Self)
        ensures
            r.wf(),
            r@ == Map::<u64, bool>::empty(),
    {
        ValidityAggregator { entries: Vec::new() }
    }

    fn find(&self, field_id: u64) -> (r: Option<usize>)
        ensures
            r matches Some(i) ==> i < self.entries@.len() && self.entries@[i as int].0 == field_id,
            r is None ==> forall|j: int|
                0 <= j < self.entries@.len() ==> self.entries@[j].0 != field_id,
    {
        let n = self.entries.len();
        let mut i: usize = 0;
        while i < n
            invariant
                n == self.entries@.len(),
                0 <= i <= n,
                forall|j: int| 0 <= j < i ==> self.entries@[j].0 != field_id,
            decreases n - i,
        {
            if self.entries[i].0 == field_id {
                return Some(i);
            }
            i = i + 1;
        }
        None
    }

    /// Inserts or updates the registry entry for `field_id`, then
    /// recomputes and returns the aggregate. Reporting is deliberately
    /// idempotent: repeating a report leaves the registry as it was.
    pub fn report(&mut self, field_id: u64, is_valid: bool) -> (r: bool)
        requires
            old(self).wf(),
        ensures
            final(self).wf(),
            final(self)@ == old(self)@.insert(field_id, is_valid),
            r == spec_aggregate(final(self)@),
    {
        let ghost s0 = self.entries@;
        match self.find(field_id) {
            Some(i) => {
                proof {
                    lemma_registry_update(s0, i as int, is_valid);
                }
                self.entries[i] = (field_id, is_valid);
                proof {
                    assert(self.entries@ =~= s0.update(i as int, (field_id, is_valid)));
                }
            },
            None => {
                self.entries.push((field_id, is_valid));
                proof {
                    assert(self.entries@.drop_last() =~= s0);
                }
            },
        }
        self.aggregate()
    }

    /// The aggregate validity: the logical AND over all registry entries,
    /// recomputed from scratch; true when the registry is empty.
    pub fn aggregate(&self) -> (r: bool)
        requires
            self.wf(),
        ensures
            r == spec_aggregate(self@),
    {
        let n = self.entries.len();
        let mut i: usize = 0;
        while i < n
            invariant
                n == self.entries@.len(),
                0 <= i <= n,
                self.wf(),
                forall|j: int| 0 <= j < i ==> self.entries@[j].1,
            decreases n - i,
        {
            if !self.entries[i].1 {
                proof {
                    lemma_registry_domain(self.entries@, self.entries@[i as int].0);
                    lemma_registry_value(self.entries@, i as int);
                }
                return false;
            }
            i = i + 1;
        }
        proof {
            assert forall|k: u64| self@.dom().contains(k) implies self@[k] by {
                lemma_registry_domain(self.entries@, k);
                let j = choose|j: int| 0 <= j < self.entries@.len() && self.entries@[j].0 == k;
                lemma_registry_value(self.entries@, j);
            }
        }
        true
    }
}

/// Law: folding one more report into the registry is one map insert; this
/// is the shape every `report` call leaves behind.
pub proof fn lemma_registry_after_push(reports: Seq<(u64, bool)>, id: u64, v: bool)
    ensures
        registry_after(reports.push((id, v))) == registry_after(reports).insert(id, v),
{
    assert(reports.push((id, v)).drop_last() =~= reports);
}

/// Whether the report at position `i` is the most recent one for its field.
pub open spec fn latest_for_field(reports: Seq<(u64, bool)>, i: int) -> bool {
    0 <= i < reports.len() && forall|j: int| i < j < reports.len() ==> reports[j].0 != reports[i].0
}

/// Law: after any sequence of reports, the registry holds, for each field
/// that reported, exactly the validity of its most recent report.
pub proof fn lemma_registry_latest(reports: Seq<(u64, bool)>, i: int)
    requires
        latest_for_field(reports, i),
    ensures
        registry_after(reports).dom().contains(reports[i].0),
        registry_after(reports)[reports[i].0] == reports[i].1,
    decreases reports.len(),
{
    if i < reports.len() - 1 {
        assert(reports.drop_last()[i] == reports[i]);
        assert(forall|j: int|
            i < j < reports.drop_last().len() ==> reports.drop_last()[j].0
                != reports.drop_last()[i].0);
        lemma_registry_latest(reports.drop_last(), i);
        assert(reports[i].0 != reports.last().0);
    }
}

proof fn lemma_latest_index(reports: Seq<(u64, bool)>, k: u64) -> (i: int)
    requires
        exists|i: int| 0 <= i < reports.len() && reports[i].0 == k,
    ensures
        0 <= i < reports.len(),
        reports[i].0 == k,
        forall|j: int| i < j < reports.len() ==> reports[j].0 != k,
    decreases reports.len(),
{
    if reports.last().0 == k {
        reports.len() - 1
    } else {
        let w = choose|i: int| 0 <= i < reports.len() && reports[i].0 == k;
        assert(reports.drop_last()[w].0 == k);
        let i = lemma_latest_index(reports.drop_last(), k);
        assert(reports[i] == reports.drop_last()[i]);
        assert forall|j: int| i < j < reports.len() implies reports[j].0 != k by {
            if j < reports.len() - 1 {
                assert(reports.drop_last()[j] == reports[j]);
            }
        }
        i
    }
}

/// Law: after any sequence of reports, in whatever order, the aggregate is
/// the logical AND of the most recent validity reported per distinct field.
pub proof fn lemma_aggregate_of_latest(reports: Seq<(u64, bool)>)
    ensures
        spec_aggregate(registry_after(reports)) <==> (forall|i: int|
            #[trigger] latest_for_field(reports, i) ==> reports[i].1),
{
    let m = registry_after(reports);
    if spec_aggregate(m) {
        assert forall|i: int| #[trigger] latest_for_field(reports, i) implies reports[i].1 by {
            lemma_registry_latest(reports, i);
        }
    }
    if forall|i: int| #[trigger] latest_for_field(reports, i) ==> reports[i].1 {
        assert forall|k: u64| m.dom().contains(k) implies m[k] by {
            lemma_registry_domain(reports, k);
            let i = lemma_latest_index(reports, k);
            assert(latest_for_field(reports, i));
            lemma_registry_latest(reports, i);
        }
    }
}

/// Law: reports for two distinct fields commute — the registry does not
/// depend on the order in which different fields report.
pub proof fn lemma_report_commutes(m: Map<u64, bool>, id1: u64, v1: bool, id2: u64, v2: bool)
    requires
        id1 != id2,
    ensures
        m.insert(id1, v1).insert(id2, v2) == m.insert(id2, v2).insert(id1, v1),
{
    assert(m.insert(id1, v1).insert(id2, v2) =~= m.insert(id2, v2).insert(id1, v1));
}

/// Law: the last report for a field wins — an earlier report for the same
/// field leaves no trace in the registry.
pub proof fn lemma_last_write_wins(m: Map<u64, bool>, id: u64, v1: bool, v2: bool)
    ensures
        m.insert(id, v1).insert(id, v2) == m.insert(id, v2),
{
    assert(m.insert(id, v1).insert(id, v2) =~= m.insert(id, v2));
}

/// Law: repeating a report of the same validity for the same field changes
/// neither the registry nor the aggregate.
pub proof fn lemma_report_idempotent(m: Map<u64, bool>, id: u64, v: bool)
    ensures
        m.insert(id, v).insert(id, v) == m.insert(id, v),
        spec_aggregate(m.insert(id, v).insert(id, v)) == spec_aggregate(m.insert(id, v)),
{
    lemma_last_write_wins(m, id, v, v);
}

} // verus!
