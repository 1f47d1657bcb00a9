//! Adaptive learning store: an append-only log of user corrections
//! plus a derived per-merchant confidence adjustment map, and a
//! bounded training-example log with batch eviction.
//!
//! Adjustments are integers in thousandths and never leave the range
//! `[100, 990]` (that is, `[0.1, 0.99]`).

use vstd::prelude::*;

verus! {

/// A user feedback record.  Owned by the store once submitted;
/// append-only and never mutated after creation.
#[derive(PartialEq, Debug)]
pub struct Correction {
    pub original_analysis: String,
    pub corrected_merchant: Option<String>,
    /// Corrected amount in minor units (hundredths).
    pub corrected_amount: Option<u64>,
    pub corrected_vat_rate: Option<u8>,
    pub corrected_category: Option<String>,
    pub user_feedback: Option<String>,
    /// Confidence rating on a 1-10 scale.
    pub confidence_rating: Option<u8>,
}

/// What a processed correction reports back to the caller.
#[derive(PartialEq, Eq, Debug)]
pub struct SubmissionOutcome {
    pub applied: bool,
    /// Improvement in thousandths, present only for ratings above 7.
    pub confidence_improvement: Option<u32>,
    /// Number of stored corrections (the new one included) that
    /// reference the same corrected merchant.
    pub similar_cases_updated: usize,
}

/// The shared learning state: the correction log and the derived
/// per-merchant adjustment map (an association list keyed by
/// merchant name, first match wins).
pub struct LearningStore {
    pub corrections: Vec<Correction>,
    pub adjustments: Vec<(String, u32)>,
}

/// First-match lookup in the adjustment list.
pub open spec fn adj_lookup(adjs: Seq<(String, u32)>, name: Seq<char>) -> Option<u32>
    decreases adjs.len(),
{
    if adjs.len() == 0 {
        None
    } else if adjs[0].0@ == name {
        Some(adjs[0].1)
    } else {
        adj_lookup(adjs.drop_first(), name)
    }
}

/// The confidence rating used by the nudge rule: the correction's
/// rating, or 5 when absent.
pub open spec fn spec_rating(c: Correction) -> int {
    match c.confidence_rating {
        Some(r) => r as int,
        None => 5,
    }
}

/// One learning step: ratings above 7 raise the adjustment by 0.1
/// (capped at 0.99), others lower it by 0.05 (floored at 0.1), in
/// thousandths.
pub open spec fn spec_nudged(a: int, rating: int) -> int {
    if rating > 7 {
        if a + 100 <= 990 {
            a + 100
        } else {
            990
        }
    } else {
        if a - 50 >= 100 {
            a - 50
        } else {
            100
        }
    }
}

/// The confidence improvement reported for a rating, in thousandths:
/// 0.05 plus 0.02 for each point above 7, for ratings above 7 only.
pub open spec fn spec_improvement(rating: int) -> Option<u32> {
    if rating > 7 {
        Some((50 + (rating - 7) * 20) as u32)
    } else {
        None
    }
}

/// Number of corrections in `s` whose corrected merchant equals `m`.
pub open spec fn count_sim(s: Seq<Correction>, m: Option<Seq<char>>) -> int
    decreases s.len(),
{
    if s.len() == 0 {
        0
    } else {
        count_sim(s.drop_last(), m) + if s.last().corrected_merchant.deep_view() == m {
            1int
        } else {
            0int
        }
    }
}

proof fn lemma_lookup_at_first(adjs: Seq<(String, u32)>, i: int, name: Seq<char>)
    requires
        0 <= i < adjs.len(),
        adjs[i].0@ == name,
        forall|k: int| 0 <= k < i ==> (#[trigger] adjs[k]).0@ != name,
    ensures
        adj_lookup(adjs, name) == Some(adjs[i].1),
    decreases i,
{
    if i > 0 {
        lemma_lookup_at_first(adjs.drop_first(), i - 1, name);
    }
}

proof fn lemma_lookup_none(adjs: Seq<(String, u32)>, name: Seq<char>)
    requires
        forall|k: int| 0 <= k < adjs.len() ==> (#[trigger] adjs[k]).0@ != name,
    ensures
        adj_lookup(adjs, name) is None,
    decreases adjs.len(),
{
    if adjs.len() > 0 {
        lemma_lookup_none(adjs.drop_first(), name);
    }
}

proof fn lemma_lookup_update_found(adjs: Seq<(String, u32)>, i: int, p: (String, u32), name: Seq<char>)
    requires
        0 <= i < adjs.len(),
        adjs[i].0@ == name,
        p.0@ == name,
        forall|k: int| 0 <= k < i ==> (#[trigger] adjs[k]).0@ != name,
    ensures
        adj_lookup(adjs.update(i, p), name) == Some(p.1),
    decreases i,
{
    let u = adjs.update(i, p);
    if i == 0 {
        assert(u[0] == p);
    } else {
        assert(u[0] == adjs[0]);
        assert(u.drop_first() =~= adjs.drop_first().update(i - 1, p));
        lemma_lookup_update_found(adjs.drop_first(), i - 1, p, name);
    }
}

proof fn lemma_lookup_update_other(adjs: Seq<(String, u32)>, i: int, p: (String, u32), n2: Seq<char>)
    requires
        0 <= i < adjs.len(),
        p.0@ == adjs[i].0@,
        n2 != adjs[i].0@,
    ensures
        adj_lookup(adjs.update(i, p), n2) == adj_lookup(adjs, n2),
    decreases i,
{
    let u = adjs.update(i, p);
    if i == 0 {
        assert(u[0] == p);
        assert(u.drop_first() =~= adjs.drop_first());
    } else {
        assert(u[0] == adjs[0]);
        assert(u.drop_first() =~= adjs.drop_first().update(i - 1, p));
        lemma_lookup_update_other(adjs.drop_first(), i - 1, p, n2);
    }
}

proof fn lemma_lookup_push(adjs: Seq<(String, u32)>, p: (String, u32), n2: Seq<char>)
    ensures
        adj_lookup(adjs.push(p), n2) == if adj_lookup(adjs, n2) is Some {
            adj_lookup(adjs, n2)
        } else if p.0@ == n2 {
            Some(p.1)
        } else {
            None
        },
    decreases adjs.len(),
{
    let u = adjs.push(p);
    if adjs.len() == 0 {
        assert(u[0] == p);
        assert(u.drop_first() =~= Seq::<(String, u32)>::empty());
        if p.0@ == n2 {
            assert(adj_lookup(u, n2) == Some(p.1));
        } else {
            assert(adj_lookup(u, n2) == adj_lookup(u.drop_first(), n2));
        }
    } else {
        assert(u[0] == adjs[0]);
        assert(u.drop_first() =~= adjs.drop_first().push(p));
        lemma_lookup_push(adjs.drop_first(), p, n2);
        if adjs[0].0@ == n2 {
            assert(adj_lookup(adjs, n2) == Some(adjs[0].1));
            assert(adj_lookup(u, n2) == Some(u[0].1));
        } else {
            assert(adj_lookup(adjs, n2) == adj_lookup(adjs.drop_first(), n2));
            assert(adj_lookup(u, n2) == adj_lookup(u.drop_first(), n2));
        }
    }
}

/// First index in `adjs` whose key text equals `m`, if any.
fn find_index(adjs: &Vec<(String, u32)>, m: &str) -> (r: Option<usize>)
    ensures
        match r {
            Some(i) => i < adjs@.len() && adjs@[i as int].0@ == m@ && (forall|k: int|
                0 <= k < i ==> (#[trigger] adjs@[k]).0@ != m@),
            None => forall|k: int| 0 <= k < adjs@.len() ==> (#[trigger] adjs@[k]).0@ != m@,
        },
{
    let n = adjs.len();
    let mut i: usize = 0;
    while i < n
        invariant
            i <= n,
            n == adjs@.len(),
            forall|k: int| 0 <= k < i ==> (#[trigger] adjs@[k]).0@ != m@,
        decreases n - i,
    {
        if crate::text::str_eq(adjs[i].0.as_str(), m) {
            return Some(i);
        }
        i += 1;
    }
    None
}

proof fn lemma_lookup_in_range(adjs: Seq<(String, u32)>, name: Seq<char>)
    requires
        forall|i: int| 0 <= i < adjs.len() ==> 100 <= (#[trigger] adjs[i]).1 <= 990,
    ensures
        match adj_lookup(adjs, name) {
            Some(v) => 100 <= v <= 990,
            None => true,
        },
    decreases adjs.len(),
{
    if adjs.len() > 0 && adjs[0].0@ != name {
        lemma_lookup_in_range(adjs.drop_first(), name);
    }
}

impl LearningStore {
    /// Every stored adjustment is within [0.1, 0.99] in thousandths.
    pub open spec fn wf(self) -> bool {
        forall|i: int|
            0 <= i < self.adjustments@.len() ==> 100 <= (#[trigger] self.adjustments@[i]).1 <= 990
    }

    /// The current adjustment for a merchant name: the stored value,
    /// or the 0.5 default when the merchant is unseen.
    pub open spec fn adj_spec(self, name: Seq<char>) -> int {
        match adj_lookup(self.adjustments@, name) {
            Some(v) => v as int,
            None => 500,
        }
    }

    /// An empty store.
    pub fn new() -> (store: LearningStore)
        ensures
            store.wf(),
            store.corrections@.len() == 0,
            forall|n: Seq<char>| store.adj_spec(n) == 500,
    {
        LearningStore { corrections: Vec::new(), adjustments: Vec::new() }
    }

    /// Law: in every well-formed store state the adjustment read for
    /// any merchant name lies in [0.1, 0.99] (thousandths 100..=990);
    /// since `new` establishes well-formedness and `submit` preserves
    /// it, this holds after any sequence of submissions.
    pub proof fn lemma_adjustment_in_range(self, name: Seq<char>)
        requires
            self.wf(),
        ensures
            100 <= self.adj_spec(name) <= 990,
    {
        lemma_lookup_in_range(self.adjustments@, name);
    }

    /// The current adjustment for a merchant name, in thousandths.
    pub fn adjustment_for(&self, name: &str) -> (r: u32)
        requires
            self.wf(),
        ensures
            r == self.adj_spec(name@),
            100 <= r <= 990,
    {
        let n = self.adjustments.len();
        let mut i: usize = 0;
        while i < n
            invariant
                n == self.adjustments@.len(),
                i <= n,
                forall|k: int| 0 <= k < i ==> (#[trigger] self.adjustments@[k]).0@ != name@,
                self.wf(),
            decreases n - i,
        {
            if crate::text::str_eq(self.adjustments[i].0.as_str(), name) {
                proof {
                    lemma_lookup_at_first(self.adjustments@, i as int, name@);
                }
                return self.adjustments[i].1;
            }
            i += 1;
        }
        proof {
            lemma_lookup_none(self.adjustments@, name@);
        }
        500
    }

    /// Appends a correction and, when it names a corrected merchant,
    /// nudges that merchant's adjustment.  Always succeeds: the store
    /// has no internal failure mode of its own.
    pub fn submit(&mut self, correction: Correction) -> (applied: bool)
        requires
            old(self).wf(),
        ensures
            applied,
            final(self).wf(),
            final(self).corrections@ == old(self).corrections@.push(correction),
            match correction.corrected_merchant {
                Some(m) => final(self).adj_spec(m@) == spec_nudged(
                    old(self).adj_spec(m@),
                    spec_rating(correction),
                ) && (forall|n2: Seq<char>|
                    n2 != m@ ==> final(self).adj_spec(n2) == old(self).adj_spec(n2)),
                None => forall|n2: Seq<char>| final(self).adj_spec(n2) == old(self).adj_spec(n2),
            },
    {
        let rating: u8 = match correction.confidence_rating {
            Some(r) => r,
            None => 5,
        };
        match &correction.corrected_merchant {
            None => {},
            Some(m) => {
                let ghost name = m@;
                if let Some(i) = find_index(&self.adjustments, m.as_str()) {
                    let cur = self.adjustments[i].1;
                    let v2 = nudge_exec(cur, rating);
                    proof {
                        lemma_lookup_at_first(self.adjustments@, i as int, name);
                    }
                    let ghost before = self.adjustments@;
                    self.adjustments[i].1 = v2;
                    proof {
                        let p = self.adjustments@[i as int];
                        assert(self.adjustments@ =~= before.update(i as int, p));
                        assert(p.0@ == name);
                        lemma_lookup_update_found(before, i as int, p, name);
                        assert forall|n2: Seq<char>| n2 != name implies adj_lookup(
                            self.adjustments@,
                            n2,
                        ) == adj_lookup(before, n2) by {
                            lemma_lookup_update_other(before, i as int, p, n2);
                        }
                    }
                } else {
                    let v2 = nudge_exec(500, rating);
                    proof {
                        lemma_lookup_none(self.adjustments@, name);
                    }
                    let ghost before = self.adjustments@;
                    self.adjustments.push((m.clone(), v2));
                    proof {
                        let p = self.adjustments@.last();
                        assert(self.adjustments@ =~= before.push(p));
                        assert(p.0@ == name && p.1 == v2);
                        assert forall|n2: Seq<char>|
                            adj_lookup(self.adjustments@, n2) == if adj_lookup(before, n2) is Some {
                                adj_lookup(before, n2)
                            } else if n2 == name {
                                Some(v2)
                            } else {
                                None
                            } by {
                            lemma_lookup_push(before, p, n2);
                        }
                    }
                }
            },
        }
        self.corrections.push(correction);
        true
    }

    /// Number of stored corrections whose corrected merchant equals
    /// `merchant`.
    pub fn similar_case_count(&self, merchant: &Option<String>) -> (n: usize)
        ensures
            n == count_sim(self.corrections@, merchant.deep_view()),
    {
        let len = self.corrections.len();
        let mut n: usize = 0;
        let mut i: usize = 0;
        while i < len
            invariant
                len == self.corrections@.len(),
                i <= len,
                n <= i,
                n == count_sim(self.corrections@.take(i as int), merchant.deep_view()),
            decreases len - i,
        {
            let same: bool = match (&self.corrections[i].corrected_merchant, merchant) {
                (None, None) => true,
                (Some(a), Some(b)) => crate::text::str_eq(a.as_str(), b.as_str()),
                _ => false,
            };
            if same {
                n += 1;
            }
            i += 1;
            proof {
                let t = self.corrections@.take(i as int);
                assert(t.drop_last() =~= self.corrections@.take(i - 1));
                assert(t.last() == self.corrections@[i - 1]);
            }
        }
        proof {
            assert(self.corrections@.take(len as int) =~= self.corrections@);
        }
        n
    }

    /// Processes a user correction: appends it, nudges the named
    /// merchant's adjustment, and reports the confidence improvement
    /// and how many stored corrections reference the same merchant.
    pub fn submit_correction(&mut self, correction: Correction) -> (outcome: SubmissionOutcome)
        requires
            old(self).wf(),
        ensures
            final(self).wf(),
            final(self).corrections@ == old(self).corrections@.push(correction),
            match correction.corrected_merchant {
                Some(m) => final(self).adj_spec(m@) == spec_nudged(
                    old(self).adj_spec(m@),
                    spec_rating(correction),
                ) && (forall|n2: Seq<char>|
                    n2 != m@ ==> final(self).adj_spec(n2) == old(self).adj_spec(n2)),
                None => forall|n2: Seq<char>| final(self).adj_spec(n2) == old(self).adj_spec(n2),
            },
            outcome.applied,
            outcome.confidence_improvement == spec_improvement(spec_rating(correction)),
            outcome.similar_cases_updated == count_sim(
                final(self).corrections@,
                correction.corrected_merchant.deep_view(),
            ),
    {
        let rating: u8 = match correction.confidence_rating {
            Some(r) => r,
            None => 5,
        };
        let improvement: Option<u32> = if rating > 7 {
            Some(50 + (rating as u32 - 7) * 20)
        } else {
            None
        };
        let target: Option<String> = match &correction.corrected_merchant {
            Some(m) => Some(m.clone()),
            None => None,
        };
        let applied = self.submit(correction);
        let n = self.similar_case_count(&target);
        SubmissionOutcome {
            applied,
            confidence_improvement: improvement,
            similar_cases_updated: n,
        }
    }
}

/// One nudge of a stored adjustment, staying within [100, 990].
fn nudge_exec(cur: u32, rating: u8) -> (v: u32)
    requires
        100 <= cur <= 990,
    ensures
        v == spec_nudged(cur as int, rating as int),
        100 <= v <= 990,
{
    if rating > 7 {
        if cur + 100 <= 990 {
            cur + 100
        } else {
            990
        }
    } else {
        if cur >= 150 {
            cur - 50
        } else {
            100
        }
    }
}

/// A training example retained for the continuous-learning buffer.
#[derive(PartialEq, Debug)]
pub struct TrainingExample {
    pub input_text: String,
    pub expected_merchant: Option<String>,
    /// Expected amount in minor units (hundredths).
    pub expected_amount: Option<u64>,
    pub expected_vat_rate: Option<u8>,
    pub expected_category: Option<String>,
    pub context_metadata: Option<String>,
    /// Quality score in thousandths (0..=1000).
    pub quality_score: Option<u32>,
}

/// A bounded buffer of training examples: once more than `capacity`
/// examples are held, the oldest `eviction_batch` are dropped at once.
pub struct TrainingLog {
    pub examples: Vec<TrainingExample>,
    pub capacity: usize,
    pub eviction_batch: usize,
}

impl TrainingLog {
    /// The configuration is sane and the buffer is within bounds.
    pub open spec fn wf(self) -> bool {
        &&& 1 <= self.eviction_batch <= self.capacity
        &&& self.examples@.len() <= self.capacity
    }

    /// An empty log with the given capacity and eviction batch size.
    pub fn new(capacity: usize, eviction_batch: usize) -> (log: TrainingLog)
        requires
            1 <= eviction_batch <= capacity,
        ensures
            log.wf(),
            log.examples@.len() == 0,
            log.capacity == capacity,
            log.eviction_batch == eviction_batch,
    {
        TrainingLog { examples: Vec::new(), capacity, eviction_batch }
    }

    /// Appends an example; when the buffer would exceed its capacity,
    /// evicts the oldest `eviction_batch` examples first-in-first-out.
    pub fn store(&mut self, example: TrainingExample) -> (stored: bool)
        requires
            old(self).wf(),
        ensures
            stored,
            final(self).wf(),
            final(self).capacity == old(self).capacity,
            final(self).eviction_batch == old(self).eviction_batch,
            final(self).examples@ == if old(self).examples@.len() + 1 > old(self).capacity {
                old(self).examples@.push(example).skip(old(self).eviction_batch as int)
            } else {
                old(self).examples@.push(example)
            },
    {
        self.examples.push(example);
        let ghost pushed = self.examples@;
        if self.examples.len() > self.capacity {
            let mut j: usize = 0;
            while j < self.eviction_batch
                invariant
                    j <= self.eviction_batch,
                    self.examples@ =~= pushed.skip(j as int),
                    self.eviction_batch <= pushed.len(),
                    self.capacity == old(self).capacity,
                    self.eviction_batch == old(self).eviction_batch,
                decreases self.eviction_batch - j,
            {
                self.examples.remove(0);
                j += 1;
                proof {
                    assert(self.examples@ =~= pushed.skip(j as int));
                }
            }
        }
        true
    }
}

} // verus!
