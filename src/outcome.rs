//! What came of each entry of a run, and the run's totals.
use vstd::prelude::*;

verus! {

/// What came of one entry.
#[derive(Clone, Copy, Debug, PartialEq, Eq, Structural)]
pub enum EntryOutcome {
    Skipped,
    DirectoryUploaded,
    FileUploaded,
    Failed,
}

/// Totals over a sequence of outcomes.
pub struct Totals {
    pub uploaded: nat,
    pub skipped: nat,
    pub failed: nat,
}

/// The totals of `outcomes`: directories and files both count as uploaded.
pub open spec fn tally(outcomes: Seq<EntryOutcome>) -> Totals
    decreases outcomes.len(),
{
    if outcomes.len() == 0 {
        Totals { uploaded: 0, skipped: 0, failed: 0 }
    } else {
        let t = tally(outcomes.drop_last());
        match outcomes.last() {
            EntryOutcome::Skipped => Totals { skipped: t.skipped + 1, ..t },
            EntryOutcome::Failed => Totals { failed: t.failed + 1, ..t },
            _ => Totals { uploaded: t.uploaded + 1, ..t },
        }
    }
}

/// The totals of `a + b` are those of `a` and of `b` added.
pub proof fn lemma_tally_concat(a: Seq<EntryOutcome>, b: Seq<EntryOutcome>)
    ensures
        tally(a + b).uploaded == tally(a).uploaded + tally(b).uploaded,
        tally(a + b).skipped == tally(a).skipped + tally(b).skipped,
        tally(a + b).failed == tally(a).failed + tally(b).failed,
    decreases b.len(),
{
    if b.len() == 0 {
        assert(a + b =~= a);
    } else {
        lemma_tally_concat(a, b.drop_last());
        assert((a + b).drop_last() =~= a + b.drop_last());
        assert((a + b).last() == b.last());
    }
}

/// The three totals add up to the number of outcomes.
pub proof fn lemma_tally_len(outcomes: Seq<EntryOutcome>)
    ensures
        tally(outcomes).uploaded + tally(outcomes).skipped + tally(outcomes).failed
            == outcomes.len(),
    decreases outcomes.len(),
{
    if outcomes.len() > 0 {
        lemma_tally_len(outcomes.drop_last());
    }
}

/// A failure among other entries costs those entries nothing: with one failed
/// entry between two runs of entries that did not fail, the totals count that
/// one failure and every upload and skip of the others, which together make up
/// all the others.
pub proof fn lemma_failure_isolated(before: Seq<EntryOutcome>, after: Seq<EntryOutcome>)
    requires
        !before.contains(EntryOutcome::Failed),
        !after.contains(EntryOutcome::Failed),
    ensures
        tally(before + seq![EntryOutcome::Failed] + after).failed == 1,
        tally(before + seq![EntryOutcome::Failed] + after).uploaded == tally(before).uploaded
            + tally(after).uploaded,
        tally(before + seq![EntryOutcome::Failed] + after).skipped == tally(before).skipped
            + tally(after).skipped,
        tally(before + seq![EntryOutcome::Failed] + after).uploaded + tally(
            before + seq![EntryOutcome::Failed] + after,
        ).skipped == before.len() + after.len(),
{
    lemma_tally_len(before + seq![EntryOutcome::Failed] + after);
    lemma_no_failure(before);
    lemma_no_failure(after);
    lemma_tally_concat(before, seq![EntryOutcome::Failed]);
    lemma_tally_concat(before + seq![EntryOutcome::Failed], after);
    let one = seq![EntryOutcome::Failed];
    assert(one.drop_last() =~= Seq::<EntryOutcome>::empty());
    assert(one.last() == EntryOutcome::Failed);
    assert(tally(one.drop_last()).failed == 0);
    assert(tally(one).failed == 1);
    assert(tally(one).uploaded == 0);
    assert(tally(one).skipped == 0);
}

proof fn lemma_no_failure(s: Seq<EntryOutcome>)
    requires
        !s.contains(EntryOutcome::Failed),
    ensures
        tally(s).failed == 0,
    decreases s.len(),
{
    if s.len() > 0 {
        assert(s.drop_last().len() < s.len());
        assert forall|x| s.drop_last().contains(x) implies s.contains(x) by {
            let j = choose|j: int| 0 <= j < s.drop_last().len() && s.drop_last()[j] == x;
            assert(s[j] == x);
        }
        lemma_no_failure(s.drop_last());
        assert(s[s.len() - 1] == s.last());
    }
}

/// The running totals of a transfer, and the error of each failed entry.
pub struct Summary {
    uploaded: u64,
    skipped: u64,
    failed: u64,
    errors: Vec<(String, String)>,
    recorded: Ghost<Seq<EntryOutcome>>,
}

impl Summary {
    /// The outcomes recorded so far, in order.
    pub closed spec fn recorded(&self) -> Seq<EntryOutcome> {
        self.recorded@
    }

    /// The (path, message) pairs of the failures recorded so far, in order.
    pub closed spec fn errors_view(&self) -> Seq<(Seq<char>, Seq<char>)> {
        self.errors@.map_values(|e: (String, String)| (e.0@, e.1@))
    }

    pub closed spec fn wf(&self) -> bool {
        &&& self.uploaded == tally(self.recorded@).uploaded
        &&& self.skipped == tally(self.recorded@).skipped
        &&& self.failed == tally(self.recorded@).failed
        &&& self.errors@.len() == self.failed
    }

    pub fn new() -> (r: Summary)
        ensures
            r.wf(),
            r.recorded() == Seq::<EntryOutcome>::empty(),
            r.errors_view() == Seq::<(Seq<char>, Seq<char>)>::empty(),
    {
        let r = Summary {
            uploaded: 0,
            skipped: 0,
            failed: 0,
            errors: Vec::new(),
            recorded: Ghost(Seq::empty()),
        };
        assert(r.errors_view() =~= Seq::<(Seq<char>, Seq<char>)>::empty());
        r
    }

    /// Records the outcome of the entry at `path`; `message` is kept with the
    /// path where the entry failed.
    pub fn record(&mut self, path: &String, outcome: EntryOutcome, message: &String)
        requires
            old(self).wf(),
            old(self).recorded().len() < u64::MAX,
        ensures
            final(self).wf(),
            final(self).recorded() == old(self).recorded().push(outcome),
            final(self).errors_view() == if outcome == EntryOutcome::Failed {
                old(self).errors_view().push((path@, message@))
            } else {
                old(self).errors_view()
            },
    {
        proof {
            lemma_tally_len(self.recorded@);
        }
        let ghost before = self.recorded@;
        let ghost errors_before = self.errors_view();
        self.recorded = Ghost(self.recorded@.push(outcome));
        assert(self.recorded@.drop_last() =~= before);
        match outcome {
            EntryOutcome::Skipped => {
                self.skipped = self.skipped + 1;
            },
            EntryOutcome::Failed => {
                self.failed = self.failed + 1;
                self.errors.push((path.clone(), message.clone()));
                assert(self.errors_view() =~= errors_before.push((path@, message@)));
            },
            _ => {
                self.uploaded = self.uploaded + 1;
            },
        }
    }

    /// Files and directories uploaded.
    pub fn uploaded(&self) -> (r: u64)
        requires
            self.wf(),
        ensures
            r == tally(self.recorded()).uploaded,
    {
        self.uploaded
    }

    /// Entries skipped.
    pub fn skipped(&self) -> (r: u64)
        requires
            self.wf(),
        ensures
            r == tally(self.recorded()).skipped,
    {
        self.skipped
    }

    /// Entries that failed.
    pub fn failed(&self) -> (r: u64)
        requires
            self.wf(),
        ensures
            r == tally(self.recorded()).failed,
    {
        self.failed
    }

    /// The (path, message) pair of each failure, in the order recorded.
    pub fn errors(&self) -> (r: &Vec<(String, String)>)
        ensures
            r@.map_values(|e: (String, String)| (e.0@, e.1@)) == self.errors_view(),
    {
        &self.errors
    }
}

} // verus!
