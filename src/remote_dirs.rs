//! The remote directories confirmed to exist during a run, and the steps that
//! confirm one: probe, then create where the probe fails.
use vstd::prelude::*;
use crate::filter::views_of;

verus! {

/// The next thing to do for a remote directory that is to exist.
#[derive(Clone, Copy, Debug, PartialEq, Eq, Structural)]
pub enum EnsureStep {
    /// The directory exists: work beneath it may start.
    Confirmed,
    /// Ask the remote side whether the directory exists.
    Probe,
    /// Create the directory.
    Create,
    /// The creation failed: probe again, since another worker may have
    /// created the directory meanwhile, which counts as success.
    Recheck,
    /// The directory could not be created: its subtree is abandoned.
    Failed,
}

/// The first step for `path`, given the directories confirmed so far.
pub open spec fn begin_step(confirmed: Set<Seq<char>>, path: Seq<char>) -> EnsureStep {
    if confirmed.contains(path) {
        EnsureStep::Confirmed
    } else {
        EnsureStep::Probe
    }
}

/// The confirmed set and the next step after a probe of `path`.
pub open spec fn probe_step(confirmed: Set<Seq<char>>, path: Seq<char>, exists: bool) -> (
    Set<Seq<char>>,
    EnsureStep,
) {
    if exists {
        (confirmed.insert(path), EnsureStep::Confirmed)
    } else {
        (confirmed, EnsureStep::Create)
    }
}

/// The confirmed set and the next step after an attempt to create `path`.
pub open spec fn create_step(confirmed: Set<Seq<char>>, path: Seq<char>, created: bool) -> (
    Set<Seq<char>>,
    EnsureStep,
) {
    if created {
        (confirmed.insert(path), EnsureStep::Confirmed)
    } else {
        (confirmed, EnsureStep::Recheck)
    }
}

/// The confirmed set and the next step after a probe of `path` that follows
/// a failed creation: found, it was created by someone else; else it fails.
pub open spec fn recheck_step(confirmed: Set<Seq<char>>, path: Seq<char>, exists: bool) -> (
    Set<Seq<char>>,
    EnsureStep,
) {
    if exists {
        (confirmed.insert(path), EnsureStep::Confirmed)
    } else {
        (confirmed, EnsureStep::Failed)
    }
}

/// The remote directories confirmed during a run. It only grows, and a path
/// enters it only on an answer of the remote side.
pub struct RemoteDirSet {
    confirmed: Vec<String>,
}

impl View for RemoteDirSet {
    type V = Set<Seq<char>>;

    closed spec fn view(&self) -> Set<Seq<char>> {
        views_of(self.confirmed@).to_set()
    }
}

impl RemoteDirSet {
    /// No path is held twice.
    pub closed spec fn wf(&self) -> bool {
        views_of(self.confirmed@).no_duplicates()
    }

    pub fn new() -> (r: RemoteDirSet)
        ensures
            r.wf(),
            r@ == Set::<Seq<char>>::empty(),
    {
        let r = RemoteDirSet { confirmed: Vec::new() };
        assert(views_of(r.confirmed@).to_set() =~= Set::<Seq<char>>::empty());
        r
    }

    /// Whether `path` has been confirmed.
    pub fn contains(&self, path: &String) -> (r: bool)
        ensures
            r == self@.contains(path@),
    {
        let mut i: usize = 0;
        while i < self.confirmed.len()
            invariant
                i <= self.confirmed@.len(),
                forall|j: int| 0 <= j < i ==> self.confirmed@[j]@ != path@,
            decreases self.confirmed.len() - i,
        {
            if self.confirmed[i] == *path {
                assert(views_of(self.confirmed@)[i as int] == path@);
                assert(views_of(self.confirmed@).contains(path@));
                return true;
            }
            i = i + 1;
        }
        proof {
            if views_of(self.confirmed@).to_set().contains(path@) {
                let j = choose|j: int|
                    0 <= j < views_of(self.confirmed@).len() && views_of(self.confirmed@)[j]
                        == path@;
                assert(self.confirmed@[j]@ == path@);
            }
        }
        false
    }

    /// Adds `path` to the confirmed set.
    fn record(&mut self, path: &String)
        requires
            old(self).wf(),
        ensures
            final(self).wf(),
            final(self)@ == old(self)@.insert(path@),
    {
        if !self.contains(path) {
            let ghost before = views_of(self.confirmed@);
            self.confirmed.push(path.clone());
            proof {
                assert(views_of(self.confirmed@) =~= before.push(path@));
                before.lemma_push_to_set_commute(path@);
                assert(views_of(self.confirmed@).to_set() =~= before.to_set().insert(path@));
            }
        } else {
            assert(self@.insert(path@) =~= self@);
        }
    }

    /// The first step towards `path` existing: none where it was confirmed
    /// before, else a probe.
    pub fn begin(&self, path: &String) -> (r: EnsureStep)
        ensures
            r == begin_step(self@, path@),
    {
        if self.contains(path) {
            EnsureStep::Confirmed
        } else {
            EnsureStep::Probe
        }
    }

    /// Takes the answer of a probe of `path`: a directory that exists is
    /// confirmed; one that does not is to be created.
    pub fn after_probe(&mut self, path: &String, exists: bool) -> (r: EnsureStep)
        requires
            old(self).wf(),
        ensures
            final(self).wf(),
            (final(self)@, r) == probe_step(old(self)@, path@, exists),
    {
        if exists {
            self.record(path);
            EnsureStep::Confirmed
        } else {
            EnsureStep::Create
        }
    }

    /// Takes the outcome of creating `path`: created confirms it; a failure
    /// asks for a second probe.
    pub fn after_create(&mut self, path: &String, created: bool) -> (r: EnsureStep)
        requires
            old(self).wf(),
        ensures
            final(self).wf(),
            (final(self)@, r) == create_step(old(self)@, path@, created),
    {
        if created {
            self.record(path);
            EnsureStep::Confirmed
        } else {
            EnsureStep::Recheck
        }
    }

    /// Takes the answer of the probe after a failed creation of `path`: a
    /// directory that exists now is confirmed; else the directory fails.
    pub fn after_recheck(&mut self, path: &String, exists: bool) -> (r: EnsureStep)
        requires
            old(self).wf(),
        ensures
            final(self).wf(),
            (final(self)@, r) == recheck_step(old(self)@, path@, exists),
    {
        if exists {
            self.record(path);
            EnsureStep::Confirmed
        } else {
            EnsureStep::Failed
        }
    }
}

/// Once one caller has confirmed `path`, by a probe, a creation or a probe
/// after a failed creation, a second caller for the same path is answered at
/// once: it neither probes nor creates, and it succeeds.
pub proof fn lemma_confirmed_once(
    confirmed: Set<Seq<char>>,
    path: Seq<char>,
    answer: bool,
)
    ensures
        probe_step(confirmed, path, answer).1 == EnsureStep::Confirmed ==> begin_step(
            probe_step(confirmed, path, answer).0,
            path,
        ) == EnsureStep::Confirmed,
        create_step(confirmed, path, answer).1 == EnsureStep::Confirmed ==> begin_step(
            create_step(confirmed, path, answer).0,
            path,
        ) == EnsureStep::Confirmed,
        recheck_step(confirmed, path, answer).1 == EnsureStep::Confirmed ==> begin_step(
            recheck_step(confirmed, path, answer).0,
            path,
        ) == EnsureStep::Confirmed,
{
}

/// Of two callers for one path, each taking its turn, the first probes and
/// creates; the second issues no creation and succeeds. Where the first's
/// creation fails because another worker created the directory meanwhile, the
/// probe that follows finds it, and the first succeeds too.
pub proof fn lemma_two_callers_one_creation(confirmed: Set<Seq<char>>, path: Seq<char>)
    requires
        !confirmed.contains(path),
    ensures
        begin_step(confirmed, path) == EnsureStep::Probe,
        probe_step(confirmed, path, false) == (confirmed, EnsureStep::Create),
        create_step(confirmed, path, true).1 == EnsureStep::Confirmed,
        begin_step(create_step(confirmed, path, true).0, path) == EnsureStep::Confirmed,
        create_step(confirmed, path, false) == (confirmed, EnsureStep::Recheck),
        recheck_step(confirmed, path, true).1 == EnsureStep::Confirmed,
        begin_step(recheck_step(confirmed, path, true).0, path) == EnsureStep::Confirmed,
{
}

/// A directory that already exists on the remote side is never created: it
/// is confirmed at once where known, else by the probe.
pub proof fn lemma_existing_directory_not_created(confirmed: Set<Seq<char>>, path: Seq<char>)
    ensures
        begin_step(confirmed, path) == EnsureStep::Confirmed || begin_step(confirmed, path)
            == EnsureStep::Probe,
        probe_step(confirmed, path, true) == (confirmed.insert(path), EnsureStep::Confirmed),
{
}

/// The confirmed set never shrinks, and the only path it gains is the one
/// that was probed or created.
pub proof fn lemma_confirmed_grows(confirmed: Set<Seq<char>>, path: Seq<char>, answer: bool)
    ensures
        confirmed.subset_of(probe_step(confirmed, path, answer).0),
        probe_step(confirmed, path, answer).0.subset_of(confirmed.insert(path)),
        confirmed.subset_of(create_step(confirmed, path, answer).0),
        create_step(confirmed, path, answer).0.subset_of(confirmed.insert(path)),
        confirmed.subset_of(recheck_step(confirmed, path, answer).0),
        recheck_step(confirmed, path, answer).0.subset_of(confirmed.insert(path)),
{
}

} // verus!
