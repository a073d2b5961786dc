//! The job registry: the single shared table mapping a job identifier to its
//! live job handle. It is the sole source of truth for "is this job still
//! running / cancelled". Identifiers are unique: the table holds at most one
//! entry per identifier, insertion refuses a duplicate, and removal happens
//! through exactly one of the two terminal paths (natural exit or cancel).
//!
//! The process handle and the two captured stream handles are opaque to the
//! registry (type parameters): callers take stream handles *out* of an entry
//! before doing any I/O on them, so no two tasks ever share a stream.

use vstd::prelude::*;

verus! {

/// Failures of registry operations.
#[derive(Debug, Clone, Copy, PartialEq, Eq, Structural)]
pub enum RegistryError {
    /// An entry with this identifier is already present.
    DuplicateId,
    /// No entry with this identifier is present.
    NotFound,
}

/// One live download job: the spawned process, its captured output streams
/// (present until a supervisory task takes them out), where it writes, what
/// it is called, and whether cancellation was requested.
pub struct Job<P, O, E> {
    pub process: P,
    pub stdout: Option<O>,
    pub stderr: Option<E>,
    pub output_dir: String,
    pub title: String,
    pub cancelled: bool,
}

impl<P, O, E> Job<P, O, E> {
    /// A freshly spawned job: both streams attached, not cancelled.
    pub fn new(process: P, stdout: Option<O>, stderr: Option<E>, output_dir: String, title: String)
        -> (r: Job<P, O, E>)
        ensures
            r == (Job { process, stdout, stderr, output_dir, title, cancelled: false }),
    {
        Job { process, stdout, stderr, output_dir, title, cancelled: false }
    }
}

struct Entry<P, O, E> {
    id: String,
    job: Job<P, O, E>,
}

/// The table of in-flight jobs, viewed as a map from identifier characters
/// to the job stored under that identifier.
pub struct Registry<P, O, E> {
    entries: Vec<Entry<P, O, E>>,
}

spec fn has_key<P, O, E>(s: Seq<Entry<P, O, E>>, k: Seq<char>) -> bool {
    exists|i: int| 0 <= i < s.len() && s[i].id@ == k
}

spec fn idx_of<P, O, E>(s: Seq<Entry<P, O, E>>, k: Seq<char>) -> int {
    choose|i: int| 0 <= i < s.len() && s[i].id@ == k
}

impl<P, O, E> View for Registry<P, O, E> {
    type V = Map<Seq<char>, Job<P, O, E>>;

    closed spec fn view(&self) -> Map<Seq<char>, Job<P, O, E>> {
        Map::new(
            |k: Seq<char>| has_key(self.entries@, k),
            |k: Seq<char>| self.entries@[idx_of(self.entries@, k)].job,
        )
    }
}

impl<P, O, E> Registry<P, O, E> {
    /// No two entries share an identifier.
    pub closed spec fn wf(&self) -> bool {
        forall|i: int, j: int|
            0 <= i < j < self.entries@.len() ==> self.entries@[i].id@ != self.entries@[j].id@
    }

    proof fn lemma_entry_view(&self, i: int)
        requires
            self.wf(),
            0 <= i < self.entries@.len(),
        ensures
            self@.contains_key(self.entries@[i].id@),
            self@[self.entries@[i].id@] == self.entries@[i].job,
            idx_of(self.entries@, self.entries@[i].id@) == i,
    {
        let k = self.entries@[i].id@;
        assert(has_key(self.entries@, k));
        let j = idx_of(self.entries@, k);
        if i < j {
            assert(self.entries@[i].id@ != self.entries@[j].id@);
        } else if j < i {
            assert(self.entries@[j].id@ != self.entries@[i].id@);
        }
    }

    /// An empty registry.
    pub fn new() -> (r: Registry<P, O, E>)
        ensures
            r.wf(),
            r@ == Map::<Seq<char>, Job<P, O, E>>::empty(),
    {
        let r = Registry { entries: Vec::new() };
        proof {
            assert(r@ =~= Map::<Seq<char>, Job<P, O, E>>::empty());
        }
        r
    }

    fn find_index(&self, id: &String) -> (r: Option<usize>)
        ensures
            match r {
                Some(i) => i < self.entries@.len() && self.entries@[i as int].id@ == id@,
                None => !has_key(self.entries@, id@),
            },
    {
        let n = self.entries.len();
        let mut i: usize = 0;
        while i < n
            invariant
                n == self.entries@.len(),
                i <= n,
                forall|j: int| 0 <= j < i ==> self.entries@[j].id@ != id@,
            decreases n - i,
        {
            if self.entries[i].id == *id {
                return Some(i);
            }
            i += 1;
        }
        None
    }

    /// Whether an entry with this identifier is present.
    pub fn contains_job(&self, id: &String) -> (r: bool)
        requires
            self.wf(),
        ensures
            r == self@.contains_key(id@),
    {
        match self.find_index(id) {
            Some(i) => {
                proof {
                    self.lemma_entry_view(i as int);
                }
                true
            },
            None => false,
        }
    }

    /// Inserts a job under a fresh identifier; refuses a duplicate identifier
    /// and leaves the table unchanged in that case.
    pub fn insert(&mut self, id: String, job: Job<P, O, E>) -> (r: Result<(), RegistryError>)
        requires
            old(self).wf(),
        ensures
            final(self).wf(),
            old(self)@.contains_key(id@) ==> r == Err::<(), RegistryError>(
                RegistryError::DuplicateId,
            ) && final(self)@ == old(self)@,
            !old(self)@.contains_key(id@) ==> r == Ok::<(), RegistryError>(())
                && final(self)@ == old(self)@.insert(id@, job),
    {
        match self.find_index(&id) {
            Some(i) => {
                proof {
                    self.lemma_entry_view(i as int);
                }
                Err(RegistryError::DuplicateId)
            },
            None => {
                let ghost s0 = self.entries@;
                let ghost m0 = self@;
                let ghost k = id@;
                let ghost j = job;
                self.entries.push(Entry { id, job });
                proof {
                    let s1 = self.entries@;
                    assert(s1 == s0.push(Entry { id: s1[s1.len() - 1].id, job: j }));
                    assert forall|a: int, b: int| 0 <= a < b < s1.len() implies s1[a].id@
                        != s1[b].id@ by {
                        if b < s1.len() - 1 {
                            assert(s0[a].id@ != s0[b].id@);
                        } else {
                            assert(s1[b].id@ == k);
                            assert(s1[a].id@ == s0[a].id@);
                        }
                    }
                    assert(final(self).wf());
                    assert forall|q: Seq<char>| #[trigger] final(self)@.contains_key(q) implies
                        m0.insert(k, j).contains_key(q) by {
                        let i = choose|i: int| 0 <= i < s1.len() && s1[i].id@ == q;
                        if i < s1.len() - 1 {
                            assert(s0[i].id@ == q);
                        }
                    }
                    assert forall|q: Seq<char>| #[trigger] m0.insert(k, j).contains_key(q) implies
                        final(self)@.contains_key(q) by {
                        if q == k {
                            assert(s1[s1.len() - 1].id@ == q);
                        } else {
                            let i = choose|i: int| 0 <= i < s0.len() && s0[i].id@ == q;
                            assert(s1[i].id@ == q);
                        }
                    }
                    assert forall|q: Seq<char>| final(self)@.contains_key(q) implies
                        #[trigger] final(self)@[q] == m0.insert(k, j)[q] by {
                        let i = idx_of(s1, q);
                        assert(0 <= i < s1.len() && s1[i].id@ == q);
                        if q == k {
                            final(self).lemma_entry_view(s1.len() - 1);
                            assert(final(self)@[q] == j);
                        } else {
                            assert(i < s1.len() - 1);
                            assert(s0[i].id@ == q);
                            old(self).lemma_entry_view(i);
                            final(self).lemma_entry_view(i);
                        }
                    }
                    assert(final(self)@ =~= m0.insert(k, j));
                }
                Ok(())
            },
        }
    }

    /// Removes and returns the job stored under this identifier, or `None`
    /// (table unchanged) when the identifier is absent.
    pub fn remove(&mut self, id: &String) -> (r: Option<Job<P, O, E>>)
        requires
            old(self).wf(),
        ensures
            final(self).wf(),
            old(self)@.contains_key(id@) ==> r == Some(old(self)@[id@]) && final(self)@ == old(
                self,
            )@.remove(id@),
            !old(self)@.contains_key(id@) ==> r == None::<Job<P, O, E>> && final(self)@ == old(
                self,
            )@,
    {
        match self.find_index(id) {
            Some(i) => {
                let ghost s0 = self.entries@;
                let ghost m0 = self@;
                let ghost k = id@;
                let ghost ii = i as int;
                proof {
                    self.lemma_entry_view(ii);
                }
                let entry = self.entries.remove(i);
                proof {
                    let s1 = self.entries@;
                    assert(s1 == s0.remove(ii));
                    assert(forall|a: int| 0 <= a < ii ==> s1[a] == s0[a]);
                    assert(forall|a: int| ii <= a < s1.len() ==> s1[a] == s0[a + 1]);
                    assert forall|a: int, b: int| 0 <= a < b < s1.len() implies s1[a].id@
                        != s1[b].id@ by {
                        let a0 = if a < ii { a } else { a + 1 };
                        let b0 = if b < ii { b } else { b + 1 };
                        assert(s0[a0].id@ != s0[b0].id@);
                    }
                    assert(final(self).wf());
                    assert forall|q: Seq<char>| #[trigger] final(self)@.contains_key(q) implies
                        m0.remove(k).contains_key(q) by {
                        let a = choose|a: int| 0 <= a < s1.len() && s1[a].id@ == q;
                        let a0 = if a < ii { a } else { a + 1 };
                        assert(s0[a0].id@ == q);
                        if q == k {
                            old(self).lemma_entry_view(a0);
                        }
                    }
                    assert forall|q: Seq<char>| #[trigger] m0.remove(k).contains_key(q) implies
                        final(self)@.contains_key(q) by {
                        let a0 = choose|a: int| 0 <= a < s0.len() && s0[a].id@ == q;
                        if a0 < ii {
                            assert(s1[a0].id@ == q);
                        } else {
                            assert(a0 != ii);
                            assert(s1[a0 - 1].id@ == q);
                        }
                    }
                    assert forall|q: Seq<char>| final(self)@.contains_key(q) implies
                        #[trigger] final(self)@[q] == m0.remove(k)[q] by {
                        let a = idx_of(s1, q);
                        assert(0 <= a < s1.len() && s1[a].id@ == q);
                        let a0 = if a < ii { a } else { a + 1 };
                        assert(s0[a0].id@ == q && s0[a0].job == s1[a].job);
                        old(self).lemma_entry_view(a0);
                        final(self).lemma_entry_view(a);
                    }
                    assert(final(self)@ =~= m0.remove(k));
                }
                Some(entry.job)
            },
            None => None,
        }
    }

    /// Whether the job under this identifier has been marked cancelled;
    /// `None` when the identifier is absent.
    pub fn get_cancelled(&self, id: &String) -> (r: Option<bool>)
        requires
            self.wf(),
        ensures
            self@.contains_key(id@) ==> r == Some(self@[id@].cancelled),
            !self@.contains_key(id@) ==> r == None::<bool>,
    {
        match self.find_index(id) {
            Some(i) => {
                proof {
                    self.lemma_entry_view(i as int);
                }
                Some(self.entries[i].job.cancelled)
            },
            None => None,
        }
    }

    /// Shared access to the process handle stored under this identifier,
    /// for non-blocking status probes.
    pub fn get_process(&self, id: &String) -> (r: Option<&P>)
        requires
            self.wf(),
        ensures
            self@.contains_key(id@) ==> (r matches Some(p) && *p == self@[id@].process),
            !self@.contains_key(id@) ==> r matches None,
    {
        match self.find_index(id) {
            Some(i) => {
                proof {
                    self.lemma_entry_view(i as int);
                }
                Some(&self.entries[i].job.process)
            },
            None => None,
        }
    }

    /// Sets the cancellation flag of the job under this identifier; fails
    /// with `NotFound` (table unchanged) when the identifier is absent.
    pub fn mark_cancelled(&mut self, id: &String) -> (r: Result<(), RegistryError>)
        requires
            old(self).wf(),
        ensures
            final(self).wf(),
            old(self)@.contains_key(id@) ==> r == Ok::<(), RegistryError>(()) && final(self)@
                == old(self)@.insert(id@, (Job { cancelled: true, ..old(self)@[id@] })),
            !old(self)@.contains_key(id@) ==> r == Err::<(), RegistryError>(RegistryError::NotFound)
                && final(self)@ == old(self)@,
    {
        match self.find_index(id) {
            Some(i) => {
                let ghost s0 = self.entries@;
                let ghost m0 = self@;
                let ghost k = id@;
                let ghost ii = i as int;
                proof {
                    self.lemma_entry_view(ii);
                }
                let en = &mut self.entries[i];
                en.job.cancelled = true;
                proof {
                    self.lemma_update_view(s0, m0, ii);
                }
                Ok(())
            },
            None => Err(RegistryError::NotFound),
        }
    }

    /// After an in-place update of entry `ii` that kept its identifier, the
    /// view is the old view with that identifier remapped to the new job.
    proof fn lemma_update_view(&self, s0: Seq<Entry<P, O, E>>, m0: Map<Seq<char>, Job<P, O, E>>, ii: int)
        requires
            0 <= ii < s0.len(),
            self.entries@.len() == s0.len(),
            forall|a: int| 0 <= a < s0.len() && a != ii ==> self.entries@[a] == s0[a],
            self.entries@[ii].id@ == s0[ii].id@,
            forall|a: int, b: int| 0 <= a < b < s0.len() ==> s0[a].id@ != s0[b].id@,
            m0 == Map::new(
                |k: Seq<char>| has_key(s0, k),
                |k: Seq<char>| s0[idx_of(s0, k)].job,
            ),
        ensures
            self.wf(),
            self@ == m0.insert(s0[ii].id@, self.entries@[ii].job),
    {
        let s1 = self.entries@;
        let k = s0[ii].id@;
        assert forall|a: int, b: int| 0 <= a < b < s1.len() implies s1[a].id@ != s1[b].id@ by {
            assert(s0[a].id@ != s0[b].id@);
            assert(s1[a].id@ == s0[a].id@ && s1[b].id@ == s0[b].id@);
        }
        assert forall|q: Seq<char>| #[trigger] self@.contains_key(q) implies m0.insert(
            k,
            s1[ii].job,
        ).contains_key(q) by {
            let a = choose|a: int| 0 <= a < s1.len() && s1[a].id@ == q;
            assert(s0[a].id@ == q);
        }
        assert forall|q: Seq<char>| #[trigger] m0.insert(k, s1[ii].job).contains_key(q) implies
            self@.contains_key(q) by {
            if q == k {
                assert(s1[ii].id@ == q);
            } else {
                let a = choose|a: int| 0 <= a < s0.len() && s0[a].id@ == q;
                assert(s1[a].id@ == q);
            }
        }
        assert forall|q: Seq<char>| self@.contains_key(q) implies #[trigger] self@[q] == m0.insert(
            k,
            s1[ii].job,
        )[q] by {
            let a = idx_of(s1, q);
            assert(0 <= a < s1.len() && s1[a].id@ == q);
            self.lemma_entry_view(a);
            if q == k {
                if a < ii {
                    assert(s1[a].id@ != s1[ii].id@);
                } else if ii < a {
                    assert(s1[ii].id@ != s1[a].id@);
                }
                assert(a == ii);
            } else {
                assert(a != ii);
                assert(s0[a].id@ == q);
                let b = idx_of(s0, q);
                assert(has_key(s0, q));
                assert(0 <= b < s0.len() && s0[b].id@ == q);
                if a < b {
                    assert(s0[a].id@ != s0[b].id@);
                } else if b < a {
                    assert(s0[b].id@ != s0[a].id@);
                }
                assert(m0[q] == s0[a].job);
            }
        }
        assert(self@ =~= m0.insert(k, s1[ii].job));
    }

    /// Takes the standard-output handle out of the entry, transferring its
    /// ownership to the caller; `None` when the identifier is absent or the
    /// handle was already taken.
    pub fn take_stdout(&mut self, id: &String) -> (r: Option<O>)
        requires
            old(self).wf(),
        ensures
            final(self).wf(),
            old(self)@.contains_key(id@) ==> r == old(self)@[id@].stdout && final(self)@ == old(
                self,
            )@.insert(id@, (Job { stdout: None, ..old(self)@[id@] })),
            !old(self)@.contains_key(id@) ==> r == None::<O> && final(self)@ == old(self)@,
    {
        match self.find_index(id) {
            Some(i) => {
                let ghost s0 = self.entries@;
                let ghost m0 = self@;
                let ghost ii = i as int;
                proof {
                    self.lemma_entry_view(ii);
                }
                let en = &mut self.entries[i];
                let r = en.job.stdout.take();
                proof {
                    self.lemma_update_view(s0, m0, ii);
                }
                r
            },
            None => None,
        }
    }

    /// Takes the standard-error handle out of the entry, transferring its
    /// ownership to the caller; `None` when the identifier is absent or the
    /// handle was already taken.
    pub fn take_stderr(&mut self, id: &String) -> (r: Option<E>)
        requires
            old(self).wf(),
        ensures
            final(self).wf(),
            old(self)@.contains_key(id@) ==> r == old(self)@[id@].stderr && final(self)@ == old(
                self,
            )@.insert(id@, (Job { stderr: None, ..old(self)@[id@] })),
            !old(self)@.contains_key(id@) ==> r == None::<E> && final(self)@ == old(self)@,
    {
        match self.find_index(id) {
            Some(i) => {
                let ghost s0 = self.entries@;
                let ghost m0 = self@;
                let ghost ii = i as int;
                proof {
                    self.lemma_entry_view(ii);
                }
                let en = &mut self.entries[i];
                let r = en.job.stderr.take();
                proof {
                    self.lemma_update_view(s0, m0, ii);
                }
                r
            },
            None => None,
        }
    }
}

} // verus!
