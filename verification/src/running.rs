//! The set of deployments that are running: the one place where admission is
//! decided.

use vstd::prelude::*;
use crate::types::DeploymentId;

verus! {

/// What `try_start` answers on a set of running deployments: whether the
/// deployment is admitted.
pub open spec fn admits(running: Set<Seq<char>>, id: Seq<char>) -> bool {
    !running.contains(id)
}

/// The deployments that are running, each held once.
pub struct RunningSet {
    ids: Vec<DeploymentId>,
}

impl View for RunningSet {
    type V = Set<Seq<char>>;

    closed spec fn view(&self) -> Set<Seq<char>> {
        Set::new(|s: Seq<char>| exists|i: int| 0 <= i < self.ids.len() && #[trigger] self.ids[i]@ == s)
    }
}

impl RunningSet {
    /// No deployment is held twice.
    pub closed spec fn wf(&self) -> bool {
        forall|i: int, j: int| 0 <= i < j < self.ids.len() ==> self.ids[i]@ != self.ids[j]@
    }

    pub fn new() -> (r: Self)
        ensures
            r.wf(),
            r@ == Set::<Seq<char>>::empty(),
    {
        let r = RunningSet { ids: Vec::new() };
        assert(r@ =~= Set::<Seq<char>>::empty());
        r
    }

    fn position(&self, id: &DeploymentId) -> (at: Option<usize>)
        ensures
            match at {
                Some(i) => i < self.ids.len() && self.ids[i as int]@ == id@,
                None => forall|i: int| 0 <= i < self.ids.len() ==> self.ids[i]@ != id@,
            },
    {
        let mut k: usize = 0;
        while k < self.ids.len()
            invariant
                k <= self.ids.len(),
                forall|i: int| 0 <= i < k ==> self.ids[i]@ != id@,
            decreases self.ids.len() - k,
        {
            if self.ids[k].same(id) {
                return Some(k);
            }
            k += 1;
        }
        None
    }

    /// Whether the deployment is running.
    pub fn contains(&self, id: &DeploymentId) -> (found: bool)
        ensures
            found == self@.contains(id@),
    {
        self.position(id).is_some()
    }

    /// Admits the deployment unless it is running already, and says whether it
    /// was admitted.
    pub fn try_start(&mut self, id: DeploymentId) -> (inserted: bool)
        requires
            old(self).wf(),
        ensures
            final(self).wf(),
            inserted == admits(old(self)@, id@),
            final(self)@ == old(self)@.insert(id@),
    {
        match self.position(&id) {
            Some(_) => {
                assert(self@.insert(id@) =~= self@);
                false
            },
            None => {
                let ghost before = self.ids@;
                self.ids.push(id);
                proof {
                    assert(forall|i: int| 0 <= i < before.len() ==> self.ids[i] == before[i]);
                    assert forall|s: Seq<char>| self@.contains(s) == old(self)@.insert(id@).contains(s) by {
                        if self@.contains(s) {
                            let i = choose|i: int| 0 <= i < self.ids.len() && #[trigger] self.ids[i]@ == s;
                            if i < before.len() {
                                assert(before[i]@ == s);
                            }
                        }
                        if old(self)@.contains(s) {
                            let i = choose|i: int| 0 <= i < before.len() && #[trigger] before[i]@ == s;
                            assert(self.ids[i]@ == s);
                        }
                        if s == id@ {
                            assert(self.ids[before.len() as int]@ == s);
                        }
                    }
                    assert(self@ =~= old(self)@.insert(id@));
                }
                true
            },
        }
    }

    /// Takes the deployment out of the set, and says whether it was running.
    pub fn stop(&mut self, id: &DeploymentId) -> (removed: bool)
        requires
            old(self).wf(),
        ensures
            final(self).wf(),
            removed == old(self)@.contains(id@),
            final(self)@ == old(self)@.remove(id@),
    {
        match self.position(id) {
            None => {
                assert(self@.remove(id@) =~= self@);
                false
            },
            Some(k) => {
                let ghost before = self.ids@;
                let _gone = self.ids.remove(k);
                proof {
                    assert forall|s: Seq<char>| self@.contains(s) == old(self)@.remove(id@).contains(s) by {
                        if self@.contains(s) {
                            let i = choose|i: int| 0 <= i < self.ids.len() && #[trigger] self.ids[i]@ == s;
                            if i < k {
                                assert(before[i]@ == s);
                            } else {
                                assert(before[i + 1]@ == s);
                            }
                        }
                        if old(self)@.remove(id@).contains(s) {
                            let i = choose|i: int| 0 <= i < before.len() && #[trigger] before[i]@ == s;
                            if i < k {
                                assert(self.ids[i]@ == s);
                            } else {
                                assert(self.ids[i - 1]@ == s);
                            }
                        }
                    }
                    assert(self@ =~= old(self)@.remove(id@));
                }
                true
            },
        }
    }
}

} // verus!
