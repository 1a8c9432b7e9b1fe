use vstd::prelude::*;

use crate::error::{ErrorKind, PluginError};

verus! {

/// The successful outcomes among `outcomes`, in order.
pub open spec fn successes<T>(outcomes: Seq<Result<T, PluginError>>) -> Seq<T>
    decreases outcomes.len(),
{
    if outcomes.len() == 0 {
        Seq::empty()
    } else {
        let rest = successes(outcomes.drop_last());
        match outcomes.last() {
            Ok(t) => rest.push(t),
            Err(_) => rest,
        }
    }
}

/// The kinds of the failed outcomes among `outcomes`, in order.
pub open spec fn failure_kinds<T>(outcomes: Seq<Result<T, PluginError>>) -> Seq<ErrorKind>
    decreases outcomes.len(),
{
    if outcomes.len() == 0 {
        Seq::empty()
    } else {
        let rest = failure_kinds(outcomes.drop_last());
        match outcomes.last() {
            Ok(_) => rest,
            Err(e) => rest.push(e.kind),
        }
    }
}

/// Successes of a concatenation are the successes of each part, in order.
pub proof fn lemma_successes_append<T>(a: Seq<Result<T, PluginError>>, b: Seq<Result<T, PluginError>>)
    ensures
        successes(a + b) == successes(a) + successes(b),
    decreases b.len(),
{
    if b.len() == 0 {
        assert(a + b =~= a);
        assert(successes(a) + successes(b) =~= successes(a));
    } else {
        lemma_successes_append(a, b.drop_last());
        assert((a + b).drop_last() =~= a + b.drop_last());
        assert((a + b).last() == b.last());
        assert(successes(a + b) =~= successes(a) + successes(b));
    }
}

/// A failed load is isolated: putting a failure anywhere among the outcomes of
/// a scan leaves the registered instances, and their order, exactly as they
/// were without it.
pub proof fn failed_load_is_isolated<T>(
    before: Seq<Result<T, PluginError>>,
    failed: PluginError,
    after: Seq<Result<T, PluginError>>,
)
    ensures
        successes(before + seq![Err(failed)] + after) == successes(before + after),
{
    let f = seq![Err::<T, PluginError>(failed)];
    lemma_successes_append(before + f, after);
    lemma_successes_append(before, f);
    lemma_successes_append(before, after);
    assert(f.drop_last() =~= Seq::<Result<T, PluginError>>::empty());
    assert(f.last() == Err::<T, PluginError>(failed));
    assert(successes(f.drop_last()) =~= Seq::<T>::empty());
    assert(successes(f) =~= Seq::<T>::empty());
    assert(successes(before) + successes(f) =~= successes(before));
}

/// An append-only sequence of loaded instances. Once registered, an entry keeps
/// its position for the life of the registry.
pub struct Registry<T> {
    entries: Vec<T>,
}

impl<T> View for Registry<T> {
    type V = Seq<T>;

    closed spec fn view(&self) -> Seq<T> {
        self.entries@
    }
}

impl<T> Registry<T> {
    /// A registry with no entries.
    pub fn new() -> (r: Registry<T>)
        ensures
            r@ == Seq::<T>::empty(),
    {
        Registry { entries: Vec::new() }
    }

    /// Number of registered entries.
    pub fn len(&self) -> (r: usize)
        ensures
            r == self@.len(),
    {
        self.entries.len()
    }

    /// Whether nothing is registered.
    pub fn is_empty(&self) -> (r: bool)
        ensures
            r == (self@.len() == 0),
    {
        self.entries.len() == 0
    }

    /// Appends `entry` and returns the position it was given.
    pub fn register(&mut self, entry: T) -> (r: usize)
        requires
            old(self)@.len() < usize::MAX,
        ensures
            final(self)@ == old(self)@.push(entry),
            r == old(self)@.len(),
    {
        let index = self.entries.len();
        self.entries.push(entry);
        index
    }

    /// The entry at `index`, or `NotFound` when no entry sits there.
    pub fn entry_mut(&mut self, index: usize) -> (r: Result<&mut T, PluginError>)
        ensures
            r is Ok <==> index < old(self)@.len(),
            r matches Err(e) ==> e.kind == ErrorKind::NotFound,
            r matches Ok(t) ==> *t == old(self)@[index as int],
            r matches Ok(t) ==> final(self)@ == old(self)@.update(index as int, *final(t)),
            r is Err ==> final(self)@ == old(self)@,
    {
        if index >= self.entries.len() {
            return Err(PluginError::new(ErrorKind::NotFound, "no plugin registered at this position".to_string()));
        }
        Ok(&mut self.entries[index])
    }

    /// Registers each successful load outcome in order and hands back the failed
    /// ones: a failed load takes no position and keeps no other file from
    /// being registered.
    pub fn register_outcomes(&mut self, outcomes: Vec<Result<T, PluginError>>) -> (failures: Vec<PluginError>)
        requires
            old(self)@.len() + outcomes@.len() <= usize::MAX,
        ensures
            final(self)@ == old(self)@ + successes(outcomes@),
            failures@.map_values(|e: PluginError| e.kind) == failure_kinds(outcomes@),
    {
        let ghost all = outcomes@;
        let mut rest = outcomes;
        let mut failures: Vec<PluginError> = Vec::new();
        let mut done: usize = 0;
        while rest.len() > 0
            invariant
                done + rest@.len() == all.len(),
                rest@ == all.subrange(done as int, all.len() as int),
                self@ == old(self)@ + successes(all.subrange(0, done as int)),
                failures@.map_values(|e: PluginError| e.kind) == failure_kinds(all.subrange(0, done as int)),
                old(self)@.len() + all.len() <= usize::MAX,
                successes(all.subrange(0, done as int)).len() <= done,
            decreases rest@.len(),
        {
            proof {
                let prefix = all.subrange(0, done as int + 1);
                assert(prefix.drop_last() =~= all.subrange(0, done as int));
                assert(prefix.last() == rest@[0]);
            }
            let outcome = rest.remove(0);
            let ghost before_entries = self@;
            let ghost before_failures = failures@;
            match outcome {
                Ok(t) => {
                    self.entries.push(t);
                    proof {
                        assert(self@ =~= old(self)@ + successes(all.subrange(0, done as int + 1)));
                    }
                },
                Err(e) => {
                    failures.push(e);
                    proof {
                        assert(self@ =~= old(self)@ + successes(all.subrange(0, done as int + 1)));
                        assert(failures@.map_values(|e: PluginError| e.kind) =~= before_failures.map_values(
                            |e: PluginError| e.kind,
                        ).push(all[done as int]->Err_0.kind));
                    }
                },
            }
            done = done + 1;
            proof {
                assert(rest@ =~= all.subrange(done as int, all.len() as int));
            }
        }
        proof {
            assert(all.subrange(0, done as int) =~= all);
        }
        failures
    }
}

} // verus!
