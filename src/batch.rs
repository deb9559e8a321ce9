//! Per-item work over a list of assets (generating artifacts, removing
//! orphans). The caller performs each item and reports its outcome; a failed
//! item is recorded and the batch goes on with the next one.
use vstd::prelude::*;
use crate::catalog::Emote;
use crate::json::indexjson::{build_manifest, entries_of, entries_view, emotes_dir, Manifest};
use crate::plan::SyncPlan;

verus! {

/// An item that failed, with the message of its error.
#[derive(Debug)]
pub struct Failure {
    pub file_name: String,
    pub message: String,
}

/// A batch in progress: its items, in order, and the outcomes reported so
/// far for its first items (`None` for success, else the error's message).
#[derive(Debug)]
pub struct Batch {
    items: Vec<Emote>,
    outcomes: Vec<Option<String>>,
}

/// The views of the outcomes: `None` for success, else the message.
pub open spec fn outcome_view(o: Option<String>) -> Option<Seq<char>> {
    match o {
        Some(m) => Some(m@),
        None => None,
    }
}

/// The failures among the first outcomes, as file name and message.
pub open spec fn failures_of(items: Seq<Emote>, outcomes: Seq<Option<Seq<char>>>) -> Seq<(Seq<char>, Seq<char>)>
    decreases outcomes.len(),
{
    if outcomes.len() == 0 {
        Seq::empty()
    } else {
        let prev = failures_of(items, outcomes.drop_last());
        match outcomes.last() {
            Some(m) => prev.push((items[outcomes.len() - 1].file_name@, m)),
            None => prev,
        }
    }
}

pub open spec fn failure_view(f: Failure) -> (Seq<char>, Seq<char>) {
    (f.file_name@, f.message@)
}

impl Batch {
    /// The items of the batch.
    pub closed spec fn items(&self) -> Seq<Emote> {
        self.items@
    }

    /// The outcomes reported so far, one for each of the first items.
    pub closed spec fn outcomes(&self) -> Seq<Option<Seq<char>>> {
        self.outcomes@.map_values(|o: Option<String>| outcome_view(o))
    }

    pub open spec fn wf(&self) -> bool {
        self.outcomes().len() <= self.items().len()
    }

    pub open spec fn complete(&self) -> bool {
        self.outcomes().len() == self.items().len()
    }

    /// A batch over these items, none of them done yet.
    pub fn new(items: Vec<Emote>) -> (r: Batch)
        ensures
            r.wf(),
            r.items() == items@,
            r.outcomes() == Seq::<Option<Seq<char>>>::empty(),
    {
        let r = Batch { items, outcomes: Vec::new() };
        proof {
            assert(r.outcomes() =~= Seq::<Option<Seq<char>>>::empty());
        }
        r
    }

    /// Every item has its outcome.
    pub fn is_complete(&self) -> (r: bool)
        requires
            self.wf(),
        ensures
            r == self.complete(),
    {
        self.outcomes.len() == self.items.len()
    }

    /// The item to perform next, or `None` once every item has its outcome.
    pub fn pending(&self) -> (r: Option<&Emote>)
        requires
            self.wf(),
        ensures
            match r {
                Some(e) => !self.complete() && *e == self.items()[self.outcomes().len() as int],
                None => self.complete(),
            },
    {
        if self.outcomes.len() < self.items.len() {
            Some(&self.items[self.outcomes.len()])
        } else {
            None
        }
    }

    /// Records the outcome of the pending item; the batch moves on to the
    /// next item whether or not it succeeded.
    pub fn record(&mut self, outcome: Option<String>)
        requires
            old(self).wf(),
            !old(self).complete(),
        ensures
            final(self).wf(),
            final(self).items() == old(self).items(),
            final(self).outcomes() == old(self).outcomes().push(outcome_view(outcome)),
    {
        let ghost before = self.outcomes@;
        self.outcomes.push(outcome);
        proof {
            assert(self.outcomes@.map_values(|o: Option<String>| outcome_view(o)) =~= before.map_values(
                |o: Option<String>| outcome_view(o),
            ).push(outcome_view(outcome)));
        }
    }

    /// The items that failed so far, in order, with their messages.
    pub fn failures(&self) -> (r: Vec<Failure>)
        requires
            self.wf(),
        ensures
            r@.map_values(|f: Failure| failure_view(f)) == failures_of(self.items(), self.outcomes()),
    {
        let ghost outs = self.outcomes();
        let mut r: Vec<Failure> = Vec::new();
        let mut i: usize = 0;
        while i < self.outcomes.len()
            invariant
                self.wf(),
                i <= self.outcomes@.len(),
                outs == self.outcomes(),
                r@.map_values(|f: Failure| failure_view(f)) == failures_of(self.items(), outs.subrange(0, i as int)),
            decreases self.outcomes@.len() - i,
        {
            proof {
                assert(outs.subrange(0, i as int + 1).drop_last() =~= outs.subrange(0, i as int));
                assert(outs[i as int] == outcome_view(self.outcomes@[i as int]));
            }
            let ghost before = r@;
            match &self.outcomes[i] {
                Some(m) => {
                    let f = Failure { file_name: self.items[i].file_name.clone(), message: m.clone() };
                    r.push(f);
                    proof {
                        assert(r@.map_values(|f: Failure| failure_view(f)) =~= before.map_values(
                            |f: Failure| failure_view(f),
                        ).push(failure_view(f)));
                    }
                },
                None => {},
            }
            i = i + 1;
        }
        proof {
            assert(outs.subrange(0, i as int) =~= outs);
        }
        r
    }
}

/// Ends a run once both batches have every outcome: the index describes the
/// whole source catalog of the plan, whatever the batches' outcomes were.
pub fn finish_run(repo_name: &String, plan: &SyncPlan, transforms: &Batch, removals: &Batch) -> (m: Manifest)
    requires
        transforms.wf(),
        removals.wf(),
        transforms.complete(),
        removals.complete(),
    ensures
        m.name@ == repo_name@,
        m.path@ == emotes_dir(),
        entries_view(m.emotes@) == entries_of(plan.source@),
{
    build_manifest(repo_name, &plan.source)
}

} // verus!
