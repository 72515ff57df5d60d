//! Sweeps over the registered plugins: initialising them all, shutting
//! them all down.
//!
//! The library keeps the books and the caller does the work. A sweep names
//! the plugin whose turn it is; the caller runs that plugin's hook and
//! records how it went; the sweep moves on, whatever the outcome. At the
//! end the sweep says whether every hook succeeded.

use crate::api::verdict_view_of;
use crate::paths::names;
use crate::registry::PluginRegistry;
use vstd::prelude::*;

verus! {

/// What a sweep reports when a hook failed.
pub open spec fn failed_message() -> Seq<char> {
    "One or more plugins failed"@
}

/// What a sweep reports when it is asked for its result too early.
pub open spec fn unfinished_message() -> Seq<char> {
    "Not every plugin was processed"@
}

/// What a sweep over `total` plugins reports once `done` of them had their
/// turn and `failures` of those failed.
pub open spec fn sweep_verdict(total: nat, done: nat, failures: nat) -> Result<(), Seq<char>> {
    if failures > 0 {
        Err(failed_message())
    } else if done < total {
        Err(unfinished_message())
    } else {
        Ok(())
    }
}

/// One pass over the plugins that were registered when it began.
pub struct Sweep {
    ids: Vec<String>,
    next: usize,
    failed: usize,
}

impl Sweep {
    #[verifier::type_invariant]
    spec fn well_formed(&self) -> bool {
        self.failed <= self.next <= self.ids@.len()
    }

    /// The ids that the sweep goes through, in its order.
    pub closed spec fn ids(&self) -> Seq<Seq<char>> {
        names(self.ids@)
    }

    /// How many plugins had their turn.
    pub closed spec fn done(&self) -> nat {
        self.next as nat
    }

    /// How many of them failed.
    pub closed spec fn failures(&self) -> nat {
        self.failed as nat
    }

    /// Begins a sweep over the given ids.
    pub fn over(ids: Vec<String>) -> (sweep: Sweep)
        ensures
            sweep.ids() == names(ids@),
            sweep.done() == 0,
            sweep.failures() == 0,
    {
        Sweep { ids, next: 0, failed: 0 }
    }

    /// The id of the plugin whose turn it is, or `None` once every plugin
    /// had its turn.
    pub fn pending(&self) -> (turn: Option<&str>)
        ensures
            self.failures() <= self.done() <= self.ids().len(),
            match turn {
                Some(id) => self.done() < self.ids().len() && id@ == self.ids()[self.done() as int],
                None => self.done() == self.ids().len(),
            },
    {
        proof {
            use_type_invariant(self);
        }
        if self.next < self.ids.len() {
            Some(self.ids[self.next].as_str())
        } else {
            None
        }
    }

    /// Records how the hook of the pending plugin went and moves on to the
    /// next plugin: a failure is counted and never ends the sweep. With no
    /// plugin pending nothing changes.
    pub fn record(&mut self, succeeded: bool)
        ensures
            final(self).ids() == old(self).ids(),
            old(self).done() < old(self).ids().len() ==> final(self).done() == old(self).done() + 1
                && final(self).failures() == old(self).failures() + if succeeded {
                0nat
            } else {
                1nat
            },
            old(self).done() >= old(self).ids().len() ==> final(self).done() == old(self).done()
                && final(self).failures() == old(self).failures(),
    {
        proof {
            use_type_invariant(&*self);
        }
        if self.next < self.ids.len() {
            self.next = self.next + 1;
            if !succeeded {
                self.failed = self.failed + 1;
            }
        }
    }

    /// The result of the sweep: `Ok` where every plugin had its turn and
    /// no hook failed.
    pub fn finish(&self) -> (r: Result<(), String>)
        ensures
            verdict_view_of(r) == sweep_verdict(self.ids().len(), self.done(), self.failures()),
    {
        if self.failed > 0 {
            Err("One or more plugins failed".to_owned())
        } else if self.next < self.ids.len() {
            Err("Not every plugin was processed".to_owned())
        } else {
            Ok(())
        }
    }
}

impl PluginRegistry {
    /// Begins a sweep over the plugins that are registered now, each once.
    pub fn sweep(&self) -> (sweep: Sweep)
        ensures
            sweep.ids().no_duplicates(),
            sweep.ids().to_set() == self@.dom(),
            sweep.done() == 0,
            sweep.failures() == 0,
    {
        match self.list_plugins() {
            Ok(ids) => Sweep::over(ids),
            Err(_) => Sweep::over(Vec::new()),
        }
    }
}

} // verus!
