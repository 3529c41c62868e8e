//! Lifecycle of the background refresh task.
//!
//! At most one task at a time may deliver results to the consumer. The
//! orchestrator models each spawned task by a generation number and keeps
//! the generation whose channel still reaches the consumer; a manual
//! refresh retires the old generation by replacing the channel, so even a
//! task that survives the hard cancel finds its sends failing and exits.
//! The driver that actually spawns, aborts and polls is unverified plumbing
//! around these transitions.

use vstd::prelude::*;

verus! {

/// Seconds between automatic refreshes.
pub const REFRESH_INTERVAL_SECS: u64 = 300;

/// The lifecycle state of the background refresh machinery.
pub struct RefreshOrchestrator {
    /// The configured provider identity; simulation mode has none and never
    /// runs a background task.
    pub provider: Option<crate::types::Provider>,
    /// How many tasks have ever been spawned; the next task's generation.
    pub spawned: u64,
    /// The generation whose channel reaches the consumer, if a task runs.
    pub live: Option<u64>,
    /// Whether a manual refresh is underway, for UI feedback.
    pub refreshing: bool,
}

/// The states the transitions can actually reach: only spawned generations
/// are live.
pub open spec fn spec_orchestrator_wf(o: RefreshOrchestrator) -> bool {
    o.live matches Some(g) ==> g < o.spawned
}

/// The manual-refresh transition: with a provider configured, the previous
/// task (if any) is retired, a brand-new generation becomes the only live
/// one, and the refreshing flag is raised; with no provider it is a no-op.
pub open spec fn spec_manual_refresh(
    pre: RefreshOrchestrator,
    post: RefreshOrchestrator,
) -> bool {
    if pre.provider is Some {
        &&& post == (RefreshOrchestrator {
            spawned: (pre.spawned + 1) as u64,
            live: Some(pre.spawned),
            refreshing: true,
            ..pre
        })
        &&& pre.spawned < u64::MAX
    } else {
        post == pre
    }
}

impl RefreshOrchestrator {
    /// An idle orchestrator for the given provider configuration: no task
    /// has run and none is live.
    pub fn new(provider: Option<crate::types::Provider>) -> (o: Self)
        ensures
            o.provider == provider,
            o.spawned == 0,
            o.live is None,
            !o.refreshing,
            spec_orchestrator_wf(o),
    {
        RefreshOrchestrator { provider, spawned: 0, live: None, refreshing: false }
    }

    /// Start the periodic task. Only an orchestrator with a provider and no
    /// live task spawns one; the returned generation identifies it. The
    /// spawned task is the only live one.
    pub fn start(&mut self) -> (spawned_generation: Option<u64>)
        requires
            spec_orchestrator_wf(*old(self)),
            old(self).spawned < u64::MAX,
        ensures
            spec_orchestrator_wf(*final(self)),
            final(self).provider == old(self).provider,
            final(self).refreshing == old(self).refreshing,
            match spawned_generation {
                Some(g) => {
                    &&& old(self).provider is Some && old(self).live is None
                    &&& g == old(self).spawned
                    &&& final(self).spawned == old(self).spawned + 1
                    &&& final(self).live == Some(g)
                },
                None => {
                    &&& old(self).provider is None || old(self).live is Some
                    &&& *final(self) == *old(self)
                },
            },
    {
        if self.provider.is_none() || self.live.is_some() {
            return None;
        }
        let generation = self.spawned;
        self.spawned = self.spawned + 1;
        self.live = Some(generation);
        Some(generation)
    }

    /// Manually refresh: retire the current task's channel and spawn a
    /// brand-new generation, which becomes the only live one. A no-op when
    /// no provider is configured. Returns the new task's generation.
    pub fn manual_refresh(&mut self) -> (spawned_generation: Option<u64>)
        requires
            spec_orchestrator_wf(*old(self)),
            old(self).spawned < u64::MAX,
        ensures
            spec_orchestrator_wf(*final(self)),
            spec_manual_refresh(*old(self), *final(self)),
            old(self).provider is Some ==> spawned_generation == final(self).live,
            old(self).provider is None ==> spawned_generation is None && *final(self) == *old(
                self,
            ),
    {
        if self.provider.is_none() {
            return None;
        }
        let generation = self.spawned;
        self.spawned = self.spawned + 1;
        self.live = Some(generation);
        self.refreshing = true;
        Some(generation)
    }

    /// Whether a send from the task of generation `generation` can reach
    /// the consumer: only the live generation's channel is intact.
    pub fn can_deliver(&self, generation: u64) -> (r: bool)
        ensures
            r == (self.live == Some(generation)),
    {
        match self.live {
            Some(live_generation) => live_generation == generation,
            None => false,
        }
    }

    /// Note that the consumer received a result: the manual refresh, if one
    /// was underway, is over.
    pub fn note_result_delivered(&mut self)
        ensures
            *final(self) == (RefreshOrchestrator { refreshing: false, ..*old(self) }),
    {
        self.refreshing = false;
    }

    /// Tear the orchestrator down: the receiver is dropped, so no task's
    /// sends can reach the consumer any more and every live task exits on
    /// its next send.
    pub fn teardown(&mut self)
        ensures
            *final(self) == (RefreshOrchestrator { live: None, ..*old(self) }),
    {
        self.live = None;
    }
}

/// Two manual refreshes in a row leave exactly one live task — the one the
/// second refresh spawned: its sends alone can reach the consumer, and in
/// particular the task of the first refresh is retired.
pub proof fn lemma_two_refreshes_single_live(
    s0: RefreshOrchestrator,
    s1: RefreshOrchestrator,
    s2: RefreshOrchestrator,
)
    requires
        s0.provider is Some,
        spec_manual_refresh(s0, s1),
        spec_manual_refresh(s1, s2),
    ensures
        s2.live == Some(s1.spawned),
        forall|g: u64| (s2.live == Some(g)) <==> g == s1.spawned,
        s1.live matches Some(g1) ==> s2.live != Some(g1),
{
}

/// Results reach the consumer from at most one generation at any state: the
/// delivery test picks out a single generation.
pub proof fn lemma_at_most_one_live(o: RefreshOrchestrator, g1: u64, g2: u64)
    requires
        o.live == Some(g1),
        o.live == Some(g2),
    ensures
        g1 == g2,
{
}

} // verus!
