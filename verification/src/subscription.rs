//! The life of a subscription: idle, starting, running, stopping.

use vstd::prelude::*;

verus! {

/// Where a subscription stands.
#[derive(Clone, Copy, Debug, PartialEq, Eq, Structural, Hash)]
pub enum SubscriptionPhase {
    /// Nothing is subscribed.
    Idle,
    /// The channel is made and the tasks are being started.
    Starting,
    /// The tasks receive and process.
    Running,
    /// The tasks were told to end and are coming to rest.
    Stopping,
}

/// What is to be done to start a subscription.
#[derive(Clone, Copy, Debug, PartialEq, Eq, Structural)]
pub struct StartPlan {
    /// The subscription whose tasks must have ended before anything is
    /// started.
    pub cancel: Option<u64>,
    /// The number of the subscription that is started.
    pub generation: u64,
}

/// The one handle of the current subscription.
#[derive(Clone, Copy, Debug, PartialEq, Eq, Structural)]
pub struct SubscriptionState {
    pub phase: SubscriptionPhase,
    /// The number of the latest subscription.
    pub generation: u64,
}

/// The number after `generation`; after the last number comes 0.
pub open spec fn next_generation(generation: u64) -> u64 {
    if generation == u64::MAX {
        0
    } else {
        (generation + 1) as u64
    }
}

impl SubscriptionState {
    /// The subscription whose tasks may still be alive.
    pub open spec fn live(self) -> Option<u64> {
        if self.phase == SubscriptionPhase::Idle {
            None
        } else {
            Some(self.generation)
        }
    }

    /// Whether the tasks of this subscription may hand events to the caller.
    pub open spec fn delivers(self, generation: u64) -> bool {
        self.generation == generation && (self.phase == SubscriptionPhase::Running || self.phase
            == SubscriptionPhase::Stopping)
    }

    /// The state after a subscribe request.
    pub open spec fn after_subscribe(self) -> SubscriptionState {
        SubscriptionState {
            phase: SubscriptionPhase::Starting,
            generation: next_generation(self.generation),
        }
    }

    /// The state after a stop request.
    pub open spec fn after_stop(self) -> SubscriptionState {
        if self.phase == SubscriptionPhase::Starting || self.phase == SubscriptionPhase::Running {
            SubscriptionState { phase: SubscriptionPhase::Stopping, generation: self.generation }
        } else {
            self
        }
    }

    /// No subscription.
    pub fn new() -> (s: SubscriptionState)
        ensures
            s.phase == SubscriptionPhase::Idle,
            s.generation == 0,
    {
        SubscriptionState { phase: SubscriptionPhase::Idle, generation: 0 }
    }

    /// A subscribe request. Whatever subscription is alive has to be ended
    /// first; the new one gets the next number and is starting.
    pub fn subscribe(&mut self) -> (plan: StartPlan)
        ensures
            *final(self) == old(self).after_subscribe(),
            plan.cancel == old(self).live(),
            plan.generation == final(self).generation,
    {
        let cancel = match self.phase {
            SubscriptionPhase::Idle => None,
            _ => Some(self.generation),
        };
        let generation: u64 = if self.generation == u64::MAX {
            0
        } else {
            self.generation + 1
        };
        self.phase = SubscriptionPhase::Starting;
        self.generation = generation;
        StartPlan { cancel, generation }
    }

    /// Both tasks of the subscription have been started. Says whether the
    /// subscription is the current one and was starting; if so it runs now.
    pub fn started(&mut self, generation: u64) -> (ok: bool)
        ensures
            ok == (old(self).phase == SubscriptionPhase::Starting && old(self).generation == generation),
            ok ==> *final(self) == (SubscriptionState { phase: SubscriptionPhase::Running, ..*old(self) }),
            !ok ==> *final(self) == *old(self),
    {
        if self.phase == SubscriptionPhase::Starting && self.generation == generation {
            self.phase = SubscriptionPhase::Running;
            true
        } else {
            false
        }
    }

    /// The source could not be reached. A subscription that was starting is
    /// given up and nothing is left of it.
    pub fn start_failed(&mut self, generation: u64) -> (ok: bool)
        ensures
            ok == (old(self).phase == SubscriptionPhase::Starting && old(self).generation == generation),
            ok ==> *final(self) == (SubscriptionState { phase: SubscriptionPhase::Idle, ..*old(self) }),
            !ok ==> *final(self) == *old(self),
    {
        if self.phase == SubscriptionPhase::Starting && self.generation == generation {
            self.phase = SubscriptionPhase::Idle;
            true
        } else {
            false
        }
    }

    /// A stop request. Gives the subscription whose tasks are to be
    /// cancelled; nothing where none is starting or running.
    pub fn stop(&mut self) -> (cancel: Option<u64>)
        ensures
            *final(self) == old(self).after_stop(),
            cancel.is_some() == (old(self).phase == SubscriptionPhase::Starting || old(self).phase
                == SubscriptionPhase::Running),
            cancel matches Some(g) ==> g == old(self).generation,
    {
        match self.phase {
            SubscriptionPhase::Starting | SubscriptionPhase::Running => {
                self.phase = SubscriptionPhase::Stopping;
                Some(self.generation)
            },
            _ => None,
        }
    }

    /// The source has closed. A running subscription stops: what is in the
    /// channel is still processed and a batch that waits is handed on.
    pub fn source_closed(&mut self, generation: u64) -> (ok: bool)
        ensures
            ok == (old(self).phase == SubscriptionPhase::Running && old(self).generation == generation),
            ok ==> *final(self) == (SubscriptionState { phase: SubscriptionPhase::Stopping, ..*old(self) }),
            !ok ==> *final(self) == *old(self),
    {
        if self.phase == SubscriptionPhase::Running && self.generation == generation {
            self.phase = SubscriptionPhase::Stopping;
            true
        } else {
            false
        }
    }

    /// The tasks of the subscription have ended.
    pub fn stopped(&mut self, generation: u64) -> (ok: bool)
        ensures
            ok == (old(self).phase == SubscriptionPhase::Stopping && old(self).generation == generation),
            ok ==> *final(self) == (SubscriptionState { phase: SubscriptionPhase::Idle, ..*old(self) }),
            !ok ==> *final(self) == *old(self),
    {
        if self.phase == SubscriptionPhase::Stopping && self.generation == generation {
            self.phase = SubscriptionPhase::Idle;
            true
        } else {
            false
        }
    }

    /// Whether the tasks of this subscription may hand events to the caller.
    pub fn may_deliver(&self, generation: u64) -> (b: bool)
        ensures
            b == self.delivers(generation),
    {
        self.generation == generation && (self.phase == SubscriptionPhase::Running || self.phase
            == SubscriptionPhase::Stopping)
    }

    /// Stopping twice is stopping once.
    pub proof fn lemma_stop_idempotent(self)
        ensures
            self.after_stop().after_stop() == self.after_stop(),
            self.phase == SubscriptionPhase::Idle ==> self.after_stop() == self,
    {
    }

    /// In no state do two subscriptions deliver.
    pub proof fn lemma_one_delivers(self, a: u64, b: u64)
        requires
            self.delivers(a),
            self.delivers(b),
        ensures
            a == b,
    {
    }

    /// After a stop and a subscribe right behind it, the earlier subscription
    /// delivers nothing more, and the plan names it as the one to end first
    /// if it was alive.
    pub proof fn lemma_stop_then_subscribe(self, earlier: u64)
        requires
            earlier == self.generation,
        ensures
            !self.after_stop().after_subscribe().delivers(earlier),
            self.after_stop().live() == self.live(),
            self.after_stop().after_subscribe().live() == Some(next_generation(earlier)),
    {
    }
}

impl Default for SubscriptionState {
    fn default() -> (s: SubscriptionState)
        ensures
            s.phase == SubscriptionPhase::Idle,
            s.generation == 0,
    {
        SubscriptionState::new()
    }
}

} // verus!
