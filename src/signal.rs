use vstd::prelude::*;

verus! {

/// Something that wakes the waiter of a direct run.
pub enum SignalEvent {
    /// The operator interrupted the process.
    Interrupt,
    /// The application asked to restart with this configuration.
    RestartWith(String),
    /// The application asked to shut down.
    Shutdown,
}

/// The configuration that an event leaves pending.
pub open spec fn spec_event_config(ev: SignalEvent) -> Option<Seq<char>> {
    match ev {
        SignalEvent::RestartWith(config) => Some(config@),
        _ => None,
    }
}

/// The cell that the interrupt handler and the application's callbacks write
/// and the direct run's single waiter reads.
pub struct RestartSignal {
    pub requested: bool,
    pub pending_config: Option<String>,
}

/// The abstract state of a restart signal.
pub struct SignalState {
    pub requested: bool,
    pub pending_config: Option<Seq<char>>,
}

/// The state of a signal on which `ev` has been delivered: any event marks
/// the signal requested, and the pending configuration is that of the event.
pub open spec fn spec_deliver(s: SignalState, ev: SignalEvent) -> SignalState {
    SignalState { requested: true, pending_config: spec_event_config(ev) }
}

/// The state after delivering `evs` in order, starting from `s`.
pub open spec fn spec_deliver_all(s: SignalState, evs: Seq<SignalEvent>) -> SignalState
    decreases evs.len(),
{
    if evs.len() == 0 {
        s
    } else {
        spec_deliver(spec_deliver_all(s, evs.drop_last()), evs.last())
    }
}

/// How a direct run that was woken ends.
pub enum WakeDecision {
    /// Persist this configuration and exit with the restart code.
    Restart(String),
    /// Exit normally.
    Shutdown,
}

/// The configuration a decision persists, if any.
pub open spec fn spec_decision_config(d: WakeDecision) -> Option<Seq<char>> {
    match d {
        WakeDecision::Restart(config) => Some(config@),
        WakeDecision::Shutdown => None,
    }
}

impl View for RestartSignal {
    type V = SignalState;

    open spec fn view(&self) -> SignalState {
        SignalState {
            requested: self.requested,
            pending_config: match self.pending_config {
                Some(c) => Some(c@),
                None => None,
            },
        }
    }
}

impl RestartSignal {
    /// A pending configuration is only ever left by a request.
    pub open spec fn wf(&self) -> bool {
        self.pending_config is Some ==> self.requested
    }

    /// A signal that nothing has woken yet.
    pub fn new() -> (r: RestartSignal)
        ensures
            r.wf(),
            !r@.requested,
            r@.pending_config is None,
    {
        RestartSignal { requested: false, pending_config: None }
    }

    /// Records `ev`; the last event delivered before the waiter reads the
    /// signal decides what the waiter does.
    pub fn deliver(&mut self, ev: SignalEvent)
        ensures
            final(self).wf(),
            final(self)@ == spec_deliver(old(self)@, ev),
    {
        self.requested = true;
        self.pending_config = match ev {
            SignalEvent::RestartWith(config) => Some(config),
            _ => None,
        };
    }

    /// The operator's interrupt: requested, with no configuration to switch to.
    pub fn interrupt(&mut self)
        ensures
            final(self).wf(),
            final(self)@ == spec_deliver(old(self)@, SignalEvent::Interrupt),
    {
        self.deliver(SignalEvent::Interrupt);
    }

    /// The application's request to restart with the configuration `config`.
    pub fn request_restart(&mut self, config: String)
        ensures
            final(self).wf(),
            final(self)@ == spec_deliver(old(self)@, SignalEvent::RestartWith(config)),
    {
        self.deliver(SignalEvent::RestartWith(config));
    }

    /// The application's request to shut down.
    pub fn request_shutdown(&mut self)
        ensures
            final(self).wf(),
            final(self)@ == spec_deliver(old(self)@, SignalEvent::Shutdown),
    {
        self.deliver(SignalEvent::Shutdown);
    }

    /// What the waiter does once woken: restart with the pending
    /// configuration where there is one, shut down otherwise.
    pub fn decide(&self) -> (r: WakeDecision)
        ensures
            spec_decision_config(r) == self@.pending_config,
    {
        match &self.pending_config {
            Some(config) => WakeDecision::Restart(config.clone()),
            None => WakeDecision::Shutdown,
        }
    }
}

/// However many events arrive before the waiter reads the signal, it is
/// marked requested and holds the configuration of the last of them alone,
/// so the single decision the waiter makes is that of the last event.
pub proof fn lemma_last_event_decides(s: SignalState, evs: Seq<SignalEvent>)
    requires
        evs.len() > 0,
    ensures
        spec_deliver_all(s, evs).requested,
        spec_deliver_all(s, evs).pending_config == spec_event_config(evs.last()),
        spec_deliver_all(s, evs) == spec_deliver(s, evs.last()),
{
}

} // verus!
