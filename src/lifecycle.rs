//! The lifecycle state: whether a supervised process is believed to run, and
//! the handle that owns it. One value of this type lives behind the host's
//! single lock, so each method below is one atomic transition.
use vstd::prelude::*;

verus! {

/// What a caller may observe of a [`Lifecycle`].
pub struct LifecycleView<H> {
    pub running: bool,
    pub handle: Option<H>,
}

/// One thing that can happen to the lifecycle state.
pub enum LifecycleEvent<H> {
    /// A start request; `Some` carries the handle of a spawn that succeeded,
    /// `None` a spawn that failed. A request made while running spawns nothing.
    Start(Option<H>),
    /// An explicit stop request.
    Stop,
    /// The output relay saw the process end on its own.
    Terminated,
}

/// What a start request has to do next.
#[derive(PartialEq, Eq, Structural, Debug, Clone, Copy)]
pub enum StartStep {
    /// A process is already supervised: nothing is spawned.
    AlreadyRunning,
    /// No process runs: spawn one.
    Spawn,
}

impl<H> LifecycleView<H> {
    /// The state before any start.
    pub open spec fn idle() -> Self {
        LifecycleView { running: false, handle: None }
    }

    /// A handle is held exactly while the process is believed to run.
    pub open spec fn wf(self) -> bool {
        self.handle.is_some() == self.running
    }

    /// What a start request decides in this state.
    pub open spec fn start_step(self) -> StartStep {
        if self.running {
            StartStep::AlreadyRunning
        } else {
            StartStep::Spawn
        }
    }

    /// The handle that a stop request takes over in this state, to terminate it.
    pub open spec fn taken_by_stop(self) -> Option<H> {
        if self.running {
            self.handle
        } else {
            None
        }
    }

    /// The state after one event.
    pub open spec fn step(self, e: LifecycleEvent<H>) -> Self {
        match e {
            LifecycleEvent::Start(spawned) => {
                if self.running {
                    self
                } else {
                    match spawned {
                        Some(h) => LifecycleView { running: true, handle: Some(h) },
                        None => self,
                    }
                }
            },
            LifecycleEvent::Stop => {
                if self.running {
                    LifecycleView { running: false, handle: None }
                } else {
                    self
                }
            },
            LifecycleEvent::Terminated => LifecycleView { running: false, handle: None },
        }
    }

    /// The state after a sequence of events, in order.
    pub open spec fn run(self, events: Seq<LifecycleEvent<H>>) -> Self
        decreases events.len(),
    {
        if events.len() == 0 {
            self
        } else {
            self.step(events[0]).run(events.drop_first())
        }
    }
}

/// Whether a supervised process runs, and the handle that owns it.
pub struct Lifecycle<H> {
    running: bool,
    handle: Option<H>,
}

impl<H> View for Lifecycle<H> {
    type V = LifecycleView<H>;

    closed spec fn view(&self) -> LifecycleView<H> {
        LifecycleView { running: self.running, handle: self.handle }
    }
}

impl<H> Lifecycle<H> {
    /// A handle is held exactly while the process is believed to run.
    #[verifier::type_invariant]
    closed spec fn handle_iff_running(self) -> bool {
        self.handle.is_some() == self.running
    }

    /// The state before any start: nothing runs, no handle is held.
    pub fn new() -> (r: Self)
        ensures
            r@ == LifecycleView::<H>::idle(),
            r@.wf(),
    {
        Lifecycle { running: false, handle: None }
    }

    /// Whether a process is believed to run (and so, whether a handle is held).
    pub fn is_running(&self) -> (r: bool)
        ensures
            r == self@.running,
            self@.wf(),
    {
        proof {
            use_type_invariant(self);
        }
        self.running
    }

    /// Whether a handle is held.
    pub fn has_handle(&self) -> (r: bool)
        ensures
            r == self@.handle.is_some(),
    {
        self.handle.is_some()
    }

    /// What a start request must do: nothing while a process runs, else spawn.
    pub fn begin_start(&self) -> (r: StartStep)
        ensures
            r == self@.start_step(),
    {
        if self.running {
            StartStep::AlreadyRunning
        } else {
            StartStep::Spawn
        }
    }

    /// Records the handle of a process that was just spawned, and marks it running.
    pub fn record_spawn(&mut self, child: H)
        requires
            !old(self)@.running,
        ensures
            final(self)@ == old(self)@.step(LifecycleEvent::Start(Some(child))),
            final(self)@.running,
            final(self)@.wf(),
    {
        *self = Lifecycle { running: true, handle: Some(child) };
    }

    /// A stop request: takes over the handle, if a process runs, and marks it
    /// stopped. The caller terminates what it gets back; a second stop gets `None`.
    pub fn take_for_stop(&mut self) -> (r: Option<H>)
        ensures
            r == old(self)@.taken_by_stop(),
            final(self)@ == old(self)@.step(LifecycleEvent::Stop),
            !final(self)@.running,
            final(self)@.wf(),
    {
        proof {
            use_type_invariant(&*self);
        }
        if !self.running {
            return None;
        }
        self.clear()
    }

    /// The process ended on its own: marks it stopped and gives back the handle
    /// if one was still held. Safe whether or not a stop already ran.
    pub fn on_terminated(&mut self) -> (r: Option<H>)
        ensures
            r == old(self)@.handle,
            final(self)@ == old(self)@.step(LifecycleEvent::Terminated),
            !final(self)@.running,
            final(self)@.wf(),
    {
        self.clear()
    }

    /// Puts the idle state in place and returns the handle that was held.
    fn clear(&mut self) -> (r: Option<H>)
        ensures
            r == old(self)@.handle,
            final(self)@ == LifecycleView::<H>::idle(),
    {
        let mut previous = Lifecycle { running: false, handle: None };
        std::mem::swap(self, &mut previous);
        let Lifecycle { running: _, handle } = previous;
        handle
    }
}

/// Starting twice spawns once: a first start in an idle state asks for a spawn;
/// once that spawn is recorded, a second start finds the process running, asks
/// for nothing and leaves the state, and its one handle, as they were.
pub proof fn lemma_start_twice_spawns_once<H>(s: LifecycleView<H>, child: H, second: Option<H>)
    requires
        s.wf(),
        !s.running,
    ensures
        s.start_step() == StartStep::Spawn,
        s.step(LifecycleEvent::Start(Some(child))).start_step() == StartStep::AlreadyRunning,
        s.step(LifecycleEvent::Start(Some(child))).step(LifecycleEvent::Start(second)) == s.step(
            LifecycleEvent::Start(Some(child)),
        ),
        s.step(LifecycleEvent::Start(Some(child))).handle == Some(child),
{
}

/// Each event keeps a well-formed state well-formed.
pub proof fn lemma_step_keeps_wf<H>(s: LifecycleView<H>, e: LifecycleEvent<H>)
    requires
        s.wf(),
    ensures
        s.step(e).wf(),
{
}

/// After any sequence of start, stop and termination events from a well-formed
/// state (the idle state of `Lifecycle::new` is one), a handle is held exactly while the
/// process is believed to run.
pub proof fn lemma_events_keep_handle_iff_running<H>(
    s: LifecycleView<H>,
    events: Seq<LifecycleEvent<H>>,
)
    requires
        s.wf(),
    ensures
        s.run(events).wf(),
    decreases events.len(),
{
    if events.len() > 0 {
        lemma_step_keeps_wf(s, events[0]);
        lemma_events_keep_handle_iff_running(s.step(events[0]), events.drop_first());
    }
}

} // verus!
