//! The application bootstrapper: a single linear startup sequence that
//! registers the capability plugins in their fixed order, runs the one-shot
//! setup step, and then either enters the blocking run loop or aborts the
//! process with a fixed diagnostic.
//!
//! The sequence itself is modelled as a small state machine. The unverified
//! shell around the library drives it: it performs each outside action (the
//! actual plugin registration, the window lookup, the focus request, the run
//! loop) and hands the observed outcome back as a plain value.

use vstd::prelude::*;

use crate::plugins::Capability;
use crate::plugins::registration_order;
use crate::plugins::registration_plan;

verus! {

/// Phase of the startup sequence.
#[derive(Clone, Copy, Debug, PartialEq, Eq, Structural)]
pub enum Phase {
    /// The builder exists and plugins are being registered; the setup
    /// callback has not run.
    Registering,
    /// The setup callback has completed; the run loop has not been entered.
    AwaitingLaunch,
    /// The run loop started and the application is live.
    Running,
    /// The run loop failed to start and the process is to terminate.
    Aborted,
}

/// Outcome of the one-shot setup step, as observed by the host.
#[derive(Clone, Copy, Debug, PartialEq, Eq, Structural)]
pub enum SetupOutcome {
    /// A window named "main" existed and the focus request on it succeeded.
    FocusGranted,
    /// A window named "main" existed, a focus request was issued, and the
    /// request failed; the failure is swallowed.
    FocusDenied,
    /// No window named "main" existed; no focus request was issued.
    NoMainWindow,
}

/// What the host framework reports when asked to start the run loop.
#[derive(Clone, Copy, Debug, PartialEq, Eq, Structural)]
pub enum LaunchOutcome {
    /// The run loop started; it blocks until shutdown.
    Started,
    /// The run loop failed to start.
    Failed,
}

/// The bootstrapper's decision on the launch report.
#[derive(Clone, Copy, Debug, PartialEq, Eq, Structural)]
pub enum LaunchDecision {
    /// Hand control to the run loop until the application terminates.
    EnterRunLoop,
    /// Terminate the process with a non-zero status and the fixed
    /// launch-failure diagnostic.
    AbortProcess,
}

/// The startup state: which plugins have been registered so far, how many
/// times the setup callback has run, and the current phase.
pub struct Bootstrapper {
    registered: Vec<Capability>,
    setup_runs: u8,
    phase: Phase,
}

impl Bootstrapper {
    /// The plugins registered so far, in registration order.
    pub closed spec fn registered_caps(self) -> Seq<Capability> {
        self.registered@
    }

    /// How many times the setup callback has run.
    pub closed spec fn setup_count(self) -> nat {
        self.setup_runs as nat
    }

    /// The current phase of the startup sequence.
    pub closed spec fn phase_of(self) -> Phase {
        self.phase
    }

    /// Well-formedness of a startup state: the registered plugins are a
    /// prefix of the fixed order; the setup callback never runs more than
    /// once; it has not run while registration is under way, and has run
    /// exactly once in every later phase; and it runs only with every plugin
    /// registered.
    pub open spec fn wf(self) -> bool {
        &&& self.registered_caps().len() <= registration_order().len()
        &&& self.registered_caps() == registration_order().take(
            self.registered_caps().len() as int,
        )
        &&& self.setup_count() <= 1
        &&& (self.phase_of() is Registering <==> self.setup_count() == 0)
        &&& (self.setup_count() == 1 ==> self.registered_caps() == registration_order())
    }

    /// A fresh builder: no plugin registered, the setup callback not run.
    pub fn new() -> (b: Bootstrapper)
        ensures
            b.wf(),
            b.phase_of() is Registering,
            b.registered_caps() == Seq::<Capability>::empty(),
            b.setup_count() == 0,
    {
        let b = Bootstrapper { registered: Vec::new(), setup_runs: 0, phase: Phase::Registering };
        proof {
            assert(b.registered_caps() =~= registration_order().take(0));
        }
        b
    }

    /// Record the registration of the next plugin. Registration is strictly
    /// sequential: the capability must be the next one of the fixed order.
    pub fn register(&mut self, c: Capability)
        requires
            old(self).wf(),
            old(self).phase_of() is Registering,
            old(self).registered_caps().len() < registration_order().len(),
            c == registration_order()[old(self).registered_caps().len() as int],
        ensures
            final(self).wf(),
            final(self).phase_of() is Registering,
            final(self).registered_caps() == old(self).registered_caps().push(c),
            final(self).setup_count() == 0,
    {
        let ghost n = self.registered@.len() as int;
        self.registered.push(c);
        proof {
            assert(self.registered_caps() =~= registration_order().take(n + 1));
        }
    }

    /// Register every capability plugin, in the fixed order, on a fresh
    /// builder.
    pub fn register_all(&mut self)
        requires
            old(self).wf(),
            old(self).phase_of() is Registering,
            old(self).registered_caps().len() == 0,
        ensures
            final(self).wf(),
            final(self).phase_of() is Registering,
            final(self).registered_caps() == registration_order(),
            final(self).setup_count() == 0,
    {
        let plan = registration_plan();
        let mut i: usize = 0;
        while i < plan.len()
            invariant
                plan@ == registration_order(),
                self.wf(),
                self.phase_of() is Registering,
                self.setup_count() == 0,
                i <= plan.len(),
                self.registered_caps() == registration_order().take(i as int),
            decreases plan.len() - i,
        {
            self.register(plan[i]);
            i = i + 1;
        }
        proof {
            assert(self.registered_caps() =~= registration_order());
        }
    }

    /// Run the one-shot setup step. It requires every plugin to be
    /// registered, and runs at most once per application lifetime.
    ///
    /// `main_window_present` is whether a window named "main" existed when
    /// the callback looked it up; `focus_grant` is how the host answered the
    /// focus request, and is consulted only when such a window existed. A
    /// focus request is issued exactly when the window exists; a denied
    /// request is swallowed, so the setup step itself always completes.
    pub fn complete_setup(&mut self, main_window_present: bool, focus_grant: bool) -> (out:
        SetupOutcome)
        requires
            old(self).wf(),
            old(self).phase_of() is Registering,
            old(self).registered_caps() == registration_order(),
        ensures
            final(self).wf(),
            final(self).phase_of() is AwaitingLaunch,
            final(self).setup_count() == 1,
            old(self).setup_count() == 0,
            final(self).registered_caps() == old(self).registered_caps(),
            out is NoMainWindow <==> !main_window_present,
            out is FocusGranted <==> (main_window_present && focus_grant),
            out is FocusDenied <==> (main_window_present && !focus_grant),
    {
        self.phase = Phase::AwaitingLaunch;
        self.setup_runs = self.setup_runs + 1;
        if main_window_present {
            if focus_grant {
                SetupOutcome::FocusGranted
            } else {
                SetupOutcome::FocusDenied
            }
        } else {
            SetupOutcome::NoMainWindow
        }
    }

    /// Whether the setup callback has run.
    pub fn setup_has_run(&self) -> (b: bool)
        ensures
            b == (self.setup_count() == 1),
    {
        self.setup_runs == 1
    }

    /// How many plugins have been registered so far.
    pub fn registered_len(&self) -> (n: usize)
        ensures
            n == self.registered_caps().len(),
    {
        self.registered.len()
    }

    /// The capability registered at position `i` of the sequence.
    pub fn registered_at(&self, i: usize) -> (c: Capability)
        requires
            i < self.registered_caps().len(),
        ensures
            c == self.registered_caps()[i as int],
    {
        self.registered[i]
    }

    /// The current phase.
    pub fn current_phase(&self) -> (p: Phase)
        ensures
            p == self.phase_of(),
    {
        self.phase
    }

    /// Decide on the host's launch report: a started run loop is entered and
    /// never returned from until shutdown; a failed launch is fatal and
    /// aborts the process. There is no retry and no degraded mode.
    pub fn note_launch(&mut self, outcome: LaunchOutcome) -> (d: LaunchDecision)
        requires
            old(self).wf(),
            old(self).phase_of() is AwaitingLaunch,
        ensures
            final(self).wf(),
            final(self).setup_count() == 1,
            final(self).registered_caps() == old(self).registered_caps(),
            d is EnterRunLoop <==> outcome is Started,
            final(self).phase_of() is Running <==> outcome is Started,
            final(self).phase_of() is Aborted <==> outcome is Failed,
    {
        match outcome {
            LaunchOutcome::Started => {
                self.phase = Phase::Running;
                LaunchDecision::EnterRunLoop
            }
            LaunchOutcome::Failed => {
                self.phase = Phase::Aborted;
                LaunchDecision::AbortProcess
            }
        }
    }
}

/// The setup callback reports success to the host unconditionally: it has no
/// way to fail the startup sequence, whatever became of the focus request.
pub fn setup_report(out: SetupOutcome) -> (ok: bool)
    ensures
        ok,
{
    match out {
        SetupOutcome::FocusGranted => true,
        SetupOutcome::FocusDenied => true,
        SetupOutcome::NoMainWindow => true,
    }
}

/// The fixed, human-readable diagnostic emitted when the run loop fails to
/// start.
pub open spec fn launch_failure_text() -> Seq<char> {
    "Erreur lors du lancement de l'application Tax Free RDC"@
}

/// The diagnostic string shown on launch failure.
pub fn launch_failure_message() -> (msg: &'static str)
    ensures
        msg@ == launch_failure_text(),
{
    "Erreur lors du lancement de l'application Tax Free RDC"
}

/// The status the process terminates with on launch failure: non-zero.
pub fn abort_exit_code() -> (code: i32)
    ensures
        code == 1,
        code != 0,
{
    1
}

/// Plugin registration occurs in full before the setup callback runs: in any
/// well-formed state in which the callback has run, every capability of the
/// fixed order is registered, so all six are available inside the callback.
pub proof fn lemma_plugins_registered_before_setup(b: Bootstrapper, c: Capability)
    requires
        b.wf(),
        b.setup_count() >= 1,
    ensures
        b.registered_caps() == registration_order(),
        b.registered_caps().len() == 6,
        b.registered_caps().contains(c),
{
    crate::plugins::lemma_order_covers_all_capabilities(c);
}

/// The setup callback runs exactly once per application lifetime: never
/// while the builder is still registering plugins, and exactly once — never
/// twice — in every phase after registration.
pub proof fn lemma_setup_exactly_once(b: Bootstrapper)
    requires
        b.wf(),
    ensures
        b.setup_count() <= 1,
        b.phase_of() is Registering ==> b.setup_count() == 0,
        !(b.phase_of() is Registering) ==> b.setup_count() == 1,
{
}

/// The observable result of one whole pass of the startup sequence.
pub struct BootstrapRun {
    /// The final startup state.
    pub state: Bootstrapper,
    /// What became of the one-shot setup step.
    pub setup: SetupOutcome,
    /// The decision taken on the host's launch report.
    pub decision: LaunchDecision,
}

/// One whole pass of the startup sequence, from a fresh builder to the
/// launch decision: register the six plugins in their fixed order, run the
/// setup step once, then enter the run loop or abort.
///
/// The arguments are the host's answers, observed by the unverified shell:
/// whether a window named "main" existed at setup time, whether the focus
/// request (if issued) succeeded, and whether the run loop started.
pub fn bootstrap(main_window_present: bool, focus_grant: bool, launch: LaunchOutcome) -> (r:
    BootstrapRun)
    ensures
        r.state.wf(),
        r.state.registered_caps() == registration_order(),
        r.state.setup_count() == 1,
        r.setup is NoMainWindow <==> !main_window_present,
        r.setup is FocusGranted <==> (main_window_present && focus_grant),
        r.setup is FocusDenied <==> (main_window_present && !focus_grant),
        r.decision is EnterRunLoop <==> launch is Started,
        r.state.phase_of() is Running <==> launch is Started,
        r.state.phase_of() is Aborted <==> launch is Failed,
{
    let mut state = Bootstrapper::new();
    state.register_all();
    let setup = state.complete_setup(main_window_present, focus_grant);
    let decision = state.note_launch(launch);
    BootstrapRun { state, setup, decision }
}

} // verus!
