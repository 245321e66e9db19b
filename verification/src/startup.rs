//! The startup sequence as a small state machine.

use vstd::prelude::*;

use crate::platform::{BuildConfig, deep_link_registration_enabled, should_register_deep_links};
use crate::plugins::Plugin;

verus! {

/// One step of the startup sequence, in the order the shell performs them.
#[derive(Clone, Copy, Debug, PartialEq, Eq, Structural)]
pub enum Step {
    /// The named plugin's initialization hook fires.
    InitPlugin(Plugin),
    /// The configured deep-link schemes are registered with the operating
    /// system.  This step is best effort: its failure is ignored.
    RegisterDeepLinkSchemes,
    /// The blocking run loop starts.
    EnterRunLoop,
}

/// Whether a failure of this step aborts startup.  Only the deep-link
/// registration is best effort; every other step is load-bearing.
pub open spec fn step_is_fatal(step: Step) -> bool {
    !(step is RegisterDeepLinkSchemes)
}

/// Runtime counterpart of `step_is_fatal`.
pub fn is_fatal_step(step: &Step) -> (fatal: bool)
    ensures
        fatal == step_is_fatal(*step),
{
    !(*step == Step::RegisterDeepLinkSchemes)
}

/// The plugin initialization steps, one per plugin, in registration order.
pub open spec fn plugin_init_steps() -> Seq<Step> {
    seq![
        Step::InitPlugin(Plugin::Shell),
        Step::InitPlugin(Plugin::DeepLink),
        Step::InitPlugin(Plugin::Updater),
        Step::InitPlugin(Plugin::Dialog),
        Step::InitPlugin(Plugin::Process),
    ]
}

/// The whole startup sequence for a configuration: every plugin initializes
/// in order, then, where the platform asks for it, the deep-link schemes are
/// registered, and finally the run loop starts.
pub open spec fn plan_spec(cfg: BuildConfig) -> Seq<Step> {
    if deep_link_registration_enabled(cfg) {
        plugin_init_steps() + seq![Step::RegisterDeepLinkSchemes, Step::EnterRunLoop]
    } else {
        plugin_init_steps() + seq![Step::EnterRunLoop]
    }
}

/// Builds the startup sequence for a configuration.
pub fn startup_plan(cfg: &BuildConfig) -> (plan: Vec<Step>)
    ensures
        plan@ == plan_spec(*cfg),
{
    let mut plan: Vec<Step> = Vec::new();
    plan.push(Step::InitPlugin(Plugin::Shell));
    plan.push(Step::InitPlugin(Plugin::DeepLink));
    plan.push(Step::InitPlugin(Plugin::Updater));
    plan.push(Step::InitPlugin(Plugin::Dialog));
    plan.push(Step::InitPlugin(Plugin::Process));
    if should_register_deep_links(cfg) {
        plan.push(Step::RegisterDeepLinkSchemes);
    }
    plan.push(Step::EnterRunLoop);
    proof {
        assert(plan@ =~= plan_spec(*cfg));
    }
    plan
}

/// The fixed diagnostic reported when startup fails.
pub open spec fn failure_message_spec() -> Seq<char> {
    "Błąd podczas uruchamiania aplikacji"@
}

/// The one human-readable message a failed startup leaves behind.
pub fn startup_failure_message() -> (msg: String)
    ensures
        msg@ == failure_message_spec(),
{
    String::from_str("Błąd podczas uruchamiania aplikacji")
}

/// The lifecycle of the application process.  It starts in `NotStarted`,
/// reaches `Running` when the run loop begins to block, and `Aborted` when
/// a load-bearing startup step fails.  No transition leaves `Running` or
/// `Aborted`: from the bootstrapper's point of view both are terminal.
#[derive(Clone, Copy, Debug, PartialEq, Eq, Structural)]
pub enum Lifecycle {
    NotStarted,
    Running,
    Aborted,
}

/// The bootstrapper: the startup sequence for one configuration, together
/// with how far it has come and whether it is still under way.  The shell
/// around the library asks for the next step with `next_step`, performs it,
/// and reports how it went with `report_step`.
pub struct Bootstrapper {
    pub cfg: BuildConfig,
    pub plan: Vec<Step>,
    pub next: usize,
    pub state: Lifecycle,
}

/// Well-formedness: the sequence belongs to the configuration, progress
/// never passes its end, and the lifecycle agrees with the progress.  While
/// startup is under way or aborted, some step remains unperformed; only a
/// running application has the whole sequence behind it.
pub open spec fn machine_wf(m: Bootstrapper) -> bool {
    &&& m.plan@ == plan_spec(m.cfg)
    &&& m.next <= m.plan@.len()
    &&& (m.state is Running ==> m.next == m.plan@.len())
    &&& (m.state is NotStarted ==> m.next < m.plan@.len())
    &&& (m.state is Aborted ==> m.next < m.plan@.len())
}

/// How one reported step outcome moves the machine: a failed load-bearing
/// step aborts startup on the spot, anything else advances, and finishing
/// the last step means the run loop is blocking and the application runs.
pub open spec fn step_spec(m: Bootstrapper, ok: bool) -> Bootstrapper
    recommends
        machine_wf(m),
        m.state is NotStarted,
{
    let step = m.plan@[m.next as int];
    if !ok && step_is_fatal(step) {
        Bootstrapper { state: Lifecycle::Aborted, ..m }
    } else if m.next + 1 == m.plan@.len() {
        Bootstrapper { next: (m.next + 1) as usize, state: Lifecycle::Running, ..m }
    } else {
        Bootstrapper { next: (m.next + 1) as usize, ..m }
    }
}

/// The machine after a whole run: the reported outcomes are consumed in
/// order until they run out or startup has ended, in success or in failure.
pub open spec fn run_steps_spec(m: Bootstrapper, outcomes: Seq<bool>) -> Bootstrapper
    decreases outcomes.len(),
{
    if outcomes.len() == 0 || !(m.state is NotStarted) {
        m
    } else {
        run_steps_spec(step_spec(m, outcomes[0]), outcomes.subrange(1, outcomes.len() as int))
    }
}

impl Bootstrapper {
    /// A fresh bootstrapper for the given configuration: nothing has been
    /// performed and the application is not yet started.
    pub fn new(cfg: BuildConfig) -> (m: Bootstrapper)
        ensures
            machine_wf(m),
            m.cfg == cfg,
            m.next == 0,
            m.state is NotStarted,
    {
        let plan = startup_plan(&cfg);
        Bootstrapper { cfg, plan, next: 0, state: Lifecycle::NotStarted }
    }

    /// The step the shell should perform next, or `None` once startup has
    /// ended, in success or in failure.  Steps come out in sequence order,
    /// so nothing past a failure point is ever handed out.
    pub fn next_step(&self) -> (step: Option<Step>)
        requires
            machine_wf(*self),
        ensures
            step is Some <==> self.state is NotStarted,
            step matches Some(s) ==> s == self.plan@[self.next as int],
    {
        if self.state == Lifecycle::NotStarted {
            Some(self.plan[self.next])
        } else {
            None
        }
    }

    /// Records how the step last handed out went.  A failed load-bearing
    /// step aborts startup; a failed deep-link registration is ignored and
    /// the sequence goes on; completing the final step leaves the
    /// application running.
    pub fn report_step(&mut self, ok: bool)
        requires
            machine_wf(*old(self)),
            old(self).state is NotStarted,
        ensures
            machine_wf(*final(self)),
            *final(self) == step_spec(*old(self), ok),
    {
        let step = self.plan[self.next];
        if !ok && is_fatal_step(&step) {
            self.state = Lifecycle::Aborted;
        } else {
            self.next = self.next + 1;
            if self.next == self.plan.len() {
                self.state = Lifecycle::Running;
            }
        }
    }

    /// The diagnostic a caller sees: the fixed failure message exactly when
    /// startup aborted, and nothing otherwise.
    pub fn diagnostic(&self) -> (msg: Option<String>)
        ensures
            msg is Some <==> self.state is Aborted,
            msg matches Some(m) ==> m@ == failure_message_spec(),
    {
        if self.state == Lifecycle::Aborted {
            Some(startup_failure_message())
        } else {
            None
        }
    }
}

} // verus!
