//! What the startup sequence guarantees, stated once and proved.
//!
//! Each proof function here is a law of the bootstrapper as a whole,
//! relating the pieces that `platform`, `plugins` and `startup` specify one
//! by one.

use vstd::prelude::*;

use crate::platform::{BuildConfig, deep_link_registration_enabled};
use crate::plugins::plugin_order_spec;
use crate::startup::{
    Bootstrapper, Step, machine_wf, plan_spec, run_steps_spec, step_is_fatal, step_spec,
};

verus! {

/// Plugins are registered in the one fixed order: whatever the
/// configuration, the startup sequence begins with one initialization step
/// per plugin, in registration order, and no plugin initializes anywhere
/// else in the sequence.
pub proof fn lemma_plugins_registered_in_fixed_order(cfg: BuildConfig)
    ensures
        plugin_order_spec().len() == 5,
        plan_spec(cfg).len() >= 6,
        forall|i: int|
            0 <= i < plugin_order_spec().len() ==> plan_spec(cfg)[i] == Step::InitPlugin(
                plugin_order_spec()[i],
            ),
        forall|i: int|
            plugin_order_spec().len() <= i < plan_spec(cfg).len() ==> !(plan_spec(
                cfg,
            )[i] is InitPlugin),
{
}

/// Where the platform asks for it, the deep-link registration appears
/// exactly once in the startup sequence: after every plugin has
/// initialized and immediately before the run loop starts.
pub proof fn lemma_deep_link_attempted_exactly_once(cfg: BuildConfig)
    requires
        deep_link_registration_enabled(cfg),
    ensures
        plan_spec(cfg).len() == 7,
        plan_spec(cfg)[5] == Step::RegisterDeepLinkSchemes,
        plan_spec(cfg)[6] == Step::EnterRunLoop,
        forall|i: int|
            0 <= i < plan_spec(cfg).len() && i != 5 ==> plan_spec(cfg)[i]
                != Step::RegisterDeepLinkSchemes,
{
}

/// On every other platform the deep-link registration is never part of the
/// startup sequence at all.
pub proof fn lemma_deep_link_never_attempted(cfg: BuildConfig)
    requires
        !deep_link_registration_enabled(cfg),
    ensures
        plan_spec(cfg).len() == 6,
        plan_spec(cfg)[5] == Step::EnterRunLoop,
        forall|i: int|
            0 <= i < plan_spec(cfg).len() ==> plan_spec(cfg)[i] != Step::RegisterDeepLinkSchemes,
{
}

/// A best-effort step cannot abort startup: when the step about to be
/// reported is not load-bearing, the machine moves the same way whether the
/// step succeeded or failed.
pub proof fn lemma_best_effort_failure_is_harmless(m: Bootstrapper, ok: bool)
    requires
        machine_wf(m),
        m.state is NotStarted,
        !step_is_fatal(m.plan@[m.next as int]),
    ensures
        step_spec(m, ok) == step_spec(m, true),
{
}

/// A startup in which every remaining step succeeds ends with the
/// application running, its whole sequence behind it.
pub proof fn lemma_all_steps_ok_ends_running(m: Bootstrapper, outcomes: Seq<bool>)
    requires
        machine_wf(m),
        m.state is NotStarted,
        outcomes.len() == m.plan@.len() - m.next,
        forall|i: int| 0 <= i < outcomes.len() ==> outcomes[i],
    ensures
        run_steps_spec(m, outcomes).state is Running,
        run_steps_spec(m, outcomes).next == m.plan@.len(),
        run_steps_spec(m, outcomes).plan == m.plan,
        run_steps_spec(m, outcomes).cfg == m.cfg,
    decreases outcomes.len(),
{
    let rest = outcomes.subrange(1, outcomes.len() as int);
    let m1 = step_spec(m, outcomes[0]);
    if m.next + 1 == m.plan@.len() {
        assert(run_steps_spec(m1, rest) == m1);
    } else {
        lemma_all_steps_ok_ends_running(m1, rest);
    }
}

/// When a load-bearing step fails and everything before it succeeded,
/// startup aborts exactly there: the machine ends aborted, frozen at the
/// failed step, so no later step of the sequence is ever performed.
pub proof fn lemma_fatal_failure_aborts_at_failure_point(
    m: Bootstrapper,
    outcomes: Seq<bool>,
    k: int,
)
    requires
        machine_wf(m),
        m.state is NotStarted,
        0 <= k < outcomes.len(),
        m.next + k < m.plan@.len(),
        forall|i: int| 0 <= i < k ==> outcomes[i],
        !outcomes[k],
        step_is_fatal(m.plan@[m.next + k]),
    ensures
        run_steps_spec(m, outcomes).state is Aborted,
        run_steps_spec(m, outcomes).next == m.next + k,
        run_steps_spec(m, outcomes).plan == m.plan,
        run_steps_spec(m, outcomes).cfg == m.cfg,
    decreases k,
{
    let rest = outcomes.subrange(1, outcomes.len() as int);
    let m1 = step_spec(m, outcomes[0]);
    if k == 0 {
        assert(m1.state is Aborted);
        assert(run_steps_spec(m1, rest) == m1);
    } else {
        lemma_fatal_failure_aborts_at_failure_point(m1, rest, k - 1);
    }
}

/// The outcome of the deep-link registration step never changes where a
/// run ends up: a run in which it failed equals, state for state, the run
/// in which it succeeded.
pub proof fn lemma_deep_link_outcome_never_changes_run(
    m: Bootstrapper,
    outcomes: Seq<bool>,
    k: int,
)
    requires
        machine_wf(m),
        m.state is NotStarted,
        0 <= k < outcomes.len(),
        m.next + k < m.plan@.len(),
        !step_is_fatal(m.plan@[m.next + k]),
    ensures
        run_steps_spec(m, outcomes) == run_steps_spec(m, outcomes.update(k, true)),
    decreases k,
{
    let fixed = outcomes.update(k, true);
    let rest = outcomes.subrange(1, outcomes.len() as int);
    let rest_fixed = fixed.subrange(1, fixed.len() as int);
    if k == 0 {
        lemma_best_effort_failure_is_harmless(m, outcomes[0]);
        lemma_best_effort_failure_is_harmless(m, fixed[0]);
        assert(rest =~= rest_fixed);
        assert(step_spec(m, outcomes[0]) == step_spec(m, fixed[0]));
    } else {
        assert(fixed[0] == outcomes[0]);
        let m1 = step_spec(m, outcomes[0]);
        if m1.state is NotStarted {
            assert(rest_fixed =~= rest.update(k - 1, true));
            lemma_deep_link_outcome_never_changes_run(m1, rest, k - 1);
        } else {
            assert(run_steps_spec(m, outcomes) == run_steps_spec(m1, rest));
            assert(run_steps_spec(m1, rest) == m1);
            assert(run_steps_spec(m, fixed) == run_steps_spec(m1, rest_fixed));
            assert(run_steps_spec(m1, rest_fixed) == m1);
        }
    }
}

} // verus!
