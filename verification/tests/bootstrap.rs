use prosty_planer::platform::{should_register_deep_links, BuildConfig, Os};
use prosty_planer::plugins::{plugin_order, Plugin};
use prosty_planer::startup::{
    startup_failure_message, startup_plan, Bootstrapper, Lifecycle, Step,
};

fn config(os: Os, debug: bool) -> BuildConfig {
    BuildConfig { os, debug }
}

/// Drives a bootstrapper to its end, answering each handed-out step with
/// the outcome that `verdict` gives it, and collects the steps performed.
fn drive(cfg: BuildConfig, verdict: impl Fn(&Step) -> bool) -> (Bootstrapper, Vec<Step>) {
    let mut machine = Bootstrapper::new(cfg);
    let mut performed: Vec<Step> = Vec::new();
    while let Some(step) = machine.next_step() {
        performed.push(step);
        let ok = verdict(&step);
        machine.report_step(ok);
    }
    (machine, performed)
}

#[test]
fn plugins_come_in_the_fixed_order() {
    let order = plugin_order();
    assert_eq!(
        order,
        vec![
            Plugin::Shell,
            Plugin::DeepLink,
            Plugin::Updater,
            Plugin::Dialog,
            Plugin::Process,
        ]
    );
}

#[test]
fn every_configuration_starts_with_the_same_plugins() {
    let configs = [
        config(Os::Linux, false),
        config(Os::Linux, true),
        config(Os::Windows, false),
        config(Os::Windows, true),
        config(Os::MacOs, false),
        config(Os::Ios, false),
        config(Os::Android, true),
        config(Os::Other, true),
    ];
    let order = plugin_order();
    for cfg in configs {
        let plan = startup_plan(&cfg);
        for (i, plugin) in order.iter().enumerate() {
            assert_eq!(plan[i], Step::InitPlugin(*plugin));
        }
        assert_eq!(*plan.last().unwrap(), Step::EnterRunLoop);
    }
}

#[test]
fn deep_link_registration_is_gated_by_platform() {
    assert!(should_register_deep_links(&config(Os::Linux, false)));
    assert!(should_register_deep_links(&config(Os::Linux, true)));
    assert!(should_register_deep_links(&config(Os::Windows, true)));
    assert!(!should_register_deep_links(&config(Os::Windows, false)));
    assert!(!should_register_deep_links(&config(Os::MacOs, true)));
    assert!(!should_register_deep_links(&config(Os::Ios, true)));
    assert!(!should_register_deep_links(&config(Os::Android, true)));
    assert!(!should_register_deep_links(&config(Os::Other, true)));
}

#[test]
fn linux_plan_attempts_deep_link_registration_exactly_once() {
    let plan = startup_plan(&config(Os::Linux, false));
    assert_eq!(plan.len(), 7);
    let hits: Vec<usize> = plan
        .iter()
        .enumerate()
        .filter(|(_, s)| **s == Step::RegisterDeepLinkSchemes)
        .map(|(i, _)| i)
        .collect();
    assert_eq!(hits, vec![5]);
    assert_eq!(plan[6], Step::EnterRunLoop);
}

#[test]
fn windows_release_plan_never_attempts_deep_link_registration() {
    let plan = startup_plan(&config(Os::Windows, false));
    assert_eq!(plan.len(), 6);
    assert!(plan.iter().all(|s| *s != Step::RegisterDeepLinkSchemes));
    assert_eq!(plan[5], Step::EnterRunLoop);
}

#[test]
fn successful_startup_ends_running() {
    let (machine, performed) = drive(config(Os::Linux, false), |_| true);
    assert_eq!(machine.state, Lifecycle::Running);
    assert_eq!(machine.diagnostic(), None);
    assert_eq!(
        performed,
        vec![
            Step::InitPlugin(Plugin::Shell),
            Step::InitPlugin(Plugin::DeepLink),
            Step::InitPlugin(Plugin::Updater),
            Step::InitPlugin(Plugin::Dialog),
            Step::InitPlugin(Plugin::Process),
            Step::RegisterDeepLinkSchemes,
            Step::EnterRunLoop,
        ]
    );
}

#[test]
fn failed_deep_link_registration_is_swallowed() {
    let (machine, performed) =
        drive(config(Os::Linux, false), |s| *s != Step::RegisterDeepLinkSchemes);
    assert_eq!(machine.state, Lifecycle::Running);
    assert_eq!(machine.diagnostic(), None);
    assert_eq!(*performed.last().unwrap(), Step::EnterRunLoop);
}

#[test]
fn failed_plugin_initialization_aborts_without_later_steps() {
    let (machine, performed) = drive(config(Os::Linux, false), |s| {
        *s != Step::InitPlugin(Plugin::Updater)
    });
    assert_eq!(machine.state, Lifecycle::Aborted);
    assert_eq!(machine.next_step(), None);
    assert_eq!(
        performed,
        vec![
            Step::InitPlugin(Plugin::Shell),
            Step::InitPlugin(Plugin::DeepLink),
            Step::InitPlugin(Plugin::Updater),
        ]
    );
    let msg = machine.diagnostic().unwrap();
    assert_eq!(msg, "Błąd podczas uruchamiania aplikacji");
}

#[test]
fn failed_run_loop_start_aborts_with_the_fixed_diagnostic() {
    let (machine, performed) = drive(config(Os::MacOs, false), |s| *s != Step::EnterRunLoop);
    assert_eq!(machine.state, Lifecycle::Aborted);
    assert_eq!(performed.len(), 6);
    assert_eq!(
        machine.diagnostic(),
        Some(String::from("Błąd podczas uruchamiania aplikacji"))
    );
}

#[test]
fn diagnostic_matches_the_fixed_message() {
    assert_eq!(
        startup_failure_message(),
        "Błąd podczas uruchamiania aplikacji"
    );
}
