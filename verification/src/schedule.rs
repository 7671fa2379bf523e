//! The aggregation plan: the fixed row order of the panel, each
//! provider's execution mode, and which providers one run dispatches.
//!
//! The caller runs the plan — inline for pure providers, on a worker for
//! blocking ones, as tasks for the rest — and collects one optional row
//! per slot, in the plan's order. A slot whose `run` flag is off is never
//! dispatched at all, so a provider disabled in the configuration causes
//! no subprocess, network or file-system work anywhere.

use vstd::prelude::*;

use crate::config::Config;

verus! {

/// The providers, one per panel slot.
#[derive(Clone, Copy, Debug, PartialEq, Eq, Structural)]
pub enum ProviderKind {
    Hostname,
    Greeting,
    DateTime,
    Weather,
    Release,
    Kernel,
    Memory,
    Disk,
    DesktopEnv,
    UpdateCount,
    PackageCount,
    Song,
}

/// How a provider runs: inline, on a blocking worker, or as a scheduled
/// task.
#[derive(Clone, Copy, Debug, PartialEq, Eq, Structural)]
pub enum ExecMode {
    Pure,
    Blocking,
    Async,
}

/// The panel's fixed presentation order: the header identity first, the
/// song last. The order never depends on the configuration or on which
/// provider finishes first.
pub open spec fn row_order() -> Seq<ProviderKind> {
    seq![
        ProviderKind::Hostname,
        ProviderKind::Greeting,
        ProviderKind::DateTime,
        ProviderKind::Weather,
        ProviderKind::Release,
        ProviderKind::Kernel,
        ProviderKind::Memory,
        ProviderKind::Disk,
        ProviderKind::DesktopEnv,
        ProviderKind::UpdateCount,
        ProviderKind::PackageCount,
        ProviderKind::Song,
    ]
}

/// Each provider's execution mode: cheap lookups run inline, file and IPC
/// reads go to a blocking worker, and the network fetch and subprocess
/// streams run as scheduled tasks.
pub open spec fn mode_spec(k: ProviderKind) -> ExecMode {
    match k {
        ProviderKind::Hostname => ExecMode::Pure,
        ProviderKind::Greeting => ExecMode::Pure,
        ProviderKind::DateTime => ExecMode::Pure,
        ProviderKind::DesktopEnv => ExecMode::Pure,
        ProviderKind::Release => ExecMode::Blocking,
        ProviderKind::Kernel => ExecMode::Blocking,
        ProviderKind::Memory => ExecMode::Blocking,
        ProviderKind::Disk => ExecMode::Blocking,
        ProviderKind::Song => ExecMode::Blocking,
        ProviderKind::Weather => ExecMode::Async,
        ProviderKind::UpdateCount => ExecMode::Async,
        ProviderKind::PackageCount => ExecMode::Async,
    }
}

/// Whether a provider has any work to do under this configuration. The
/// header identity is always wanted; the weather needs its switch and all
/// four request fields; the two package counters need their switch and at
/// least a configured manager.
pub open spec fn enabled_spec(cfg: Config, k: ProviderKind) -> bool {
    match k {
        ProviderKind::Hostname => true,
        ProviderKind::Greeting => cfg.greeting_enabled,
        ProviderKind::DateTime => cfg.time.enabled,
        ProviderKind::Weather => cfg.weather_ready(),
        ProviderKind::Release => cfg.system.release_enabled,
        ProviderKind::Kernel => cfg.system.kernel_enabled,
        ProviderKind::Memory => cfg.system.mem_usage_enabled,
        ProviderKind::Disk => cfg.system.disk_usage_enabled,
        ProviderKind::DesktopEnv => cfg.system.desktop_env_enabled,
        ProviderKind::UpdateCount => cfg.packages.update_count_enabled && !(cfg.packages.package_managers is Unset),
        ProviderKind::PackageCount => cfg.packages.package_count_enabled && !(cfg.packages.package_managers is Unset),
        ProviderKind::Song => cfg.song_enabled,
    }
}

/// One slot of the plan: which provider, how it runs, and whether this
/// run dispatches it at all.
#[derive(Clone, Copy, Debug)]
pub struct TaskPlan {
    pub kind: ProviderKind,
    pub mode: ExecMode,
    pub run: bool,
}

/// The plan one slot gets.
pub open spec fn plan_slot(cfg: Config, k: ProviderKind) -> TaskPlan {
    TaskPlan { kind: k, mode: mode_spec(k), run: enabled_spec(cfg, k) }
}

/// The full plan under a configuration: one slot per provider, in the
/// fixed row order.
pub open spec fn plan_spec(cfg: Config) -> Seq<TaskPlan> {
    row_order().map_values(|k: ProviderKind| plan_slot(cfg, k))
}

/// A provider's execution mode.
pub fn mode_of(k: &ProviderKind) -> (r: ExecMode)
    ensures
        r == mode_spec(*k),
{
    match k {
        ProviderKind::Hostname => ExecMode::Pure,
        ProviderKind::Greeting => ExecMode::Pure,
        ProviderKind::DateTime => ExecMode::Pure,
        ProviderKind::DesktopEnv => ExecMode::Pure,
        ProviderKind::Release => ExecMode::Blocking,
        ProviderKind::Kernel => ExecMode::Blocking,
        ProviderKind::Memory => ExecMode::Blocking,
        ProviderKind::Disk => ExecMode::Blocking,
        ProviderKind::Song => ExecMode::Blocking,
        ProviderKind::Weather => ExecMode::Async,
        ProviderKind::UpdateCount => ExecMode::Async,
        ProviderKind::PackageCount => ExecMode::Async,
    }
}

/// Whether this run dispatches the provider at all. A provider whose
/// switch is off — or whose required fields are missing — is never
/// dispatched, so no work of any kind can be attributed to it.
pub fn is_enabled(cfg: &Config, k: &ProviderKind) -> (r: bool)
    ensures
        r == enabled_spec(*cfg, *k),
{
    match k {
        ProviderKind::Hostname => true,
        ProviderKind::Greeting => cfg.greeting_enabled,
        ProviderKind::DateTime => cfg.time.enabled,
        ProviderKind::Weather => cfg.is_weather_ready(),
        ProviderKind::Release => cfg.system.release_enabled,
        ProviderKind::Kernel => cfg.system.kernel_enabled,
        ProviderKind::Memory => cfg.system.mem_usage_enabled,
        ProviderKind::Disk => cfg.system.disk_usage_enabled,
        ProviderKind::DesktopEnv => cfg.system.desktop_env_enabled,
        ProviderKind::UpdateCount => cfg.packages.update_count_enabled && !matches!(
            cfg.packages.package_managers,
            crate::config::ManagerSelection::Unset,
        ),
        ProviderKind::PackageCount => cfg.packages.package_count_enabled && !matches!(
            cfg.packages.package_managers,
            crate::config::ManagerSelection::Unset,
        ),
        ProviderKind::Song => cfg.song_enabled,
    }
}

/// The plan for one run: twelve slots in the fixed row order, each naming
/// its provider, its execution mode, and whether it is dispatched. A
/// disabled provider's slot has `run == false`, and the caller performs
/// no action for such a slot.
pub fn provider_plan(cfg: &Config) -> (r: Vec<TaskPlan>)
    ensures
        r@ == plan_spec(*cfg),
        r@.len() == 12,
{
    let kinds: [ProviderKind; 12] = [
        ProviderKind::Hostname,
        ProviderKind::Greeting,
        ProviderKind::DateTime,
        ProviderKind::Weather,
        ProviderKind::Release,
        ProviderKind::Kernel,
        ProviderKind::Memory,
        ProviderKind::Disk,
        ProviderKind::DesktopEnv,
        ProviderKind::UpdateCount,
        ProviderKind::PackageCount,
        ProviderKind::Song,
    ];
    let mut plan: Vec<TaskPlan> = Vec::new();
    let mut i: usize = 0;
    while i < 12
        invariant
            i <= 12,
            kinds@ =~= row_order(),
            plan@.len() == i,
            forall|j: int| 0 <= j < i ==> plan@[j] == plan_slot(*cfg, row_order()[j]),
        decreases 12 - i,
    {
        let k = kinds[i];
        let slot = TaskPlan { kind: k, mode: mode_of(&k), run: is_enabled(cfg, &k) };
        plan.push(slot);
        i = i + 1;
    }
    proof {
        assert(plan@ =~= plan_spec(*cfg));
    }
    plan
}

} // verus!
