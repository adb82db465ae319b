//! The top-level sequence of the bring-up: which phases run, and in which order.

use vstd::prelude::*;
use crate::backend::BitcoinCoreConfig;

verus! {

/// A phase of the bring-up.
#[derive(Clone, Copy, Debug, PartialEq, Eq, Structural)]
pub enum Phase {
    /// Settle the node's alias.
    ResolveAlias,
    /// Wait for the chain backend and decide the sync strategy.
    ProbeBackend,
    /// Write the daemon's configuration file.
    RenderConfig,
    /// Create the shared directory and the backup-ignore file.
    PrepareVolume,
    /// Detach, so that the daemon can start.
    Detach,
    /// Wait for the daemon's control port.
    AwaitControlPort,
    /// Create or unlock the wallet.
    Bootstrap,
    /// Copy the credential files into the shared directory.
    PublishCredentials,
    /// Configure the watchtower server and client.
    Watchtowers,
    /// Watch the backend's sync state, for as long as the process lives.
    Supervise,
}

/// The phases before the backend probe.
pub open spec fn opening() -> Seq<Phase> {
    seq![Phase::ResolveAlias]
}

/// The phases between the backend probe and the supervisor.
pub open spec fn middle() -> Seq<Phase> {
    seq![
        Phase::RenderConfig,
        Phase::PrepareVolume,
        Phase::Detach,
        Phase::AwaitControlPort,
        Phase::Bootstrap,
        Phase::PublishCredentials,
        Phase::Watchtowers,
    ]
}

/// The phases of a bring-up, in order. The backend probe and the supervisor are
/// among them exactly where a backend is selected.
pub open spec fn plan_spec(selected: bool) -> Seq<Phase> {
    if selected {
        opening() + seq![Phase::ProbeBackend] + middle() + seq![Phase::Supervise]
    } else {
        opening() + middle()
    }
}

/// The phases of the bring-up for this backend selection, in order.
pub fn plan(backend: &BitcoinCoreConfig) -> (phases: Vec<Phase>)
    ensures
        phases@ == plan_spec(backend is Internal),
        backend is NoBackend ==> !phases@.contains(Phase::ProbeBackend) && !phases@.contains(
            Phase::Supervise,
        ),
{
    let selected = backend.selected();
    let mut phases: Vec<Phase> = Vec::new();
    phases.push(Phase::ResolveAlias);
    if selected {
        phases.push(Phase::ProbeBackend);
    }
    phases.push(Phase::RenderConfig);
    phases.push(Phase::PrepareVolume);
    phases.push(Phase::Detach);
    phases.push(Phase::AwaitControlPort);
    phases.push(Phase::Bootstrap);
    phases.push(Phase::PublishCredentials);
    phases.push(Phase::Watchtowers);
    if selected {
        phases.push(Phase::Supervise);
    }
    assert(phases@ =~= plan_spec(selected));
    proof {
        law_backend_phases_only_with_backend(selected);
    }
    phases
}

/// Without a backend, neither the backend probe nor the backend-switch
/// supervisor is part of the bring-up; with one, both are, the probe before the
/// configuration is written and the supervisor last.
pub proof fn law_backend_phases_only_with_backend(selected: bool)
    ensures
        plan_spec(selected).contains(Phase::ProbeBackend) <==> selected,
        plan_spec(selected).contains(Phase::Supervise) <==> selected,
        selected ==> plan_spec(selected)[1] == Phase::ProbeBackend && plan_spec(selected).last()
            == Phase::Supervise,
{
    let p = plan_spec(selected);
    if selected {
        assert(p[1] == Phase::ProbeBackend);
        assert(p[9] == Phase::Supervise);
    } else {
        assert(p =~= seq![
            Phase::ResolveAlias,
            Phase::RenderConfig,
            Phase::PrepareVolume,
            Phase::Detach,
            Phase::AwaitControlPort,
            Phase::Bootstrap,
            Phase::PublishCredentials,
            Phase::Watchtowers,
        ]);
    }
}

} // verus!
