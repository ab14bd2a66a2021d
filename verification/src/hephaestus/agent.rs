//! Planned node-agent capabilities for Hephaestus-managed servers.
use vstd::prelude::*;

verus! {

/// Rollout phase for a Hephaestus agent capability.
#[derive(Debug, Clone, Copy, PartialEq, Eq, Structural)]
pub enum HephaestusAgentRolloutPhase {
    /// Capability intentionally ships after the initial control-plane surface.
    AfterCoreControlPlane,
}

/// One planned Hephaestus node-agent capability.
#[derive(Debug, Clone, Copy, PartialEq, Eq)]
pub struct HephaestusAgentCapability {
    /// Stable capability identifier.
    pub id: &'static str,
    /// Operator-facing capability label.
    pub label: &'static str,
    /// Rollout phase for this capability.
    pub phase: HephaestusAgentRolloutPhase,
}

/// Catalog of planned agent capabilities.
#[derive(Debug, Clone, PartialEq, Eq)]
pub struct HephaestusAgentCapabilityCatalog {
    /// Planned capabilities.
    pub capabilities: Vec<HephaestusAgentCapability>,
}

/// Identifiers of the planned capabilities, in catalog order.
pub open spec fn planned_capability_ids() -> Seq<Seq<char>> {
    seq![
        "container_status"@,
        "logs"@,
        "host_resources"@,
        "restart_app"@,
        "pull_new_image"@,
    ]
}

/// Labels of the planned capabilities, in catalog order.
pub open spec fn planned_capability_labels() -> Seq<Seq<char>> {
    seq![
        "container status"@,
        "logs"@,
        "CPU, memory, and disk"@,
        "restart app"@,
        "pull new GitHub container image"@,
    ]
}

/// Returns the planned Hephaestus agent capability catalog.
///
/// The agent is deliberately not a desired-state authority. The control plane
/// owns topology, workflows, and health coordination. The node agent exposes
/// host-local operations and telemetry that cannot be derived safely from
/// topology documents or workflow output alone. Every capability ships after
/// the core control plane.
pub fn agent_capability_catalog() -> (r: HephaestusAgentCapabilityCatalog)
    ensures
        r.capabilities@.len() == planned_capability_ids().len(),
        forall|i: int|
            0 <= i < r.capabilities@.len() ==> {
                &&& (#[trigger] r.capabilities@[i]).id@ == planned_capability_ids()[i]
                &&& r.capabilities@[i].label@ == planned_capability_labels()[i]
                &&& r.capabilities@[i].phase == HephaestusAgentRolloutPhase::AfterCoreControlPlane
            },
{
    let phase = HephaestusAgentRolloutPhase::AfterCoreControlPlane;
    let mut capabilities: Vec<HephaestusAgentCapability> = Vec::new();
    capabilities.push(HephaestusAgentCapability { id: "container_status", label: "container status", phase });
    capabilities.push(HephaestusAgentCapability { id: "logs", label: "logs", phase });
    capabilities.push(HephaestusAgentCapability { id: "host_resources", label: "CPU, memory, and disk", phase });
    capabilities.push(HephaestusAgentCapability { id: "restart_app", label: "restart app", phase });
    capabilities.push(HephaestusAgentCapability { id: "pull_new_image", label: "pull new GitHub container image", phase });
    HephaestusAgentCapabilityCatalog { capabilities }
}

} // verus!
