//! Feature-neutral RPC identity metadata for the Hephaestus control plane.
use vstd::prelude::*;

verus! {

/// Canonical protobuf service name for the Hephaestus control plane.
pub const HEPHAESTUS_RPC_SERVICE_NAME: &'static str = "reallyme.hephaestus.v1.HephaestusService";
/// Canonical protobuf service name for NATS orchestration planning.
pub const NATS_RPC_SERVICE_NAME: &'static str = "reallyme.hephaestus.v1.NatsService";
/// Canonical protobuf service name for Docker orchestration planning.
pub const DOCKER_RPC_SERVICE_NAME: &'static str = "reallyme.hephaestus.v1.DockerService";
/// Canonical protobuf service name for Typesense orchestration planning.
pub const TYPESENSE_RPC_SERVICE_NAME: &'static str = "reallyme.hephaestus.v1.TypesenseService";

/// The canonical Connect/gRPC path of a method: `/`, the fully qualified
/// service name, `/`, the method name.
pub open spec fn rpc_path(service_name: Seq<char>, method_name: Seq<char>) -> Seq<char> {
    seq!['/'] + service_name + seq!['/'] + method_name
}

/// Canonical RPC method-path metadata.
#[derive(Debug, Clone, Copy, PartialEq, Eq)]
pub struct HephaestusRpcMethodPath {
    service_name: &'static str,
    method_name: &'static str,
    path: &'static str,
}

impl HephaestusRpcMethodPath {
    /// The fully qualified protobuf service name.
    pub closed spec fn spec_service_name(self) -> &'static str {
        self.service_name
    }

    /// The protobuf method name.
    pub closed spec fn spec_method_name(self) -> &'static str {
        self.method_name
    }

    /// The canonical method path.
    pub closed spec fn spec_path(self) -> &'static str {
        self.path
    }

    /// Constructs static RPC path metadata.
    pub fn new(service_name: &'static str, method_name: &'static str, path: &'static str) -> (r: Self)
        ensures
            r.spec_service_name() == service_name,
            r.spec_method_name() == method_name,
            r.spec_path() == path,
    {
        HephaestusRpcMethodPath { service_name, method_name, path }
    }

    /// Returns the fully qualified protobuf service name.
    pub fn service_name(self) -> (r: &'static str)
        ensures
            r == self.spec_service_name(),
    {
        self.service_name
    }

    /// Returns the protobuf method name.
    pub fn method_name(self) -> (r: &'static str)
        ensures
            r == self.spec_method_name(),
    {
        self.method_name
    }

    /// Returns the canonical Connect/gRPC method path.
    pub fn path(self) -> (r: &'static str)
        ensures
            r == self.spec_path(),
    {
        self.path
    }
}

/// Canonical protobuf method name.
pub const HEPHAESTUS_STATUS_RPC_METHOD_NAME: &'static str = "GetStatus";
/// Canonical Connect/gRPC method path.
pub const HEPHAESTUS_STATUS_RPC_PATH: &'static str = "/reallyme.hephaestus.v1.HephaestusService/GetStatus";

/// Canonical RPC method-path metadata of `GetStatus` on `reallyme.hephaestus.v1.HephaestusService`; its path is
/// the service name and the method name joined as [`rpc_path`] describes.
pub fn hephaestus_status_rpc() -> (r: HephaestusRpcMethodPath)
    ensures
        r.spec_service_name() == HEPHAESTUS_RPC_SERVICE_NAME,
        r.spec_method_name() == HEPHAESTUS_STATUS_RPC_METHOD_NAME,
        r.spec_path() == HEPHAESTUS_STATUS_RPC_PATH,
        r.spec_path()@ == rpc_path(r.spec_service_name()@, r.spec_method_name()@),
{
    proof {
        reveal_strlit("reallyme.hephaestus.v1.HephaestusService");
        reveal_strlit("GetStatus");
        reveal_strlit("/reallyme.hephaestus.v1.HephaestusService/GetStatus");
        assert(HEPHAESTUS_STATUS_RPC_PATH@ =~= rpc_path(HEPHAESTUS_RPC_SERVICE_NAME@, HEPHAESTUS_STATUS_RPC_METHOD_NAME@));
    }
    HephaestusRpcMethodPath::new(HEPHAESTUS_RPC_SERVICE_NAME, HEPHAESTUS_STATUS_RPC_METHOD_NAME, HEPHAESTUS_STATUS_RPC_PATH)
}

/// Canonical protobuf method name.
pub const HEPHAESTUS_GET_DESIRED_TOPOLOGY_RPC_METHOD_NAME: &'static str = "GetDesiredTopology";
/// Canonical Connect/gRPC method path.
pub const HEPHAESTUS_GET_DESIRED_TOPOLOGY_RPC_PATH: &'static str = "/reallyme.hephaestus.v1.HephaestusService/GetDesiredTopology";

/// Canonical RPC method-path metadata of `GetDesiredTopology` on `reallyme.hephaestus.v1.HephaestusService`; its path is
/// the service name and the method name joined as [`rpc_path`] describes.
pub fn hephaestus_get_desired_topology_rpc() -> (r: HephaestusRpcMethodPath)
    ensures
        r.spec_service_name() == HEPHAESTUS_RPC_SERVICE_NAME,
        r.spec_method_name() == HEPHAESTUS_GET_DESIRED_TOPOLOGY_RPC_METHOD_NAME,
        r.spec_path() == HEPHAESTUS_GET_DESIRED_TOPOLOGY_RPC_PATH,
        r.spec_path()@ == rpc_path(r.spec_service_name()@, r.spec_method_name()@),
{
    proof {
        reveal_strlit("reallyme.hephaestus.v1.HephaestusService");
        reveal_strlit("GetDesiredTopology");
        reveal_strlit("/reallyme.hephaestus.v1.HephaestusService/GetDesiredTopology");
        assert(HEPHAESTUS_GET_DESIRED_TOPOLOGY_RPC_PATH@ =~= rpc_path(HEPHAESTUS_RPC_SERVICE_NAME@, HEPHAESTUS_GET_DESIRED_TOPOLOGY_RPC_METHOD_NAME@));
    }
    HephaestusRpcMethodPath::new(HEPHAESTUS_RPC_SERVICE_NAME, HEPHAESTUS_GET_DESIRED_TOPOLOGY_RPC_METHOD_NAME, HEPHAESTUS_GET_DESIRED_TOPOLOGY_RPC_PATH)
}

/// Canonical protobuf method name.
pub const HEPHAESTUS_UPDATE_DESIRED_TOPOLOGY_RPC_METHOD_NAME: &'static str = "UpdateDesiredTopology";
/// Canonical Connect/gRPC method path.
pub const HEPHAESTUS_UPDATE_DESIRED_TOPOLOGY_RPC_PATH: &'static str = "/reallyme.hephaestus.v1.HephaestusService/UpdateDesiredTopology";

/// Canonical RPC method-path metadata of `UpdateDesiredTopology` on `reallyme.hephaestus.v1.HephaestusService`; its path is
/// the service name and the method name joined as [`rpc_path`] describes.
pub fn hephaestus_update_desired_topology_rpc() -> (r: HephaestusRpcMethodPath)
    ensures
        r.spec_service_name() == HEPHAESTUS_RPC_SERVICE_NAME,
        r.spec_method_name() == HEPHAESTUS_UPDATE_DESIRED_TOPOLOGY_RPC_METHOD_NAME,
        r.spec_path() == HEPHAESTUS_UPDATE_DESIRED_TOPOLOGY_RPC_PATH,
        r.spec_path()@ == rpc_path(r.spec_service_name()@, r.spec_method_name()@),
{
    proof {
        reveal_strlit("reallyme.hephaestus.v1.HephaestusService");
        reveal_strlit("UpdateDesiredTopology");
        reveal_strlit("/reallyme.hephaestus.v1.HephaestusService/UpdateDesiredTopology");
        assert(HEPHAESTUS_UPDATE_DESIRED_TOPOLOGY_RPC_PATH@ =~= rpc_path(HEPHAESTUS_RPC_SERVICE_NAME@, HEPHAESTUS_UPDATE_DESIRED_TOPOLOGY_RPC_METHOD_NAME@));
    }
    HephaestusRpcMethodPath::new(HEPHAESTUS_RPC_SERVICE_NAME, HEPHAESTUS_UPDATE_DESIRED_TOPOLOGY_RPC_METHOD_NAME, HEPHAESTUS_UPDATE_DESIRED_TOPOLOGY_RPC_PATH)
}

/// Canonical protobuf method name.
pub const HEPHAESTUS_PLAN_INFRA_RPC_METHOD_NAME: &'static str = "PlanInfra";
/// Canonical Connect/gRPC method path.
pub const HEPHAESTUS_PLAN_INFRA_RPC_PATH: &'static str = "/reallyme.hephaestus.v1.HephaestusService/PlanInfra";

/// Canonical RPC method-path metadata of `PlanInfra` on `reallyme.hephaestus.v1.HephaestusService`; its path is
/// the service name and the method name joined as [`rpc_path`] describes.
pub fn hephaestus_plan_infra_rpc() -> (r: HephaestusRpcMethodPath)
    ensures
        r.spec_service_name() == HEPHAESTUS_RPC_SERVICE_NAME,
        r.spec_method_name() == HEPHAESTUS_PLAN_INFRA_RPC_METHOD_NAME,
        r.spec_path() == HEPHAESTUS_PLAN_INFRA_RPC_PATH,
        r.spec_path()@ == rpc_path(r.spec_service_name()@, r.spec_method_name()@),
{
    proof {
        reveal_strlit("reallyme.hephaestus.v1.HephaestusService");
        reveal_strlit("PlanInfra");
        reveal_strlit("/reallyme.hephaestus.v1.HephaestusService/PlanInfra");
        assert(HEPHAESTUS_PLAN_INFRA_RPC_PATH@ =~= rpc_path(HEPHAESTUS_RPC_SERVICE_NAME@, HEPHAESTUS_PLAN_INFRA_RPC_METHOD_NAME@));
    }
    HephaestusRpcMethodPath::new(HEPHAESTUS_RPC_SERVICE_NAME, HEPHAESTUS_PLAN_INFRA_RPC_METHOD_NAME, HEPHAESTUS_PLAN_INFRA_RPC_PATH)
}

/// Canonical protobuf method name.
pub const HEPHAESTUS_APPLY_INFRA_RPC_METHOD_NAME: &'static str = "ApplyInfra";
/// Canonical Connect/gRPC method path.
pub const HEPHAESTUS_APPLY_INFRA_RPC_PATH: &'static str = "/reallyme.hephaestus.v1.HephaestusService/ApplyInfra";

/// Canonical RPC method-path metadata of `ApplyInfra` on `reallyme.hephaestus.v1.HephaestusService`; its path is
/// the service name and the method name joined as [`rpc_path`] describes.
pub fn hephaestus_apply_infra_rpc() -> (r: HephaestusRpcMethodPath)
    ensures
        r.spec_service_name() == HEPHAESTUS_RPC_SERVICE_NAME,
        r.spec_method_name() == HEPHAESTUS_APPLY_INFRA_RPC_METHOD_NAME,
        r.spec_path() == HEPHAESTUS_APPLY_INFRA_RPC_PATH,
        r.spec_path()@ == rpc_path(r.spec_service_name()@, r.spec_method_name()@),
{
    proof {
        reveal_strlit("reallyme.hephaestus.v1.HephaestusService");
        reveal_strlit("ApplyInfra");
        reveal_strlit("/reallyme.hephaestus.v1.HephaestusService/ApplyInfra");
        assert(HEPHAESTUS_APPLY_INFRA_RPC_PATH@ =~= rpc_path(HEPHAESTUS_RPC_SERVICE_NAME@, HEPHAESTUS_APPLY_INFRA_RPC_METHOD_NAME@));
    }
    HephaestusRpcMethodPath::new(HEPHAESTUS_RPC_SERVICE_NAME, HEPHAESTUS_APPLY_INFRA_RPC_METHOD_NAME, HEPHAESTUS_APPLY_INFRA_RPC_PATH)
}

/// Canonical protobuf method name.
pub const HEPHAESTUS_RUN_ANSIBLE_RPC_METHOD_NAME: &'static str = "RunAnsible";
/// Canonical Connect/gRPC method path.
pub const HEPHAESTUS_RUN_ANSIBLE_RPC_PATH: &'static str = "/reallyme.hephaestus.v1.HephaestusService/RunAnsible";

/// Canonical RPC method-path metadata of `RunAnsible` on `reallyme.hephaestus.v1.HephaestusService`; its path is
/// the service name and the method name joined as [`rpc_path`] describes.
pub fn hephaestus_run_ansible_rpc() -> (r: HephaestusRpcMethodPath)
    ensures
        r.spec_service_name() == HEPHAESTUS_RPC_SERVICE_NAME,
        r.spec_method_name() == HEPHAESTUS_RUN_ANSIBLE_RPC_METHOD_NAME,
        r.spec_path() == HEPHAESTUS_RUN_ANSIBLE_RPC_PATH,
        r.spec_path()@ == rpc_path(r.spec_service_name()@, r.spec_method_name()@),
{
    proof {
        reveal_strlit("reallyme.hephaestus.v1.HephaestusService");
        reveal_strlit("RunAnsible");
        reveal_strlit("/reallyme.hephaestus.v1.HephaestusService/RunAnsible");
        assert(HEPHAESTUS_RUN_ANSIBLE_RPC_PATH@ =~= rpc_path(HEPHAESTUS_RPC_SERVICE_NAME@, HEPHAESTUS_RUN_ANSIBLE_RPC_METHOD_NAME@));
    }
    HephaestusRpcMethodPath::new(HEPHAESTUS_RPC_SERVICE_NAME, HEPHAESTUS_RUN_ANSIBLE_RPC_METHOD_NAME, HEPHAESTUS_RUN_ANSIBLE_RPC_PATH)
}

/// Canonical protobuf method name.
pub const HEPHAESTUS_RUN_HEALTH_CHECKS_RPC_METHOD_NAME: &'static str = "RunHealthChecks";
/// Canonical Connect/gRPC method path.
pub const HEPHAESTUS_RUN_HEALTH_CHECKS_RPC_PATH: &'static str = "/reallyme.hephaestus.v1.HephaestusService/RunHealthChecks";

/// Canonical RPC method-path metadata of `RunHealthChecks` on `reallyme.hephaestus.v1.HephaestusService`; its path is
/// the service name and the method name joined as [`rpc_path`] describes.
pub fn hephaestus_run_health_checks_rpc() -> (r: HephaestusRpcMethodPath)
    ensures
        r.spec_service_name() == HEPHAESTUS_RPC_SERVICE_NAME,
        r.spec_method_name() == HEPHAESTUS_RUN_HEALTH_CHECKS_RPC_METHOD_NAME,
        r.spec_path() == HEPHAESTUS_RUN_HEALTH_CHECKS_RPC_PATH,
        r.spec_path()@ == rpc_path(r.spec_service_name()@, r.spec_method_name()@),
{
    proof {
        reveal_strlit("reallyme.hephaestus.v1.HephaestusService");
        reveal_strlit("RunHealthChecks");
        reveal_strlit("/reallyme.hephaestus.v1.HephaestusService/RunHealthChecks");
        assert(HEPHAESTUS_RUN_HEALTH_CHECKS_RPC_PATH@ =~= rpc_path(HEPHAESTUS_RPC_SERVICE_NAME@, HEPHAESTUS_RUN_HEALTH_CHECKS_RPC_METHOD_NAME@));
    }
    HephaestusRpcMethodPath::new(HEPHAESTUS_RPC_SERVICE_NAME, HEPHAESTUS_RUN_HEALTH_CHECKS_RPC_METHOD_NAME, HEPHAESTUS_RUN_HEALTH_CHECKS_RPC_PATH)
}

/// Canonical protobuf method name.
pub const HEPHAESTUS_LIST_WORKFLOW_RUNS_RPC_METHOD_NAME: &'static str = "ListWorkflowRuns";
/// Canonical Connect/gRPC method path.
pub const HEPHAESTUS_LIST_WORKFLOW_RUNS_RPC_PATH: &'static str = "/reallyme.hephaestus.v1.HephaestusService/ListWorkflowRuns";

/// Canonical RPC method-path metadata of `ListWorkflowRuns` on `reallyme.hephaestus.v1.HephaestusService`; its path is
/// the service name and the method name joined as [`rpc_path`] describes.
pub fn hephaestus_list_workflow_runs_rpc() -> (r: HephaestusRpcMethodPath)
    ensures
        r.spec_service_name() == HEPHAESTUS_RPC_SERVICE_NAME,
        r.spec_method_name() == HEPHAESTUS_LIST_WORKFLOW_RUNS_RPC_METHOD_NAME,
        r.spec_path() == HEPHAESTUS_LIST_WORKFLOW_RUNS_RPC_PATH,
        r.spec_path()@ == rpc_path(r.spec_service_name()@, r.spec_method_name()@),
{
    proof {
        reveal_strlit("reallyme.hephaestus.v1.HephaestusService");
        reveal_strlit("ListWorkflowRuns");
        reveal_strlit("/reallyme.hephaestus.v1.HephaestusService/ListWorkflowRuns");
        assert(HEPHAESTUS_LIST_WORKFLOW_RUNS_RPC_PATH@ =~= rpc_path(HEPHAESTUS_RPC_SERVICE_NAME@, HEPHAESTUS_LIST_WORKFLOW_RUNS_RPC_METHOD_NAME@));
    }
    HephaestusRpcMethodPath::new(HEPHAESTUS_RPC_SERVICE_NAME, HEPHAESTUS_LIST_WORKFLOW_RUNS_RPC_METHOD_NAME, HEPHAESTUS_LIST_WORKFLOW_RUNS_RPC_PATH)
}

/// Canonical protobuf method name.
pub const HEPHAESTUS_GET_WORKFLOW_RUN_RPC_METHOD_NAME: &'static str = "GetWorkflowRun";
/// Canonical Connect/gRPC method path.
pub const HEPHAESTUS_GET_WORKFLOW_RUN_RPC_PATH: &'static str = "/reallyme.hephaestus.v1.HephaestusService/GetWorkflowRun";

/// Canonical RPC method-path metadata of `GetWorkflowRun` on `reallyme.hephaestus.v1.HephaestusService`; its path is
/// the service name and the method name joined as [`rpc_path`] describes.
pub fn hephaestus_get_workflow_run_rpc() -> (r: HephaestusRpcMethodPath)
    ensures
        r.spec_service_name() == HEPHAESTUS_RPC_SERVICE_NAME,
        r.spec_method_name() == HEPHAESTUS_GET_WORKFLOW_RUN_RPC_METHOD_NAME,
        r.spec_path() == HEPHAESTUS_GET_WORKFLOW_RUN_RPC_PATH,
        r.spec_path()@ == rpc_path(r.spec_service_name()@, r.spec_method_name()@),
{
    proof {
        reveal_strlit("reallyme.hephaestus.v1.HephaestusService");
        reveal_strlit("GetWorkflowRun");
        reveal_strlit("/reallyme.hephaestus.v1.HephaestusService/GetWorkflowRun");
        assert(HEPHAESTUS_GET_WORKFLOW_RUN_RPC_PATH@ =~= rpc_path(HEPHAESTUS_RPC_SERVICE_NAME@, HEPHAESTUS_GET_WORKFLOW_RUN_RPC_METHOD_NAME@));
    }
    HephaestusRpcMethodPath::new(HEPHAESTUS_RPC_SERVICE_NAME, HEPHAESTUS_GET_WORKFLOW_RUN_RPC_METHOD_NAME, HEPHAESTUS_GET_WORKFLOW_RUN_RPC_PATH)
}

/// Canonical protobuf method name.
pub const HEPHAESTUS_TRIGGER_RECOVERY_RPC_METHOD_NAME: &'static str = "TriggerRecovery";
/// Canonical Connect/gRPC method path.
pub const HEPHAESTUS_TRIGGER_RECOVERY_RPC_PATH: &'static str = "/reallyme.hephaestus.v1.HephaestusService/TriggerRecovery";

/// Canonical RPC method-path metadata of `TriggerRecovery` on `reallyme.hephaestus.v1.HephaestusService`; its path is
/// the service name and the method name joined as [`rpc_path`] describes.
pub fn hephaestus_trigger_recovery_rpc() -> (r: HephaestusRpcMethodPath)
    ensures
        r.spec_service_name() == HEPHAESTUS_RPC_SERVICE_NAME,
        r.spec_method_name() == HEPHAESTUS_TRIGGER_RECOVERY_RPC_METHOD_NAME,
        r.spec_path() == HEPHAESTUS_TRIGGER_RECOVERY_RPC_PATH,
        r.spec_path()@ == rpc_path(r.spec_service_name()@, r.spec_method_name()@),
{
    proof {
        reveal_strlit("reallyme.hephaestus.v1.HephaestusService");
        reveal_strlit("TriggerRecovery");
        reveal_strlit("/reallyme.hephaestus.v1.HephaestusService/TriggerRecovery");
        assert(HEPHAESTUS_TRIGGER_RECOVERY_RPC_PATH@ =~= rpc_path(HEPHAESTUS_RPC_SERVICE_NAME@, HEPHAESTUS_TRIGGER_RECOVERY_RPC_METHOD_NAME@));
    }
    HephaestusRpcMethodPath::new(HEPHAESTUS_RPC_SERVICE_NAME, HEPHAESTUS_TRIGGER_RECOVERY_RPC_METHOD_NAME, HEPHAESTUS_TRIGGER_RECOVERY_RPC_PATH)
}

/// Canonical protobuf method name.
pub const HEPHAESTUS_GET_OPERATIONAL_OVERVIEW_RPC_METHOD_NAME: &'static str = "GetOperationalOverview";
/// Canonical Connect/gRPC method path.
pub const HEPHAESTUS_GET_OPERATIONAL_OVERVIEW_RPC_PATH: &'static str = "/reallyme.hephaestus.v1.HephaestusService/GetOperationalOverview";

/// Canonical RPC method-path metadata of `GetOperationalOverview` on `reallyme.hephaestus.v1.HephaestusService`; its path is
/// the service name and the method name joined as [`rpc_path`] describes.
pub fn hephaestus_get_operational_overview_rpc() -> (r: HephaestusRpcMethodPath)
    ensures
        r.spec_service_name() == HEPHAESTUS_RPC_SERVICE_NAME,
        r.spec_method_name() == HEPHAESTUS_GET_OPERATIONAL_OVERVIEW_RPC_METHOD_NAME,
        r.spec_path() == HEPHAESTUS_GET_OPERATIONAL_OVERVIEW_RPC_PATH,
        r.spec_path()@ == rpc_path(r.spec_service_name()@, r.spec_method_name()@),
{
    proof {
        reveal_strlit("reallyme.hephaestus.v1.HephaestusService");
        reveal_strlit("GetOperationalOverview");
        reveal_strlit("/reallyme.hephaestus.v1.HephaestusService/GetOperationalOverview");
        assert(HEPHAESTUS_GET_OPERATIONAL_OVERVIEW_RPC_PATH@ =~= rpc_path(HEPHAESTUS_RPC_SERVICE_NAME@, HEPHAESTUS_GET_OPERATIONAL_OVERVIEW_RPC_METHOD_NAME@));
    }
    HephaestusRpcMethodPath::new(HEPHAESTUS_RPC_SERVICE_NAME, HEPHAESTUS_GET_OPERATIONAL_OVERVIEW_RPC_METHOD_NAME, HEPHAESTUS_GET_OPERATIONAL_OVERVIEW_RPC_PATH)
}

/// Canonical protobuf method name.
pub const HEPHAESTUS_GET_TAILNET_OVERVIEW_RPC_METHOD_NAME: &'static str = "GetTailnetOverview";
/// Canonical Connect/gRPC method path.
pub const HEPHAESTUS_GET_TAILNET_OVERVIEW_RPC_PATH: &'static str = "/reallyme.hephaestus.v1.HephaestusService/GetTailnetOverview";

/// Canonical RPC method-path metadata of `GetTailnetOverview` on `reallyme.hephaestus.v1.HephaestusService`; its path is
/// the service name and the method name joined as [`rpc_path`] describes.
pub fn hephaestus_get_tailnet_overview_rpc() -> (r: HephaestusRpcMethodPath)
    ensures
        r.spec_service_name() == HEPHAESTUS_RPC_SERVICE_NAME,
        r.spec_method_name() == HEPHAESTUS_GET_TAILNET_OVERVIEW_RPC_METHOD_NAME,
        r.spec_path() == HEPHAESTUS_GET_TAILNET_OVERVIEW_RPC_PATH,
        r.spec_path()@ == rpc_path(r.spec_service_name()@, r.spec_method_name()@),
{
    proof {
        reveal_strlit("reallyme.hephaestus.v1.HephaestusService");
        reveal_strlit("GetTailnetOverview");
        reveal_strlit("/reallyme.hephaestus.v1.HephaestusService/GetTailnetOverview");
        assert(HEPHAESTUS_GET_TAILNET_OVERVIEW_RPC_PATH@ =~= rpc_path(HEPHAESTUS_RPC_SERVICE_NAME@, HEPHAESTUS_GET_TAILNET_OVERVIEW_RPC_METHOD_NAME@));
    }
    HephaestusRpcMethodPath::new(HEPHAESTUS_RPC_SERVICE_NAME, HEPHAESTUS_GET_TAILNET_OVERVIEW_RPC_METHOD_NAME, HEPHAESTUS_GET_TAILNET_OVERVIEW_RPC_PATH)
}

/// Canonical protobuf method name.
pub const HEPHAESTUS_SUBMIT_AGENT_REPORT_RPC_METHOD_NAME: &'static str = "SubmitAgentReport";
/// Canonical Connect/gRPC method path.
pub const HEPHAESTUS_SUBMIT_AGENT_REPORT_RPC_PATH: &'static str = "/reallyme.hephaestus.v1.HephaestusService/SubmitAgentReport";

/// Canonical RPC method-path metadata of `SubmitAgentReport` on `reallyme.hephaestus.v1.HephaestusService`; its path is
/// the service name and the method name joined as [`rpc_path`] describes.
pub fn hephaestus_submit_agent_report_rpc() -> (r: HephaestusRpcMethodPath)
    ensures
        r.spec_service_name() == HEPHAESTUS_RPC_SERVICE_NAME,
        r.spec_method_name() == HEPHAESTUS_SUBMIT_AGENT_REPORT_RPC_METHOD_NAME,
        r.spec_path() == HEPHAESTUS_SUBMIT_AGENT_REPORT_RPC_PATH,
        r.spec_path()@ == rpc_path(r.spec_service_name()@, r.spec_method_name()@),
{
    proof {
        reveal_strlit("reallyme.hephaestus.v1.HephaestusService");
        reveal_strlit("SubmitAgentReport");
        reveal_strlit("/reallyme.hephaestus.v1.HephaestusService/SubmitAgentReport");
        assert(HEPHAESTUS_SUBMIT_AGENT_REPORT_RPC_PATH@ =~= rpc_path(HEPHAESTUS_RPC_SERVICE_NAME@, HEPHAESTUS_SUBMIT_AGENT_REPORT_RPC_METHOD_NAME@));
    }
    HephaestusRpcMethodPath::new(HEPHAESTUS_RPC_SERVICE_NAME, HEPHAESTUS_SUBMIT_AGENT_REPORT_RPC_METHOD_NAME, HEPHAESTUS_SUBMIT_AGENT_REPORT_RPC_PATH)
}

/// Canonical protobuf method name.
pub const HEPHAESTUS_REGISTER_AGENT_RPC_METHOD_NAME: &'static str = "RegisterAgent";
/// Canonical Connect/gRPC method path.
pub const HEPHAESTUS_REGISTER_AGENT_RPC_PATH: &'static str = "/reallyme.hephaestus.v1.HephaestusService/RegisterAgent";

/// Canonical RPC method-path metadata of `RegisterAgent` on `reallyme.hephaestus.v1.HephaestusService`; its path is
/// the service name and the method name joined as [`rpc_path`] describes.
pub fn hephaestus_register_agent_rpc() -> (r: HephaestusRpcMethodPath)
    ensures
        r.spec_service_name() == HEPHAESTUS_RPC_SERVICE_NAME,
        r.spec_method_name() == HEPHAESTUS_REGISTER_AGENT_RPC_METHOD_NAME,
        r.spec_path() == HEPHAESTUS_REGISTER_AGENT_RPC_PATH,
        r.spec_path()@ == rpc_path(r.spec_service_name()@, r.spec_method_name()@),
{
    proof {
        reveal_strlit("reallyme.hephaestus.v1.HephaestusService");
        reveal_strlit("RegisterAgent");
        reveal_strlit("/reallyme.hephaestus.v1.HephaestusService/RegisterAgent");
        assert(HEPHAESTUS_REGISTER_AGENT_RPC_PATH@ =~= rpc_path(HEPHAESTUS_RPC_SERVICE_NAME@, HEPHAESTUS_REGISTER_AGENT_RPC_METHOD_NAME@));
    }
    HephaestusRpcMethodPath::new(HEPHAESTUS_RPC_SERVICE_NAME, HEPHAESTUS_REGISTER_AGENT_RPC_METHOD_NAME, HEPHAESTUS_REGISTER_AGENT_RPC_PATH)
}

/// Canonical protobuf method name.
pub const HEPHAESTUS_QUEUE_AGENT_ACTION_RPC_METHOD_NAME: &'static str = "QueueAgentAction";
/// Canonical Connect/gRPC method path.
pub const HEPHAESTUS_QUEUE_AGENT_ACTION_RPC_PATH: &'static str = "/reallyme.hephaestus.v1.HephaestusService/QueueAgentAction";

/// Canonical RPC method-path metadata of `QueueAgentAction` on `reallyme.hephaestus.v1.HephaestusService`; its path is
/// the service name and the method name joined as [`rpc_path`] describes.
pub fn hephaestus_queue_agent_action_rpc() -> (r: HephaestusRpcMethodPath)
    ensures
        r.spec_service_name() == HEPHAESTUS_RPC_SERVICE_NAME,
        r.spec_method_name() == HEPHAESTUS_QUEUE_AGENT_ACTION_RPC_METHOD_NAME,
        r.spec_path() == HEPHAESTUS_QUEUE_AGENT_ACTION_RPC_PATH,
        r.spec_path()@ == rpc_path(r.spec_service_name()@, r.spec_method_name()@),
{
    proof {
        reveal_strlit("reallyme.hephaestus.v1.HephaestusService");
        reveal_strlit("QueueAgentAction");
        reveal_strlit("/reallyme.hephaestus.v1.HephaestusService/QueueAgentAction");
        assert(HEPHAESTUS_QUEUE_AGENT_ACTION_RPC_PATH@ =~= rpc_path(HEPHAESTUS_RPC_SERVICE_NAME@, HEPHAESTUS_QUEUE_AGENT_ACTION_RPC_METHOD_NAME@));
    }
    HephaestusRpcMethodPath::new(HEPHAESTUS_RPC_SERVICE_NAME, HEPHAESTUS_QUEUE_AGENT_ACTION_RPC_METHOD_NAME, HEPHAESTUS_QUEUE_AGENT_ACTION_RPC_PATH)
}

/// Canonical protobuf method name.
pub const HEPHAESTUS_POLL_AGENT_ACTIONS_RPC_METHOD_NAME: &'static str = "PollAgentActions";
/// Canonical Connect/gRPC method path.
pub const HEPHAESTUS_POLL_AGENT_ACTIONS_RPC_PATH: &'static str = "/reallyme.hephaestus.v1.HephaestusService/PollAgentActions";

/// Canonical RPC method-path metadata of `PollAgentActions` on `reallyme.hephaestus.v1.HephaestusService`; its path is
/// the service name and the method name joined as [`rpc_path`] describes.
pub fn hephaestus_poll_agent_actions_rpc() -> (r: HephaestusRpcMethodPath)
    ensures
        r.spec_service_name() == HEPHAESTUS_RPC_SERVICE_NAME,
        r.spec_method_name() == HEPHAESTUS_POLL_AGENT_ACTIONS_RPC_METHOD_NAME,
        r.spec_path() == HEPHAESTUS_POLL_AGENT_ACTIONS_RPC_PATH,
        r.spec_path()@ == rpc_path(r.spec_service_name()@, r.spec_method_name()@),
{
    proof {
        reveal_strlit("reallyme.hephaestus.v1.HephaestusService");
        reveal_strlit("PollAgentActions");
        reveal_strlit("/reallyme.hephaestus.v1.HephaestusService/PollAgentActions");
        assert(HEPHAESTUS_POLL_AGENT_ACTIONS_RPC_PATH@ =~= rpc_path(HEPHAESTUS_RPC_SERVICE_NAME@, HEPHAESTUS_POLL_AGENT_ACTIONS_RPC_METHOD_NAME@));
    }
    HephaestusRpcMethodPath::new(HEPHAESTUS_RPC_SERVICE_NAME, HEPHAESTUS_POLL_AGENT_ACTIONS_RPC_METHOD_NAME, HEPHAESTUS_POLL_AGENT_ACTIONS_RPC_PATH)
}

/// Canonical protobuf method name.
pub const HEPHAESTUS_LIST_AGENT_ACTION_RECORDS_RPC_METHOD_NAME: &'static str = "ListAgentActionRecords";
/// Canonical Connect/gRPC method path.
pub const HEPHAESTUS_LIST_AGENT_ACTION_RECORDS_RPC_PATH: &'static str = "/reallyme.hephaestus.v1.HephaestusService/ListAgentActionRecords";

/// Canonical RPC method-path metadata of `ListAgentActionRecords` on `reallyme.hephaestus.v1.HephaestusService`; its path is
/// the service name and the method name joined as [`rpc_path`] describes.
pub fn hephaestus_list_agent_action_records_rpc() -> (r: HephaestusRpcMethodPath)
    ensures
        r.spec_service_name() == HEPHAESTUS_RPC_SERVICE_NAME,
        r.spec_method_name() == HEPHAESTUS_LIST_AGENT_ACTION_RECORDS_RPC_METHOD_NAME,
        r.spec_path() == HEPHAESTUS_LIST_AGENT_ACTION_RECORDS_RPC_PATH,
        r.spec_path()@ == rpc_path(r.spec_service_name()@, r.spec_method_name()@),
{
    proof {
        reveal_strlit("reallyme.hephaestus.v1.HephaestusService");
        reveal_strlit("ListAgentActionRecords");
        reveal_strlit("/reallyme.hephaestus.v1.HephaestusService/ListAgentActionRecords");
        assert(HEPHAESTUS_LIST_AGENT_ACTION_RECORDS_RPC_PATH@ =~= rpc_path(HEPHAESTUS_RPC_SERVICE_NAME@, HEPHAESTUS_LIST_AGENT_ACTION_RECORDS_RPC_METHOD_NAME@));
    }
    HephaestusRpcMethodPath::new(HEPHAESTUS_RPC_SERVICE_NAME, HEPHAESTUS_LIST_AGENT_ACTION_RECORDS_RPC_METHOD_NAME, HEPHAESTUS_LIST_AGENT_ACTION_RECORDS_RPC_PATH)
}

/// Canonical protobuf method name.
pub const HEPHAESTUS_COMPLETE_AGENT_ACTION_RPC_METHOD_NAME: &'static str = "CompleteAgentAction";
/// Canonical Connect/gRPC method path.
pub const HEPHAESTUS_COMPLETE_AGENT_ACTION_RPC_PATH: &'static str = "/reallyme.hephaestus.v1.HephaestusService/CompleteAgentAction";

/// Canonical RPC method-path metadata of `CompleteAgentAction` on `reallyme.hephaestus.v1.HephaestusService`; its path is
/// the service name and the method name joined as [`rpc_path`] describes.
pub fn hephaestus_complete_agent_action_rpc() -> (r: HephaestusRpcMethodPath)
    ensures
        r.spec_service_name() == HEPHAESTUS_RPC_SERVICE_NAME,
        r.spec_method_name() == HEPHAESTUS_COMPLETE_AGENT_ACTION_RPC_METHOD_NAME,
        r.spec_path() == HEPHAESTUS_COMPLETE_AGENT_ACTION_RPC_PATH,
        r.spec_path()@ == rpc_path(r.spec_service_name()@, r.spec_method_name()@),
{
    proof {
        reveal_strlit("reallyme.hephaestus.v1.HephaestusService");
        reveal_strlit("CompleteAgentAction");
        reveal_strlit("/reallyme.hephaestus.v1.HephaestusService/CompleteAgentAction");
        assert(HEPHAESTUS_COMPLETE_AGENT_ACTION_RPC_PATH@ =~= rpc_path(HEPHAESTUS_RPC_SERVICE_NAME@, HEPHAESTUS_COMPLETE_AGENT_ACTION_RPC_METHOD_NAME@));
    }
    HephaestusRpcMethodPath::new(HEPHAESTUS_RPC_SERVICE_NAME, HEPHAESTUS_COMPLETE_AGENT_ACTION_RPC_METHOD_NAME, HEPHAESTUS_COMPLETE_AGENT_ACTION_RPC_PATH)
}

/// Canonical protobuf method name.
pub const HEPHAESTUS_RESIZE_NODE_RPC_METHOD_NAME: &'static str = "ResizeNode";
/// Canonical Connect/gRPC method path.
pub const HEPHAESTUS_RESIZE_NODE_RPC_PATH: &'static str = "/reallyme.hephaestus.v1.HephaestusService/ResizeNode";

/// Canonical RPC method-path metadata of `ResizeNode` on `reallyme.hephaestus.v1.HephaestusService`; its path is
/// the service name and the method name joined as [`rpc_path`] describes.
pub fn hephaestus_resize_node_rpc() -> (r: HephaestusRpcMethodPath)
    ensures
        r.spec_service_name() == HEPHAESTUS_RPC_SERVICE_NAME,
        r.spec_method_name() == HEPHAESTUS_RESIZE_NODE_RPC_METHOD_NAME,
        r.spec_path() == HEPHAESTUS_RESIZE_NODE_RPC_PATH,
        r.spec_path()@ == rpc_path(r.spec_service_name()@, r.spec_method_name()@),
{
    proof {
        reveal_strlit("reallyme.hephaestus.v1.HephaestusService");
        reveal_strlit("ResizeNode");
        reveal_strlit("/reallyme.hephaestus.v1.HephaestusService/ResizeNode");
        assert(HEPHAESTUS_RESIZE_NODE_RPC_PATH@ =~= rpc_path(HEPHAESTUS_RPC_SERVICE_NAME@, HEPHAESTUS_RESIZE_NODE_RPC_METHOD_NAME@));
    }
    HephaestusRpcMethodPath::new(HEPHAESTUS_RPC_SERVICE_NAME, HEPHAESTUS_RESIZE_NODE_RPC_METHOD_NAME, HEPHAESTUS_RESIZE_NODE_RPC_PATH)
}

/// Canonical protobuf method name.
pub const HEPHAESTUS_CREATE_IPV4_EGRESS_GATEWAY_RPC_METHOD_NAME: &'static str = "CreateIpv4EgressGateway";
/// Canonical Connect/gRPC method path.
pub const HEPHAESTUS_CREATE_IPV4_EGRESS_GATEWAY_RPC_PATH: &'static str = "/reallyme.hephaestus.v1.HephaestusService/CreateIpv4EgressGateway";

/// Canonical RPC method-path metadata of `CreateIpv4EgressGateway` on `reallyme.hephaestus.v1.HephaestusService`; its path is
/// the service name and the method name joined as [`rpc_path`] describes.
pub fn hephaestus_create_ipv4_egress_gateway_rpc() -> (r: HephaestusRpcMethodPath)
    ensures
        r.spec_service_name() == HEPHAESTUS_RPC_SERVICE_NAME,
        r.spec_method_name() == HEPHAESTUS_CREATE_IPV4_EGRESS_GATEWAY_RPC_METHOD_NAME,
        r.spec_path() == HEPHAESTUS_CREATE_IPV4_EGRESS_GATEWAY_RPC_PATH,
        r.spec_path()@ == rpc_path(r.spec_service_name()@, r.spec_method_name()@),
{
    proof {
        reveal_strlit("reallyme.hephaestus.v1.HephaestusService");
        reveal_strlit("CreateIpv4EgressGateway");
        reveal_strlit("/reallyme.hephaestus.v1.HephaestusService/CreateIpv4EgressGateway");
        assert(HEPHAESTUS_CREATE_IPV4_EGRESS_GATEWAY_RPC_PATH@ =~= rpc_path(HEPHAESTUS_RPC_SERVICE_NAME@, HEPHAESTUS_CREATE_IPV4_EGRESS_GATEWAY_RPC_METHOD_NAME@));
    }
    HephaestusRpcMethodPath::new(HEPHAESTUS_RPC_SERVICE_NAME, HEPHAESTUS_CREATE_IPV4_EGRESS_GATEWAY_RPC_METHOD_NAME, HEPHAESTUS_CREATE_IPV4_EGRESS_GATEWAY_RPC_PATH)
}

/// Canonical protobuf method name.
pub const HEPHAESTUS_RESOLVE_AGENT_SECRET_RPC_METHOD_NAME: &'static str = "ResolveAgentSecret";
/// Canonical Connect/gRPC method path.
pub const HEPHAESTUS_RESOLVE_AGENT_SECRET_RPC_PATH: &'static str = "/reallyme.hephaestus.v1.HephaestusService/ResolveAgentSecret";

/// Canonical RPC method-path metadata of `ResolveAgentSecret` on `reallyme.hephaestus.v1.HephaestusService`; its path is
/// the service name and the method name joined as [`rpc_path`] describes.
pub fn hephaestus_resolve_agent_secret_rpc() -> (r: HephaestusRpcMethodPath)
    ensures
        r.spec_service_name() == HEPHAESTUS_RPC_SERVICE_NAME,
        r.spec_method_name() == HEPHAESTUS_RESOLVE_AGENT_SECRET_RPC_METHOD_NAME,
        r.spec_path() == HEPHAESTUS_RESOLVE_AGENT_SECRET_RPC_PATH,
        r.spec_path()@ == rpc_path(r.spec_service_name()@, r.spec_method_name()@),
{
    proof {
        reveal_strlit("reallyme.hephaestus.v1.HephaestusService");
        reveal_strlit("ResolveAgentSecret");
        reveal_strlit("/reallyme.hephaestus.v1.HephaestusService/ResolveAgentSecret");
        assert(HEPHAESTUS_RESOLVE_AGENT_SECRET_RPC_PATH@ =~= rpc_path(HEPHAESTUS_RPC_SERVICE_NAME@, HEPHAESTUS_RESOLVE_AGENT_SECRET_RPC_METHOD_NAME@));
    }
    HephaestusRpcMethodPath::new(HEPHAESTUS_RPC_SERVICE_NAME, HEPHAESTUS_RESOLVE_AGENT_SECRET_RPC_METHOD_NAME, HEPHAESTUS_RESOLVE_AGENT_SECRET_RPC_PATH)
}

/// Canonical protobuf method name.
pub const HEPHAESTUS_SUBMIT_AGENT_BOOT_REPORT_RPC_METHOD_NAME: &'static str = "SubmitAgentBootReport";
/// Canonical Connect/gRPC method path.
pub const HEPHAESTUS_SUBMIT_AGENT_BOOT_REPORT_RPC_PATH: &'static str = "/reallyme.hephaestus.v1.HephaestusService/SubmitAgentBootReport";

/// Canonical RPC method-path metadata of `SubmitAgentBootReport` on `reallyme.hephaestus.v1.HephaestusService`; its path is
/// the service name and the method name joined as [`rpc_path`] describes.
pub fn hephaestus_submit_agent_boot_report_rpc() -> (r: HephaestusRpcMethodPath)
    ensures
        r.spec_service_name() == HEPHAESTUS_RPC_SERVICE_NAME,
        r.spec_method_name() == HEPHAESTUS_SUBMIT_AGENT_BOOT_REPORT_RPC_METHOD_NAME,
        r.spec_path() == HEPHAESTUS_SUBMIT_AGENT_BOOT_REPORT_RPC_PATH,
        r.spec_path()@ == rpc_path(r.spec_service_name()@, r.spec_method_name()@),
{
    proof {
        reveal_strlit("reallyme.hephaestus.v1.HephaestusService");
        reveal_strlit("SubmitAgentBootReport");
        reveal_strlit("/reallyme.hephaestus.v1.HephaestusService/SubmitAgentBootReport");
        assert(HEPHAESTUS_SUBMIT_AGENT_BOOT_REPORT_RPC_PATH@ =~= rpc_path(HEPHAESTUS_RPC_SERVICE_NAME@, HEPHAESTUS_SUBMIT_AGENT_BOOT_REPORT_RPC_METHOD_NAME@));
    }
    HephaestusRpcMethodPath::new(HEPHAESTUS_RPC_SERVICE_NAME, HEPHAESTUS_SUBMIT_AGENT_BOOT_REPORT_RPC_METHOD_NAME, HEPHAESTUS_SUBMIT_AGENT_BOOT_REPORT_RPC_PATH)
}

/// Canonical protobuf method name.
pub const HEPHAESTUS_LIST_AGENT_REPORTS_RPC_METHOD_NAME: &'static str = "ListAgentReports";
/// Canonical Connect/gRPC method path.
pub const HEPHAESTUS_LIST_AGENT_REPORTS_RPC_PATH: &'static str = "/reallyme.hephaestus.v1.HephaestusService/ListAgentReports";

/// Canonical RPC method-path metadata of `ListAgentReports` on `reallyme.hephaestus.v1.HephaestusService`; its path is
/// the service name and the method name joined as [`rpc_path`] describes.
pub fn hephaestus_list_agent_reports_rpc() -> (r: HephaestusRpcMethodPath)
    ensures
        r.spec_service_name() == HEPHAESTUS_RPC_SERVICE_NAME,
        r.spec_method_name() == HEPHAESTUS_LIST_AGENT_REPORTS_RPC_METHOD_NAME,
        r.spec_path() == HEPHAESTUS_LIST_AGENT_REPORTS_RPC_PATH,
        r.spec_path()@ == rpc_path(r.spec_service_name()@, r.spec_method_name()@),
{
    proof {
        reveal_strlit("reallyme.hephaestus.v1.HephaestusService");
        reveal_strlit("ListAgentReports");
        reveal_strlit("/reallyme.hephaestus.v1.HephaestusService/ListAgentReports");
        assert(HEPHAESTUS_LIST_AGENT_REPORTS_RPC_PATH@ =~= rpc_path(HEPHAESTUS_RPC_SERVICE_NAME@, HEPHAESTUS_LIST_AGENT_REPORTS_RPC_METHOD_NAME@));
    }
    HephaestusRpcMethodPath::new(HEPHAESTUS_RPC_SERVICE_NAME, HEPHAESTUS_LIST_AGENT_REPORTS_RPC_METHOD_NAME, HEPHAESTUS_LIST_AGENT_REPORTS_RPC_PATH)
}

/// Canonical protobuf method name.
pub const HEPHAESTUS_GET_AGENT_REPORT_BY_SERVER_ID_RPC_METHOD_NAME: &'static str = "GetAgentReportByServerId";
/// Canonical Connect/gRPC method path.
pub const HEPHAESTUS_GET_AGENT_REPORT_BY_SERVER_ID_RPC_PATH: &'static str = "/reallyme.hephaestus.v1.HephaestusService/GetAgentReportByServerId";

/// Canonical RPC method-path metadata of `GetAgentReportByServerId` on `reallyme.hephaestus.v1.HephaestusService`; its path is
/// the service name and the method name joined as [`rpc_path`] describes.
pub fn hephaestus_get_agent_report_by_server_id_rpc() -> (r: HephaestusRpcMethodPath)
    ensures
        r.spec_service_name() == HEPHAESTUS_RPC_SERVICE_NAME,
        r.spec_method_name() == HEPHAESTUS_GET_AGENT_REPORT_BY_SERVER_ID_RPC_METHOD_NAME,
        r.spec_path() == HEPHAESTUS_GET_AGENT_REPORT_BY_SERVER_ID_RPC_PATH,
        r.spec_path()@ == rpc_path(r.spec_service_name()@, r.spec_method_name()@),
{
    proof {
        reveal_strlit("reallyme.hephaestus.v1.HephaestusService");
        reveal_strlit("GetAgentReportByServerId");
        reveal_strlit("/reallyme.hephaestus.v1.HephaestusService/GetAgentReportByServerId");
        assert(HEPHAESTUS_GET_AGENT_REPORT_BY_SERVER_ID_RPC_PATH@ =~= rpc_path(HEPHAESTUS_RPC_SERVICE_NAME@, HEPHAESTUS_GET_AGENT_REPORT_BY_SERVER_ID_RPC_METHOD_NAME@));
    }
    HephaestusRpcMethodPath::new(HEPHAESTUS_RPC_SERVICE_NAME, HEPHAESTUS_GET_AGENT_REPORT_BY_SERVER_ID_RPC_METHOD_NAME, HEPHAESTUS_GET_AGENT_REPORT_BY_SERVER_ID_RPC_PATH)
}

/// Canonical protobuf method name.
pub const HEPHAESTUS_LIST_NODE_ACTUAL_STATES_RPC_METHOD_NAME: &'static str = "ListNodeActualStates";
/// Canonical Connect/gRPC method path.
pub const HEPHAESTUS_LIST_NODE_ACTUAL_STATES_RPC_PATH: &'static str = "/reallyme.hephaestus.v1.HephaestusService/ListNodeActualStates";

/// Canonical RPC method-path metadata of `ListNodeActualStates` on `reallyme.hephaestus.v1.HephaestusService`; its path is
/// the service name and the method name joined as [`rpc_path`] describes.
pub fn hephaestus_list_node_actual_states_rpc() -> (r: HephaestusRpcMethodPath)
    ensures
        r.spec_service_name() == HEPHAESTUS_RPC_SERVICE_NAME,
        r.spec_method_name() == HEPHAESTUS_LIST_NODE_ACTUAL_STATES_RPC_METHOD_NAME,
        r.spec_path() == HEPHAESTUS_LIST_NODE_ACTUAL_STATES_RPC_PATH,
        r.spec_path()@ == rpc_path(r.spec_service_name()@, r.spec_method_name()@),
{
    proof {
        reveal_strlit("reallyme.hephaestus.v1.HephaestusService");
        reveal_strlit("ListNodeActualStates");
        reveal_strlit("/reallyme.hephaestus.v1.HephaestusService/ListNodeActualStates");
        assert(HEPHAESTUS_LIST_NODE_ACTUAL_STATES_RPC_PATH@ =~= rpc_path(HEPHAESTUS_RPC_SERVICE_NAME@, HEPHAESTUS_LIST_NODE_ACTUAL_STATES_RPC_METHOD_NAME@));
    }
    HephaestusRpcMethodPath::new(HEPHAESTUS_RPC_SERVICE_NAME, HEPHAESTUS_LIST_NODE_ACTUAL_STATES_RPC_METHOD_NAME, HEPHAESTUS_LIST_NODE_ACTUAL_STATES_RPC_PATH)
}

/// Canonical protobuf method name.
pub const HEPHAESTUS_GET_NODE_ACTUAL_STATE_BY_SERVER_ID_RPC_METHOD_NAME: &'static str = "GetNodeActualStateByServerId";
/// Canonical Connect/gRPC method path.
pub const HEPHAESTUS_GET_NODE_ACTUAL_STATE_BY_SERVER_ID_RPC_PATH: &'static str = "/reallyme.hephaestus.v1.HephaestusService/GetNodeActualStateByServerId";

/// Canonical RPC method-path metadata of `GetNodeActualStateByServerId` on `reallyme.hephaestus.v1.HephaestusService`; its path is
/// the service name and the method name joined as [`rpc_path`] describes.
pub fn hephaestus_get_node_actual_state_by_server_id_rpc() -> (r: HephaestusRpcMethodPath)
    ensures
        r.spec_service_name() == HEPHAESTUS_RPC_SERVICE_NAME,
        r.spec_method_name() == HEPHAESTUS_GET_NODE_ACTUAL_STATE_BY_SERVER_ID_RPC_METHOD_NAME,
        r.spec_path() == HEPHAESTUS_GET_NODE_ACTUAL_STATE_BY_SERVER_ID_RPC_PATH,
        r.spec_path()@ == rpc_path(r.spec_service_name()@, r.spec_method_name()@),
{
    proof {
        reveal_strlit("reallyme.hephaestus.v1.HephaestusService");
        reveal_strlit("GetNodeActualStateByServerId");
        reveal_strlit("/reallyme.hephaestus.v1.HephaestusService/GetNodeActualStateByServerId");
        assert(HEPHAESTUS_GET_NODE_ACTUAL_STATE_BY_SERVER_ID_RPC_PATH@ =~= rpc_path(HEPHAESTUS_RPC_SERVICE_NAME@, HEPHAESTUS_GET_NODE_ACTUAL_STATE_BY_SERVER_ID_RPC_METHOD_NAME@));
    }
    HephaestusRpcMethodPath::new(HEPHAESTUS_RPC_SERVICE_NAME, HEPHAESTUS_GET_NODE_ACTUAL_STATE_BY_SERVER_ID_RPC_METHOD_NAME, HEPHAESTUS_GET_NODE_ACTUAL_STATE_BY_SERVER_ID_RPC_PATH)
}

/// Canonical protobuf method name.
pub const HEPHAESTUS_LIST_SERVER_INVENTORY_RPC_METHOD_NAME: &'static str = "ListServerInventory";
/// Canonical Connect/gRPC method path.
pub const HEPHAESTUS_LIST_SERVER_INVENTORY_RPC_PATH: &'static str = "/reallyme.hephaestus.v1.HephaestusService/ListServerInventory";

/// Canonical RPC method-path metadata of `ListServerInventory` on `reallyme.hephaestus.v1.HephaestusService`; its path is
/// the service name and the method name joined as [`rpc_path`] describes.
pub fn hephaestus_list_server_inventory_rpc() -> (r: HephaestusRpcMethodPath)
    ensures
        r.spec_service_name() == HEPHAESTUS_RPC_SERVICE_NAME,
        r.spec_method_name() == HEPHAESTUS_LIST_SERVER_INVENTORY_RPC_METHOD_NAME,
        r.spec_path() == HEPHAESTUS_LIST_SERVER_INVENTORY_RPC_PATH,
        r.spec_path()@ == rpc_path(r.spec_service_name()@, r.spec_method_name()@),
{
    proof {
        reveal_strlit("reallyme.hephaestus.v1.HephaestusService");
        reveal_strlit("ListServerInventory");
        reveal_strlit("/reallyme.hephaestus.v1.HephaestusService/ListServerInventory");
        assert(HEPHAESTUS_LIST_SERVER_INVENTORY_RPC_PATH@ =~= rpc_path(HEPHAESTUS_RPC_SERVICE_NAME@, HEPHAESTUS_LIST_SERVER_INVENTORY_RPC_METHOD_NAME@));
    }
    HephaestusRpcMethodPath::new(HEPHAESTUS_RPC_SERVICE_NAME, HEPHAESTUS_LIST_SERVER_INVENTORY_RPC_METHOD_NAME, HEPHAESTUS_LIST_SERVER_INVENTORY_RPC_PATH)
}

/// Canonical protobuf method name.
pub const HEPHAESTUS_GET_NODE_LIVE_REPORT_BY_SERVER_ID_RPC_METHOD_NAME: &'static str = "GetNodeLiveReportByServerId";
/// Canonical Connect/gRPC method path.
pub const HEPHAESTUS_GET_NODE_LIVE_REPORT_BY_SERVER_ID_RPC_PATH: &'static str = "/reallyme.hephaestus.v1.HephaestusService/GetNodeLiveReportByServerId";

/// Canonical RPC method-path metadata of `GetNodeLiveReportByServerId` on `reallyme.hephaestus.v1.HephaestusService`; its path is
/// the service name and the method name joined as [`rpc_path`] describes.
pub fn hephaestus_get_node_live_report_by_server_id_rpc() -> (r: HephaestusRpcMethodPath)
    ensures
        r.spec_service_name() == HEPHAESTUS_RPC_SERVICE_NAME,
        r.spec_method_name() == HEPHAESTUS_GET_NODE_LIVE_REPORT_BY_SERVER_ID_RPC_METHOD_NAME,
        r.spec_path() == HEPHAESTUS_GET_NODE_LIVE_REPORT_BY_SERVER_ID_RPC_PATH,
        r.spec_path()@ == rpc_path(r.spec_service_name()@, r.spec_method_name()@),
{
    proof {
        reveal_strlit("reallyme.hephaestus.v1.HephaestusService");
        reveal_strlit("GetNodeLiveReportByServerId");
        reveal_strlit("/reallyme.hephaestus.v1.HephaestusService/GetNodeLiveReportByServerId");
        assert(HEPHAESTUS_GET_NODE_LIVE_REPORT_BY_SERVER_ID_RPC_PATH@ =~= rpc_path(HEPHAESTUS_RPC_SERVICE_NAME@, HEPHAESTUS_GET_NODE_LIVE_REPORT_BY_SERVER_ID_RPC_METHOD_NAME@));
    }
    HephaestusRpcMethodPath::new(HEPHAESTUS_RPC_SERVICE_NAME, HEPHAESTUS_GET_NODE_LIVE_REPORT_BY_SERVER_ID_RPC_METHOD_NAME, HEPHAESTUS_GET_NODE_LIVE_REPORT_BY_SERVER_ID_RPC_PATH)
}

/// Canonical protobuf method name.
pub const NATS_PLAN_NATS_DEPLOYMENT_RPC_METHOD_NAME: &'static str = "PlanNatsDeployment";
/// Canonical Connect/gRPC method path.
pub const NATS_PLAN_NATS_DEPLOYMENT_RPC_PATH: &'static str = "/reallyme.hephaestus.v1.NatsService/PlanNatsDeployment";

/// Canonical RPC method-path metadata of `PlanNatsDeployment` on `reallyme.hephaestus.v1.NatsService`; its path is
/// the service name and the method name joined as [`rpc_path`] describes.
pub fn nats_plan_nats_deployment_rpc() -> (r: HephaestusRpcMethodPath)
    ensures
        r.spec_service_name() == NATS_RPC_SERVICE_NAME,
        r.spec_method_name() == NATS_PLAN_NATS_DEPLOYMENT_RPC_METHOD_NAME,
        r.spec_path() == NATS_PLAN_NATS_DEPLOYMENT_RPC_PATH,
        r.spec_path()@ == rpc_path(r.spec_service_name()@, r.spec_method_name()@),
{
    proof {
        reveal_strlit("reallyme.hephaestus.v1.NatsService");
        reveal_strlit("PlanNatsDeployment");
        reveal_strlit("/reallyme.hephaestus.v1.NatsService/PlanNatsDeployment");
        assert(NATS_PLAN_NATS_DEPLOYMENT_RPC_PATH@ =~= rpc_path(NATS_RPC_SERVICE_NAME@, NATS_PLAN_NATS_DEPLOYMENT_RPC_METHOD_NAME@));
    }
    HephaestusRpcMethodPath::new(NATS_RPC_SERVICE_NAME, NATS_PLAN_NATS_DEPLOYMENT_RPC_METHOD_NAME, NATS_PLAN_NATS_DEPLOYMENT_RPC_PATH)
}

/// Canonical protobuf method name.
pub const DOCKER_PLAN_DOCKER_DEPLOYMENT_RPC_METHOD_NAME: &'static str = "PlanDockerDeployment";
/// Canonical Connect/gRPC method path.
pub const DOCKER_PLAN_DOCKER_DEPLOYMENT_RPC_PATH: &'static str = "/reallyme.hephaestus.v1.DockerService/PlanDockerDeployment";

/// Canonical RPC method-path metadata of `PlanDockerDeployment` on `reallyme.hephaestus.v1.DockerService`; its path is
/// the service name and the method name joined as [`rpc_path`] describes.
pub fn docker_plan_docker_deployment_rpc() -> (r: HephaestusRpcMethodPath)
    ensures
        r.spec_service_name() == DOCKER_RPC_SERVICE_NAME,
        r.spec_method_name() == DOCKER_PLAN_DOCKER_DEPLOYMENT_RPC_METHOD_NAME,
        r.spec_path() == DOCKER_PLAN_DOCKER_DEPLOYMENT_RPC_PATH,
        r.spec_path()@ == rpc_path(r.spec_service_name()@, r.spec_method_name()@),
{
    proof {
        reveal_strlit("reallyme.hephaestus.v1.DockerService");
        reveal_strlit("PlanDockerDeployment");
        reveal_strlit("/reallyme.hephaestus.v1.DockerService/PlanDockerDeployment");
        assert(DOCKER_PLAN_DOCKER_DEPLOYMENT_RPC_PATH@ =~= rpc_path(DOCKER_RPC_SERVICE_NAME@, DOCKER_PLAN_DOCKER_DEPLOYMENT_RPC_METHOD_NAME@));
    }
    HephaestusRpcMethodPath::new(DOCKER_RPC_SERVICE_NAME, DOCKER_PLAN_DOCKER_DEPLOYMENT_RPC_METHOD_NAME, DOCKER_PLAN_DOCKER_DEPLOYMENT_RPC_PATH)
}

/// Canonical protobuf method name.
pub const TYPESENSE_PLAN_TYPESENSE_DEPLOYMENT_RPC_METHOD_NAME: &'static str = "PlanTypesenseDeployment";
/// Canonical Connect/gRPC method path.
pub const TYPESENSE_PLAN_TYPESENSE_DEPLOYMENT_RPC_PATH: &'static str = "/reallyme.hephaestus.v1.TypesenseService/PlanTypesenseDeployment";

/// Canonical RPC method-path metadata of `PlanTypesenseDeployment` on `reallyme.hephaestus.v1.TypesenseService`; its path is
/// the service name and the method name joined as [`rpc_path`] describes.
pub fn typesense_plan_typesense_deployment_rpc() -> (r: HephaestusRpcMethodPath)
    ensures
        r.spec_service_name() == TYPESENSE_RPC_SERVICE_NAME,
        r.spec_method_name() == TYPESENSE_PLAN_TYPESENSE_DEPLOYMENT_RPC_METHOD_NAME,
        r.spec_path() == TYPESENSE_PLAN_TYPESENSE_DEPLOYMENT_RPC_PATH,
        r.spec_path()@ == rpc_path(r.spec_service_name()@, r.spec_method_name()@),
{
    proof {
        reveal_strlit("reallyme.hephaestus.v1.TypesenseService");
        reveal_strlit("PlanTypesenseDeployment");
        reveal_strlit("/reallyme.hephaestus.v1.TypesenseService/PlanTypesenseDeployment");
        assert(TYPESENSE_PLAN_TYPESENSE_DEPLOYMENT_RPC_PATH@ =~= rpc_path(TYPESENSE_RPC_SERVICE_NAME@, TYPESENSE_PLAN_TYPESENSE_DEPLOYMENT_RPC_METHOD_NAME@));
    }
    HephaestusRpcMethodPath::new(TYPESENSE_RPC_SERVICE_NAME, TYPESENSE_PLAN_TYPESENSE_DEPLOYMENT_RPC_METHOD_NAME, TYPESENSE_PLAN_TYPESENSE_DEPLOYMENT_RPC_PATH)
}

} // verus!
