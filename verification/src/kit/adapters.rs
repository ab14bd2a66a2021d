//! Policy conventions of app adapters: Connect, gRPC, server hosts and
//! Workers.
use vstd::prelude::*;

verus! {

/// Canonical schema source for Connect/gRPC/HTTP adapter contracts.
#[derive(Debug, Clone, Copy, Default, PartialEq, Eq, Structural)]
pub enum ConnectSchemaSource {
    /// Buf-managed protobuf contracts are canonical.
    #[default]
    BufProtobuf,
}

/// Terminology boundary between protobuf and ReallyMe runtime architecture.
#[derive(Debug, Clone, Copy, Default, PartialEq, Eq, Structural)]
pub enum ConnectServiceTerminologyPolicy {
    /// A protobuf `service` is an app-owned RPC trait/surface, not a server process.
    #[default]
    ProtoServiceIsAppOwnedRpcSurface,
}

/// Required Rust code-generation workflow for Connect-enabled apps.
#[derive(Debug, Clone, Copy, Default, PartialEq, Eq, Structural)]
pub enum ConnectCodeGenerationWorkflow {
    /// `buf generate` before Rust formatting and checks is the production workflow.
    #[default]
    BufGenerateBeforeRustChecks,
}

/// Runtime integration posture for Connect adapters.
#[derive(Debug, Clone, Copy, Default, PartialEq, Eq, Structural)]
pub enum ConnectRuntimeIntegrationPolicy {
    /// App adapters return Tower-native Connect routers/services.
    #[default]
    TowerNativeRouter,
}

/// Framework coupling posture for app-owned Connect handlers.
#[derive(Debug, Clone, Copy, Default, PartialEq, Eq, Structural)]
pub enum ConnectFrameworkPolicy {
    /// Connect handlers should remain independent of Axum/Hyper listener ownership.
    #[default]
    FrameworkAgnosticHandlers,
}

/// Default Connect protocol encoding.
#[derive(Debug, Clone, Copy, Default, PartialEq, Eq, Structural)]
pub enum ConnectProtocolEncoding {
    /// Binary protobuf request/response bodies are the default.
    #[default]
    ProtobufBinary,
}

/// Public RPC encoding posture for Connect-enabled apps.
#[derive(Debug, Clone, Copy, Default, PartialEq, Eq, Structural)]
pub enum ConnectPublicEncodingPolicy {
    /// Public RPC clients should prefer binary protobuf over JSON encodings.
    #[default]
    BinaryProtobufFirst,
}

/// JSON compatibility posture for Connect-enabled apps.
#[derive(Debug, Clone, Copy, Default, PartialEq, Eq, Structural)]
pub enum ConnectJsonCompatibilityPolicy {
    /// JSON is a reviewed compatibility/debug surface, not the default client path.
    #[default]
    CompatibilityOnlyByException,
}

/// Public error mapping posture for Connect adapters.
#[derive(Debug, Clone, Copy, Default, PartialEq, Eq, Structural)]
pub enum ConnectErrorMappingPolicy {
    /// App/internal errors must pass through typed public RPC error mapping.
    #[default]
    TypedPublicContractOnly,
}

/// Request/response envelope posture for Connect adapters.
#[derive(Debug, Clone, Copy, Default, PartialEq, Eq, Structural)]
pub enum ConnectRequestEnvelopePolicy {
    /// Requests and responses should map directly to protobuf messages.
    #[default]
    ProtoMessagesAreCanonical,
}

/// Deadline/timeout metadata posture.
#[derive(Debug, Clone, Copy, Default, PartialEq, Eq, Structural)]
pub enum ConnectDeadlineMetadataPolicy {
    /// Caller deadlines are respected within host/server maximums.
    #[default]
    RespectCallerDeadlineWithinHostMaximum,
}

/// Authentication metadata posture.
#[derive(Debug, Clone, Copy, Default, PartialEq, Eq, Structural)]
pub enum ConnectAuthMetadataPolicy {
    /// Auth metadata is extracted by adapters and must never be logged.
    #[default]
    ExtractAndRedact,
}

/// Idempotency metadata posture.
#[derive(Debug, Clone, Copy, Default, PartialEq, Eq, Structural)]
pub enum ConnectIdempotencyMetadataPolicy {
    /// Mutating RPCs may define reviewed idempotency metadata.
    #[default]
    ReviewedPerMethod,
}

/// API versioning posture for Connect services.
#[derive(Debug, Clone, Copy, Default, PartialEq, Eq, Structural)]
pub enum ConnectVersioningPolicy {
    /// Versioning is encoded in protobuf package names, e.g. `reallyme.api.v1`.
    #[default]
    VersionedProtoPackages,
}

/// Connect-Web compatibility posture.
#[derive(Debug, Clone, Copy, Default, PartialEq, Eq, Structural)]
pub enum ConnectWebCompatibilityPolicy {
    /// Connect-Web compatibility is allowed when it preserves the same protobuf contract.
    #[default]
    SameProtoContract,
}

/// Conventions for app-owned Connect RPC adapters.
#[derive(Debug, Clone, Copy, Default, PartialEq, Eq)]
pub struct ConnectAdapterConventions;

impl ConnectAdapterConventions {
    /// Returns the canonical schema source.
    pub fn schema_source(self) -> (r: ConnectSchemaSource)
        ensures
            r == ConnectSchemaSource::BufProtobuf,
    {
        ConnectSchemaSource::BufProtobuf
    }

    /// Returns the terminology boundary for protobuf `service` declarations.
    pub fn service_terminology(self) -> (r: ConnectServiceTerminologyPolicy)
        ensures
            r == ConnectServiceTerminologyPolicy::ProtoServiceIsAppOwnedRpcSurface,
    {
        ConnectServiceTerminologyPolicy::ProtoServiceIsAppOwnedRpcSurface
    }

    /// Returns the required Rust code-generation workflow.
    pub fn code_generation_workflow(self) -> (r: ConnectCodeGenerationWorkflow)
        ensures
            r == ConnectCodeGenerationWorkflow::BufGenerateBeforeRustChecks,
    {
        ConnectCodeGenerationWorkflow::BufGenerateBeforeRustChecks
    }

    /// Returns the runtime integration policy.
    pub fn runtime_integration(self) -> (r: ConnectRuntimeIntegrationPolicy)
        ensures
            r == ConnectRuntimeIntegrationPolicy::TowerNativeRouter,
    {
        ConnectRuntimeIntegrationPolicy::TowerNativeRouter
    }

    /// Returns the framework coupling policy.
    pub fn framework_policy(self) -> (r: ConnectFrameworkPolicy)
        ensures
            r == ConnectFrameworkPolicy::FrameworkAgnosticHandlers,
    {
        ConnectFrameworkPolicy::FrameworkAgnosticHandlers
    }

    /// Returns the default wire encoding.
    pub fn default_encoding(self) -> (r: ConnectProtocolEncoding)
        ensures
            r == ConnectProtocolEncoding::ProtobufBinary,
    {
        ConnectProtocolEncoding::ProtobufBinary
    }

    /// Returns the public RPC encoding posture.
    pub fn public_encoding_policy(self) -> (r: ConnectPublicEncodingPolicy)
        ensures
            r == ConnectPublicEncodingPolicy::BinaryProtobufFirst,
    {
        ConnectPublicEncodingPolicy::BinaryProtobufFirst
    }

    /// Returns the JSON compatibility posture.
    pub fn json_compatibility_policy(self) -> (r: ConnectJsonCompatibilityPolicy)
        ensures
            r == ConnectJsonCompatibilityPolicy::CompatibilityOnlyByException,
    {
        ConnectJsonCompatibilityPolicy::CompatibilityOnlyByException
    }

    /// Returns the public error mapping policy.
    pub fn error_mapping(self) -> (r: ConnectErrorMappingPolicy)
        ensures
            r == ConnectErrorMappingPolicy::TypedPublicContractOnly,
    {
        ConnectErrorMappingPolicy::TypedPublicContractOnly
    }

    /// Returns the request/response envelope policy.
    pub fn request_envelope(self) -> (r: ConnectRequestEnvelopePolicy)
        ensures
            r == ConnectRequestEnvelopePolicy::ProtoMessagesAreCanonical,
    {
        ConnectRequestEnvelopePolicy::ProtoMessagesAreCanonical
    }

    /// Returns the deadline/timeout metadata policy.
    pub fn deadline_metadata(self) -> (r: ConnectDeadlineMetadataPolicy)
        ensures
            r == ConnectDeadlineMetadataPolicy::RespectCallerDeadlineWithinHostMaximum,
    {
        ConnectDeadlineMetadataPolicy::RespectCallerDeadlineWithinHostMaximum
    }

    /// Returns the authentication metadata policy.
    pub fn auth_metadata(self) -> (r: ConnectAuthMetadataPolicy)
        ensures
            r == ConnectAuthMetadataPolicy::ExtractAndRedact,
    {
        ConnectAuthMetadataPolicy::ExtractAndRedact
    }

    /// Returns the idempotency metadata policy.
    pub fn idempotency_metadata(self) -> (r: ConnectIdempotencyMetadataPolicy)
        ensures
            r == ConnectIdempotencyMetadataPolicy::ReviewedPerMethod,
    {
        ConnectIdempotencyMetadataPolicy::ReviewedPerMethod
    }

    /// Returns the versioning policy.
    pub fn versioning(self) -> (r: ConnectVersioningPolicy)
        ensures
            r == ConnectVersioningPolicy::VersionedProtoPackages,
    {
        ConnectVersioningPolicy::VersionedProtoPackages
    }

    /// Returns the Connect-Web compatibility policy.
    pub fn connect_web_compatibility(self) -> (r: ConnectWebCompatibilityPolicy)
        ensures
            r == ConnectWebCompatibilityPolicy::SameProtoContract,
    {
        ConnectWebCompatibilityPolicy::SameProtoContract
    }

    /// Returns whether app Connect adapters should start listeners.
    pub fn app_starts_listener(self) -> (r: bool)
        ensures
            r == false,
    {
        false
    }

    /// Returns whether HTTP/JSON is the canonical app contract.
    pub fn http_json_is_canonical(self) -> (r: bool)
        ensures
            r == false,
    {
        false
    }
}


/// Host-neutral policy surface for app-owned gRPC adapters. These constants
/// are documentation-only and do not alter host lifecycle behavior.
#[derive(Debug, Clone, Copy, PartialEq, Eq)]
pub struct GrpcAdapterConventions;

impl GrpcAdapterConventions {
    /// App adapters should not start listeners.
    pub const APP_STARTS_LISTENER: bool = false;
    /// App adapters should not own reflection policy.
    pub const APP_OWNS_REFLECTION_POLICY: bool = false;
    /// App adapters should not expose internal errors.
    pub const APP_EXPOSES_INTERNAL_ERRORS: bool = false;
}

/// Host-neutral policy surface for server-host adapters. Runtime ownership
/// remains with the host.
#[derive(Debug, Clone, Copy, PartialEq, Eq)]
pub struct ServerAdapterConventions;

impl ServerAdapterConventions {
    /// App server adapters should not own process lifecycle.
    pub const APP_OWNS_PROCESS_LIFECYCLE: bool = false;
}

/// Host-neutral policy surface for Workers adapters. These constants document
/// compile-time adapter intent and do not alter runtime.
#[derive(Debug, Clone, Copy, PartialEq, Eq)]
pub struct WorkersAdapterConventions;

impl WorkersAdapterConventions {
    /// Workers adapters should not fork product behavior.
    pub const FORKS_PRODUCT_BEHAVIOR: bool = false;
    /// Workers adapters should reuse host-neutral app core.
    pub const REUSES_APP_CORE: bool = true;
    /// Workers adapters should not own process lifecycle.
    pub const OWNS_PROCESS_LIFECYCLE: bool = false;
    /// Workers hosts should compile for Wasm.
    pub const REQUIRES_WASM32_UNKNOWN_UNKNOWN: bool = true;
    /// Local development should use Wrangler.
    pub const USES_WRANGLER_DEV: bool = true;
    /// app-kit should not depend directly on workers-rs.
    pub const APP_KIT_DEPENDS_ON_WORKERS_RS: bool = false;

    /// Returns whether Workers adapters should fork product behavior.
    pub fn forks_product_behavior(self) -> (r: bool)
        ensures
            r == Self::FORKS_PRODUCT_BEHAVIOR,
    {
        Self::FORKS_PRODUCT_BEHAVIOR
    }

    /// Returns whether Workers adapters should reuse host-neutral app core.
    pub fn reuses_app_core(self) -> (r: bool)
        ensures
            r == Self::REUSES_APP_CORE,
    {
        Self::REUSES_APP_CORE
    }

    /// Returns whether Workers adapters own native server-process lifecycle.
    pub fn owns_process_lifecycle(self) -> (r: bool)
        ensures
            r == Self::OWNS_PROCESS_LIFECYCLE,
    {
        Self::OWNS_PROCESS_LIFECYCLE
    }

    /// Returns whether a concrete Worker host should compile for Wasm.
    pub fn requires_wasm32_unknown_unknown(self) -> (r: bool)
        ensures
            r == Self::REQUIRES_WASM32_UNKNOWN_UNKNOWN,
    {
        Self::REQUIRES_WASM32_UNKNOWN_UNKNOWN
    }

    /// Returns whether local development should use Wrangler.
    pub fn uses_wrangler_dev(self) -> (r: bool)
        ensures
            r == Self::USES_WRANGLER_DEV,
    {
        Self::USES_WRANGLER_DEV
    }

    /// Returns whether app-kit should depend on workers-rs.
    pub fn app_kit_depends_on_workers_rs(self) -> (r: bool)
        ensures
            r == Self::APP_KIT_DEPENDS_ON_WORKERS_RS,
    {
        Self::APP_KIT_DEPENDS_ON_WORKERS_RS
    }
}

} // verus!
