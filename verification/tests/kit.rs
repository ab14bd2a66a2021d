use hephaestus::kit::adapters::{
    ConnectAdapterConventions, ConnectAuthMetadataPolicy, ConnectCodeGenerationWorkflow,
    ConnectDeadlineMetadataPolicy, ConnectErrorMappingPolicy, ConnectFrameworkPolicy,
    ConnectIdempotencyMetadataPolicy, ConnectJsonCompatibilityPolicy, ConnectProtocolEncoding,
    ConnectPublicEncodingPolicy, ConnectRequestEnvelopePolicy, ConnectRuntimeIntegrationPolicy,
    ConnectSchemaSource, ConnectServiceTerminologyPolicy, ConnectVersioningPolicy,
    ConnectWebCompatibilityPolicy,
};
use hephaestus::kit::jsonc::{strip_jsonc_comments, AppConfigParseErrorReason, MAX_APP_JSONC_BYTES};

#[test]
fn connect_is_buf_protobuf_binary_first() {
    assert_eq!(ConnectAdapterConventions.schema_source(), ConnectSchemaSource::BufProtobuf);
    assert_eq!(
        ConnectAdapterConventions.service_terminology(),
        ConnectServiceTerminologyPolicy::ProtoServiceIsAppOwnedRpcSurface
    );
    assert_eq!(
        ConnectAdapterConventions.code_generation_workflow(),
        ConnectCodeGenerationWorkflow::BufGenerateBeforeRustChecks
    );
    assert_eq!(
        ConnectAdapterConventions.runtime_integration(),
        ConnectRuntimeIntegrationPolicy::TowerNativeRouter
    );
    assert_eq!(
        ConnectAdapterConventions.framework_policy(),
        ConnectFrameworkPolicy::FrameworkAgnosticHandlers
    );
    assert_eq!(ConnectAdapterConventions.default_encoding(), ConnectProtocolEncoding::ProtobufBinary);
    assert_eq!(
        ConnectAdapterConventions.public_encoding_policy(),
        ConnectPublicEncodingPolicy::BinaryProtobufFirst
    );
    assert_eq!(
        ConnectAdapterConventions.json_compatibility_policy(),
        ConnectJsonCompatibilityPolicy::CompatibilityOnlyByException
    );
    assert!(!ConnectAdapterConventions.http_json_is_canonical());
}

#[test]
fn connect_adapter_conventions_keep_runtime_concerns_out_of_apps() {
    assert!(!ConnectAdapterConventions.app_starts_listener());
    assert_eq!(
        ConnectAdapterConventions.deadline_metadata(),
        ConnectDeadlineMetadataPolicy::RespectCallerDeadlineWithinHostMaximum
    );
    assert_eq!(ConnectAdapterConventions.auth_metadata(), ConnectAuthMetadataPolicy::ExtractAndRedact);
}

#[test]
fn connect_adapter_conventions_preserve_stable_contract_rules() {
    assert_eq!(ConnectAdapterConventions.error_mapping(), ConnectErrorMappingPolicy::TypedPublicContractOnly);
    assert_eq!(
        ConnectAdapterConventions.request_envelope(),
        ConnectRequestEnvelopePolicy::ProtoMessagesAreCanonical
    );
    assert_eq!(
        ConnectAdapterConventions.idempotency_metadata(),
        ConnectIdempotencyMetadataPolicy::ReviewedPerMethod
    );
    assert_eq!(ConnectAdapterConventions.versioning(), ConnectVersioningPolicy::VersionedProtoPackages);
    assert_eq!(
        ConnectAdapterConventions.connect_web_compatibility(),
        ConnectWebCompatibilityPolicy::SameProtoContract
    );
}

#[test]
fn rejects_unclosed_block_comment() {
    let result = strip_jsonc_comments("{ /* unclosed");

    assert!(matches!(
        result.map_err(|error| error.reason()),
        Err(AppConfigParseErrorReason::UnclosedComment)
    ));
}

#[test]
fn rejects_too_long_jsonc_input() {
    let oversized = "x".repeat(MAX_APP_JSONC_BYTES + 1);

    let result = strip_jsonc_comments(oversized.as_str());

    assert!(matches!(
        result.map_err(|error| error.reason()),
        Err(AppConfigParseErrorReason::TooLong)
    ));
}

#[test]
fn comment_stripper_itself_bounds_public_input() {
    assert!(strip_jsonc_comments(&" ".repeat(MAX_APP_JSONC_BYTES + 1)).is_err());
}
