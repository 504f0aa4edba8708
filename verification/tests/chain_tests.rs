use mssf_core::chain::{
    decode, encode, merge_and_encode, BaseChainSegment, ChainViolation, Ex1ChainSegment,
    Ex2ChainSegment, Ex3ChainSegment, Ex4ChainSegment, SettingField, SettingsChain,
};
use mssf_core::settings::FabricClientSettings;

fn full_chain() -> SettingsChain {
    SettingsChain {
        base: BaseChainSegment {
            PartitionLocationCacheLimit: 50,
            ServiceChangePollIntervalInSeconds: 30,
            ConnectionInitializationTimeoutInSeconds: 60,
            KeepAliveIntervalInSeconds: 0,
            HealthOperationTimeoutInSeconds: 120,
            HealthReportSendIntervalInSeconds: 0,
        },
        ex1: Some(Ex1ChainSegment {
            ClientFriendlyName: Some(String::from("svc-a")),
            PartitionLocationCacheBucketCount: 1024,
            HealthReportRetrySendIntervalInSeconds: 30,
        }),
        ex2: Some(Ex2ChainSegment {
            NotificationGatewayConnectionTimeoutInSeconds: 30,
            NotificationCacheUpdateTimeoutInSeconds: 30,
        }),
        ex3: Some(Ex3ChainSegment { AuthTokenBufferSize: 4096 }),
        ex4: Some(Ex4ChainSegment { ConnectionIdleTimeoutInSeconds: 0 }),
    }
}

fn chain_borne_record() -> FabricClientSettings {
    FabricClientSettings {
        PartitionLocationCacheLimit: Some(50),
        ServiceChangePollIntervalInSeconds: Some(30),
        ConnectionInitializationTimeoutInSeconds: Some(60),
        KeepAliveIntervalInSeconds: Some(0),
        HealthOperationTimeoutInSeconds: Some(120),
        HealthReportSendIntervalInSeconds: Some(0),
        ClientFriendlyName: Some(String::from("svc-a")),
        PartitionLocationCacheBucketCount: Some(1024),
        HealthReportRetrySendIntervalInSeconds: Some(30),
        NotificationGatewayConnectionTimeoutInSeconds: Some(30),
        NotificationCacheUpdateTimeoutInSeconds: Some(30),
        AuthTokenBufferSize: Some(4096),
        AllowHealthReportCleanup: None,
        HealthReportDropTransientReportTtlThresholdInSeconds: None,
    }
}

#[test]
fn round_trip_reproduces_a_fully_populated_record() {
    let record = chain_borne_record();
    let chain = encode(&record).expect("every required field is set");
    let decoded = decode(&chain).expect("an encoded chain is well-formed");
    assert_eq!(decoded, record);
}

#[test]
fn decode_reads_every_segment_into_the_record() {
    let decoded = decode(&full_chain()).expect("the chain is well-formed");
    assert_eq!(decoded, chain_borne_record());
}

#[test]
fn decode_reads_a_null_name_as_the_empty_name() {
    let mut chain = full_chain();
    chain.ex1.as_mut().unwrap().ClientFriendlyName = None;
    let decoded = decode(&chain).expect("the chain is well-formed");
    assert_eq!(decoded.ClientFriendlyName, Some(String::new()));
}

#[test]
fn decode_rejects_a_truncated_chain_as_a_protocol_violation() {
    // The third segment's successor pointer is null although deeper
    // segments are expected: this must surface as a fatal protocol
    // violation naming the absent segment, never as silent truncation.
    let mut chain = full_chain();
    chain.ex3 = None;
    chain.ex4 = None;
    let violation = decode(&chain).expect_err("a truncated chain is a protocol violation");
    assert_eq!(violation, ChainViolation::MissingSegment { depth: 3 });
}

#[test]
fn decode_rejects_a_zero_required_field_naming_it() {
    let mut chain = full_chain();
    chain.ex1.as_mut().unwrap().HealthReportRetrySendIntervalInSeconds = 0;
    let violation = decode(&chain).expect_err("a zero required field is a protocol violation");
    assert_eq!(
        violation,
        ChainViolation::ZeroRequiredField {
            field: SettingField::HealthReportRetrySendIntervalInSeconds
        }
    );
}

#[test]
fn overlay_overrides_one_field_and_inherits_the_rest() {
    // Effective settings carry PartitionLocationCacheLimit = 50 and the
    // name "svc-a"; the overlay sets only PartitionLocationCacheLimit = 10.
    let effective = decode(&full_chain()).expect("the chain is well-formed");
    let mut overlay = FabricClientSettings::default();
    overlay.PartitionLocationCacheLimit = Some(10);
    let chain = merge_and_encode(effective, overlay).expect("all required fields are effective");
    let reread = decode(&chain).expect("an encoded chain is well-formed");
    assert_eq!(reread.PartitionLocationCacheLimit, Some(10));
    assert_eq!(reread.ClientFriendlyName, Some(String::from("svc-a")));
    assert_eq!(reread.AuthTokenBufferSize, Some(4096));
}

#[test]
fn all_unset_overlay_writes_the_effective_settings_unchanged() {
    let effective = decode(&full_chain()).expect("the chain is well-formed");
    let chain = merge_and_encode(effective.clone(), FabricClientSettings::default())
        .expect("all required fields are effective");
    let reread = decode(&chain).expect("an encoded chain is well-formed");
    assert_eq!(reread, effective);
}

#[test]
fn missing_required_field_is_reported_by_name_before_any_write() {
    // AuthTokenBufferSize is set neither in the effective settings nor in
    // the overlay: the error names it, and no chain for a write call is
    // ever produced.
    let mut effective = chain_borne_record();
    effective.AuthTokenBufferSize = None;
    let overlay = FabricClientSettings::default();
    let missing = merge_and_encode(effective, overlay)
        .expect_err("a required field is set on neither side");
    assert_eq!(missing, SettingField::AuthTokenBufferSize);
}

#[test]
fn encode_accepts_a_record_without_a_name() {
    let mut record = chain_borne_record();
    record.ClientFriendlyName = None;
    let chain = encode(&record).expect("the name is the one optional field");
    assert_eq!(chain.ex1.unwrap().ClientFriendlyName, None);
}

#[test]
fn encode_writes_the_deprecated_idle_timeout_as_zero() {
    let chain = encode(&chain_borne_record()).expect("every required field is set");
    assert_eq!(chain.ex4.unwrap().ConnectionIdleTimeoutInSeconds, 0);
}
