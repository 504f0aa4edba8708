use mssf_core::settings::{
    combine_settings_with_overrides, get_required, FabricClientSettings,
};

fn fully_set_record() -> FabricClientSettings {
    FabricClientSettings {
        PartitionLocationCacheLimit: Some(100),
        ServiceChangePollIntervalInSeconds: Some(30),
        ConnectionInitializationTimeoutInSeconds: Some(60),
        KeepAliveIntervalInSeconds: Some(0),
        HealthOperationTimeoutInSeconds: Some(120),
        HealthReportSendIntervalInSeconds: Some(0),
        ClientFriendlyName: Some(String::from("client-one")),
        PartitionLocationCacheBucketCount: Some(1024),
        HealthReportRetrySendIntervalInSeconds: Some(30),
        NotificationGatewayConnectionTimeoutInSeconds: Some(30),
        NotificationCacheUpdateTimeoutInSeconds: Some(30),
        AuthTokenBufferSize: Some(4096),
        AllowHealthReportCleanup: Some(true),
        HealthReportDropTransientReportTtlThresholdInSeconds: Some(90),
    }
}

#[test]
fn merge_with_all_unset_overlay_keeps_the_base() {
    let base = fully_set_record();
    let overlay = FabricClientSettings::default();
    let merged = combine_settings_with_overrides(base.clone(), overlay);
    assert_eq!(merged, base);
}

#[test]
fn merge_with_fully_set_overlay_is_the_overlay() {
    let mut base = fully_set_record();
    base.PartitionLocationCacheLimit = Some(7);
    base.ClientFriendlyName = Some(String::from("old-name"));
    let mut overlay = fully_set_record();
    overlay.PartitionLocationCacheLimit = Some(9);
    overlay.ClientFriendlyName = Some(String::from("new-name"));
    let merged = combine_settings_with_overrides(base, overlay.clone());
    assert_eq!(merged, overlay);
}

#[test]
fn merge_is_field_wise() {
    let mut base = FabricClientSettings::default();
    base.PartitionLocationCacheLimit = Some(50);
    base.ClientFriendlyName = Some(String::from("svc-a"));
    let mut overlay = FabricClientSettings::default();
    overlay.PartitionLocationCacheLimit = Some(10);
    let merged = combine_settings_with_overrides(base, overlay);
    assert_eq!(merged.PartitionLocationCacheLimit, Some(10));
    assert_eq!(merged.ClientFriendlyName, Some(String::from("svc-a")));
    assert_eq!(merged.AuthTokenBufferSize, None);
}

#[test]
fn default_record_inherits_everything() {
    let unset = FabricClientSettings::default();
    assert_eq!(unset, FabricClientSettings::default());
    assert_eq!(unset.PartitionLocationCacheLimit, None);
    assert_eq!(unset.ClientFriendlyName, None);
    assert_eq!(unset.AllowHealthReportCleanup, None);
}

#[test]
fn get_required_returns_the_present_value() {
    let val: Option<u32> = Some(4096);
    assert_eq!(get_required(&val), 4096);
}
