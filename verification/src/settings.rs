use vstd::prelude::*;

verus! {

/// Flat, owned record of the client settings.
///
/// Each field is logically independent and optional: `None` means "inherit
/// the previously effective value". Field names and grouping follow the
/// native chain layout (the root structure and its numbered extensions),
/// not Rust conventions. String data is deep-copied into an owned buffer at
/// the boundary, so a record holds no native resources.
///
/// Several numeric fields are rejected as zero by the native side; a
/// well-formed record ([`FabricClientSettings::wf`]) never carries an
/// explicit zero for those.
#[allow(non_snake_case)]
#[derive(Clone, Debug)]
pub struct FabricClientSettings {
    // Root structure
    pub PartitionLocationCacheLimit: Option<u32>,
    pub ServiceChangePollIntervalInSeconds: Option<u32>,
    pub ConnectionInitializationTimeoutInSeconds: Option<u32>,
    pub KeepAliveIntervalInSeconds: Option<u32>,
    pub HealthOperationTimeoutInSeconds: Option<u32>,
    pub HealthReportSendIntervalInSeconds: Option<u32>,
    // First extension
    pub ClientFriendlyName: Option<String>,
    pub PartitionLocationCacheBucketCount: Option<u32>,
    pub HealthReportRetrySendIntervalInSeconds: Option<u32>,
    // Second extension
    pub NotificationGatewayConnectionTimeoutInSeconds: Option<u32>,
    pub NotificationCacheUpdateTimeoutInSeconds: Option<u32>,
    // Third extension
    pub AuthTokenBufferSize: Option<u32>,
    // Fifth extension (not yet decodable from the native chain)
    pub AllowHealthReportCleanup: Option<bool>,
    pub HealthReportDropTransientReportTtlThresholdInSeconds: Option<u32>,
}

/// The record with every field left unset: it inherits everything.
pub open spec fn unset_record() -> FabricClientSettings {
    FabricClientSettings {
        PartitionLocationCacheLimit: None,
        ServiceChangePollIntervalInSeconds: None,
        ConnectionInitializationTimeoutInSeconds: None,
        KeepAliveIntervalInSeconds: None,
        HealthOperationTimeoutInSeconds: None,
        HealthReportSendIntervalInSeconds: None,
        ClientFriendlyName: None,
        PartitionLocationCacheBucketCount: None,
        HealthReportRetrySendIntervalInSeconds: None,
        NotificationGatewayConnectionTimeoutInSeconds: None,
        NotificationCacheUpdateTimeoutInSeconds: None,
        AuthTokenBufferSize: None,
        AllowHealthReportCleanup: None,
        HealthReportDropTransientReportTtlThresholdInSeconds: None,
    }
}

impl FabricClientSettings {
    /// The fields that the native side requires to be non-zero carry no
    /// explicit zero.
    pub open spec fn wf(&self) -> bool {
        &&& (self.PartitionLocationCacheLimit matches Some(v) ==> v != 0)
        &&& (self.ServiceChangePollIntervalInSeconds matches Some(v) ==> v != 0)
        &&& (self.ConnectionInitializationTimeoutInSeconds matches Some(v) ==> v != 0)
        &&& (self.HealthOperationTimeoutInSeconds matches Some(v) ==> v != 0)
        &&& (self.HealthReportRetrySendIntervalInSeconds matches Some(v) ==> v != 0)
        &&& (self.NotificationGatewayConnectionTimeoutInSeconds matches Some(v) ==> v != 0)
        &&& (self.NotificationCacheUpdateTimeoutInSeconds matches Some(v) ==> v != 0)
    }

    /// Every field carries an explicit value.
    pub open spec fn fully_set(&self) -> bool {
        &&& self.PartitionLocationCacheLimit is Some
        &&& self.ServiceChangePollIntervalInSeconds is Some
        &&& self.ConnectionInitializationTimeoutInSeconds is Some
        &&& self.KeepAliveIntervalInSeconds is Some
        &&& self.HealthOperationTimeoutInSeconds is Some
        &&& self.HealthReportSendIntervalInSeconds is Some
        &&& self.ClientFriendlyName is Some
        &&& self.PartitionLocationCacheBucketCount is Some
        &&& self.HealthReportRetrySendIntervalInSeconds is Some
        &&& self.NotificationGatewayConnectionTimeoutInSeconds is Some
        &&& self.NotificationCacheUpdateTimeoutInSeconds is Some
        &&& self.AuthTokenBufferSize is Some
        &&& self.AllowHealthReportCleanup is Some
        &&& self.HealthReportDropTransientReportTtlThresholdInSeconds is Some
    }
}

impl PartialEq for FabricClientSettings {
    /// Two records are equal when every field agrees, the name character
    /// for character.
    fn eq(&self, other: &Self) -> (r: bool) {
        let names_equal = match (&self.ClientFriendlyName, &other.ClientFriendlyName) {
            (Some(a), Some(b)) => *a == *b,
            (None, None) => true,
            _ => false,
        };
        names_equal && self.PartitionLocationCacheLimit == other.PartitionLocationCacheLimit
            && self.ServiceChangePollIntervalInSeconds
            == other.ServiceChangePollIntervalInSeconds
            && self.ConnectionInitializationTimeoutInSeconds
            == other.ConnectionInitializationTimeoutInSeconds
            && self.KeepAliveIntervalInSeconds == other.KeepAliveIntervalInSeconds
            && self.HealthOperationTimeoutInSeconds == other.HealthOperationTimeoutInSeconds
            && self.HealthReportSendIntervalInSeconds == other.HealthReportSendIntervalInSeconds
            && self.PartitionLocationCacheBucketCount == other.PartitionLocationCacheBucketCount
            && self.HealthReportRetrySendIntervalInSeconds
            == other.HealthReportRetrySendIntervalInSeconds
            && self.NotificationGatewayConnectionTimeoutInSeconds
            == other.NotificationGatewayConnectionTimeoutInSeconds
            && self.NotificationCacheUpdateTimeoutInSeconds
            == other.NotificationCacheUpdateTimeoutInSeconds
            && self.AuthTokenBufferSize == other.AuthTokenBufferSize
            && self.AllowHealthReportCleanup == other.AllowHealthReportCleanup
            && self.HealthReportDropTransientReportTtlThresholdInSeconds
            == other.HealthReportDropTransientReportTtlThresholdInSeconds
    }
}

impl vstd::std_specs::cmp::PartialEqSpecImpl for FabricClientSettings {
    open spec fn obeys_eq_spec() -> bool {
        true
    }

    open spec fn eq_spec(&self, other: &Self) -> bool {
        &&& self.PartitionLocationCacheLimit == other.PartitionLocationCacheLimit
        &&& self.ServiceChangePollIntervalInSeconds == other.ServiceChangePollIntervalInSeconds
        &&& self.ConnectionInitializationTimeoutInSeconds
            == other.ConnectionInitializationTimeoutInSeconds
        &&& self.KeepAliveIntervalInSeconds == other.KeepAliveIntervalInSeconds
        &&& self.HealthOperationTimeoutInSeconds == other.HealthOperationTimeoutInSeconds
        &&& self.HealthReportSendIntervalInSeconds == other.HealthReportSendIntervalInSeconds
        &&& self.ClientFriendlyName.deep_view() == other.ClientFriendlyName.deep_view()
        &&& self.PartitionLocationCacheBucketCount == other.PartitionLocationCacheBucketCount
        &&& self.HealthReportRetrySendIntervalInSeconds
            == other.HealthReportRetrySendIntervalInSeconds
        &&& self.NotificationGatewayConnectionTimeoutInSeconds
            == other.NotificationGatewayConnectionTimeoutInSeconds
        &&& self.NotificationCacheUpdateTimeoutInSeconds
            == other.NotificationCacheUpdateTimeoutInSeconds
        &&& self.AuthTokenBufferSize == other.AuthTokenBufferSize
        &&& self.AllowHealthReportCleanup == other.AllowHealthReportCleanup
        &&& self.HealthReportDropTransientReportTtlThresholdInSeconds
            == other.HealthReportDropTransientReportTtlThresholdInSeconds
    }
}

impl Default for FabricClientSettings {
    /// The all-unset record.
    fn default() -> (r: Self)
        ensures
            r == unset_record(),
    {
        FabricClientSettings {
            PartitionLocationCacheLimit: None,
            ServiceChangePollIntervalInSeconds: None,
            ConnectionInitializationTimeoutInSeconds: None,
            KeepAliveIntervalInSeconds: None,
            HealthOperationTimeoutInSeconds: None,
            HealthReportSendIntervalInSeconds: None,
            ClientFriendlyName: None,
            PartitionLocationCacheBucketCount: None,
            HealthReportRetrySendIntervalInSeconds: None,
            NotificationGatewayConnectionTimeoutInSeconds: None,
            NotificationCacheUpdateTimeoutInSeconds: None,
            AuthTokenBufferSize: None,
            AllowHealthReportCleanup: None,
            HealthReportDropTransientReportTtlThresholdInSeconds: None,
        }
    }
}

/// Pick the overlay's value where it carries one, the base value otherwise.
pub open spec fn merge_field<T>(base: Option<T>, overlay: Option<T>) -> Option<T> {
    if overlay is Some {
        overlay
    } else {
        base
    }
}

/// The field-wise merge of an overlay record over a base record: for every
/// field, an explicitly set overlay value wins, and a field the overlay
/// leaves unset keeps the base (previously effective) value.
pub open spec fn merge_record(
    base: FabricClientSettings,
    overlay: FabricClientSettings,
) -> FabricClientSettings {
    FabricClientSettings {
        PartitionLocationCacheLimit: merge_field(
            base.PartitionLocationCacheLimit,
            overlay.PartitionLocationCacheLimit,
        ),
        ServiceChangePollIntervalInSeconds: merge_field(
            base.ServiceChangePollIntervalInSeconds,
            overlay.ServiceChangePollIntervalInSeconds,
        ),
        ConnectionInitializationTimeoutInSeconds: merge_field(
            base.ConnectionInitializationTimeoutInSeconds,
            overlay.ConnectionInitializationTimeoutInSeconds,
        ),
        KeepAliveIntervalInSeconds: merge_field(
            base.KeepAliveIntervalInSeconds,
            overlay.KeepAliveIntervalInSeconds,
        ),
        HealthOperationTimeoutInSeconds: merge_field(
            base.HealthOperationTimeoutInSeconds,
            overlay.HealthOperationTimeoutInSeconds,
        ),
        HealthReportSendIntervalInSeconds: merge_field(
            base.HealthReportSendIntervalInSeconds,
            overlay.HealthReportSendIntervalInSeconds,
        ),
        ClientFriendlyName: merge_field(base.ClientFriendlyName, overlay.ClientFriendlyName),
        PartitionLocationCacheBucketCount: merge_field(
            base.PartitionLocationCacheBucketCount,
            overlay.PartitionLocationCacheBucketCount,
        ),
        HealthReportRetrySendIntervalInSeconds: merge_field(
            base.HealthReportRetrySendIntervalInSeconds,
            overlay.HealthReportRetrySendIntervalInSeconds,
        ),
        NotificationGatewayConnectionTimeoutInSeconds: merge_field(
            base.NotificationGatewayConnectionTimeoutInSeconds,
            overlay.NotificationGatewayConnectionTimeoutInSeconds,
        ),
        NotificationCacheUpdateTimeoutInSeconds: merge_field(
            base.NotificationCacheUpdateTimeoutInSeconds,
            overlay.NotificationCacheUpdateTimeoutInSeconds,
        ),
        AuthTokenBufferSize: merge_field(base.AuthTokenBufferSize, overlay.AuthTokenBufferSize),
        AllowHealthReportCleanup: merge_field(
            base.AllowHealthReportCleanup,
            overlay.AllowHealthReportCleanup,
        ),
        HealthReportDropTransientReportTtlThresholdInSeconds: merge_field(
            base.HealthReportDropTransientReportTtlThresholdInSeconds,
            overlay.HealthReportDropTransientReportTtlThresholdInSeconds,
        ),
    }
}

/// One field of the merge: the overlay value wins if set, the base value is
/// used otherwise.
fn merge_pair<T>(base: Option<T>, overlay: Option<T>) -> (r: Option<T>)
    ensures
        r == merge_field(base, overlay),
{
    match overlay {
        Some(v) => Some(v),
        None => base,
    }
}

/// Combine explicitly provided settings with the currently effective
/// settings: the overlay's explicitly set fields win, every other field
/// keeps the base value.
pub fn combine_settings_with_overrides(
    base_client_settings: FabricClientSettings,
    overlay_client_settings: FabricClientSettings,
) -> (r: FabricClientSettings)
    ensures
        r == merge_record(base_client_settings, overlay_client_settings),
{
    FabricClientSettings {
        PartitionLocationCacheLimit: merge_pair(
            base_client_settings.PartitionLocationCacheLimit,
            overlay_client_settings.PartitionLocationCacheLimit,
        ),
        ServiceChangePollIntervalInSeconds: merge_pair(
            base_client_settings.ServiceChangePollIntervalInSeconds,
            overlay_client_settings.ServiceChangePollIntervalInSeconds,
        ),
        ConnectionInitializationTimeoutInSeconds: merge_pair(
            base_client_settings.ConnectionInitializationTimeoutInSeconds,
            overlay_client_settings.ConnectionInitializationTimeoutInSeconds,
        ),
        KeepAliveIntervalInSeconds: merge_pair(
            base_client_settings.KeepAliveIntervalInSeconds,
            overlay_client_settings.KeepAliveIntervalInSeconds,
        ),
        HealthOperationTimeoutInSeconds: merge_pair(
            base_client_settings.HealthOperationTimeoutInSeconds,
            overlay_client_settings.HealthOperationTimeoutInSeconds,
        ),
        HealthReportSendIntervalInSeconds: merge_pair(
            base_client_settings.HealthReportSendIntervalInSeconds,
            overlay_client_settings.HealthReportSendIntervalInSeconds,
        ),
        ClientFriendlyName: merge_pair(
            base_client_settings.ClientFriendlyName,
            overlay_client_settings.ClientFriendlyName,
        ),
        PartitionLocationCacheBucketCount: merge_pair(
            base_client_settings.PartitionLocationCacheBucketCount,
            overlay_client_settings.PartitionLocationCacheBucketCount,
        ),
        HealthReportRetrySendIntervalInSeconds: merge_pair(
            base_client_settings.HealthReportRetrySendIntervalInSeconds,
            overlay_client_settings.HealthReportRetrySendIntervalInSeconds,
        ),
        NotificationGatewayConnectionTimeoutInSeconds: merge_pair(
            base_client_settings.NotificationGatewayConnectionTimeoutInSeconds,
            overlay_client_settings.NotificationGatewayConnectionTimeoutInSeconds,
        ),
        NotificationCacheUpdateTimeoutInSeconds: merge_pair(
            base_client_settings.NotificationCacheUpdateTimeoutInSeconds,
            overlay_client_settings.NotificationCacheUpdateTimeoutInSeconds,
        ),
        AuthTokenBufferSize: merge_pair(
            base_client_settings.AuthTokenBufferSize,
            overlay_client_settings.AuthTokenBufferSize,
        ),
        AllowHealthReportCleanup: merge_pair(
            base_client_settings.AllowHealthReportCleanup,
            overlay_client_settings.AllowHealthReportCleanup,
        ),
        HealthReportDropTransientReportTtlThresholdInSeconds: merge_pair(
            base_client_settings.HealthReportDropTransientReportTtlThresholdInSeconds,
            overlay_client_settings.HealthReportDropTransientReportTtlThresholdInSeconds,
        ),
    }
}

/// Get a required setting's value. The native write call treats the field
/// as mandatory, so callers resolve absence into a named error before
/// reaching this point.
pub fn get_required<T: Copy>(val: &Option<T>) -> (r: T)
    requires
        val is Some,
    ensures
        *val == Some(r),
{
    match val {
        Some(v) => *v,
        None => vstd::pervasive::unreached(),
    }
}

/// Law (merge identity): an overlay with every field unset leaves the
/// effective settings exactly as they were.
pub proof fn lemma_merge_all_unset_is_identity(base: FabricClientSettings)
    ensures
        merge_record(base, unset_record()) == base,
{
}

/// Law (overlay wins): an overlay with every field explicitly set replaces
/// the effective settings entirely, whatever they were before.
pub proof fn lemma_merge_fully_set_is_overlay(
    base: FabricClientSettings,
    overlay: FabricClientSettings,
)
    requires
        overlay.fully_set(),
    ensures
        merge_record(base, overlay) == overlay,
{
}

/// A merge of well-formed records is well-formed: every merged field value
/// stems from one of the two records.
pub proof fn lemma_merge_preserves_wf(base: FabricClientSettings, overlay: FabricClientSettings)
    requires
        base.wf(),
        overlay.wf(),
    ensures
        merge_record(base, overlay).wf(),
{
}

} // verus!
