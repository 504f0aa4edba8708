use vstd::prelude::*;

use crate::settings::{
    combine_settings_with_overrides, merge_record, FabricClientSettings,
};

verus! {

/// Scalar image of the root structure of the native settings chain.
#[allow(non_snake_case)]
#[derive(Clone, Copy, PartialEq, Eq, Structural, Debug)]
pub struct BaseChainSegment {
    pub PartitionLocationCacheLimit: u32,
    pub ServiceChangePollIntervalInSeconds: u32,
    pub ConnectionInitializationTimeoutInSeconds: u32,
    pub KeepAliveIntervalInSeconds: u32,
    pub HealthOperationTimeoutInSeconds: u32,
    pub HealthReportSendIntervalInSeconds: u32,
}

/// Image of the first extension. The name is deep-copied into an owned
/// buffer when the segment is read; `None` stands for a null name pointer,
/// which the native side treats as the empty name.
#[allow(non_snake_case)]
#[derive(Clone, Debug)]
pub struct Ex1ChainSegment {
    pub ClientFriendlyName: Option<String>,
    pub PartitionLocationCacheBucketCount: u32,
    pub HealthReportRetrySendIntervalInSeconds: u32,
}

/// Image of the second extension.
#[allow(non_snake_case)]
#[derive(Clone, Copy, PartialEq, Eq, Structural, Debug)]
pub struct Ex2ChainSegment {
    pub NotificationGatewayConnectionTimeoutInSeconds: u32,
    pub NotificationCacheUpdateTimeoutInSeconds: u32,
}

/// Image of the third extension.
#[allow(non_snake_case)]
#[derive(Clone, Copy, PartialEq, Eq, Structural, Debug)]
pub struct Ex3ChainSegment {
    pub AuthTokenBufferSize: u32,
}

/// Image of the fourth extension. Its only setting is deprecated and must
/// be written as zero.
#[allow(non_snake_case)]
#[derive(Clone, Copy, PartialEq, Eq, Structural, Debug)]
pub struct Ex4ChainSegment {
    pub ConnectionIdleTimeoutInSeconds: u32,
}

/// Owned image of the whole extension chain, segment by segment in chain
/// order. A `None` at some depth records that the successor pointer of the
/// previous segment was null, so that segment and all deeper ones are
/// absent. The native contract guarantees all segments up to the maximum
/// known depth exist, which [`decode`] enforces.
#[derive(Debug)]
pub struct SettingsChain {
    pub base: BaseChainSegment,
    pub ex1: Option<Ex1ChainSegment>,
    pub ex2: Option<Ex2ChainSegment>,
    pub ex3: Option<Ex3ChainSegment>,
    pub ex4: Option<Ex4ChainSegment>,
}

/// One settings field, by its place in the native chain layout.
#[allow(non_camel_case_types)]
#[derive(Clone, Copy, PartialEq, Eq, Structural, Debug)]
pub enum SettingField {
    PartitionLocationCacheLimit,
    ServiceChangePollIntervalInSeconds,
    ConnectionInitializationTimeoutInSeconds,
    KeepAliveIntervalInSeconds,
    HealthOperationTimeoutInSeconds,
    HealthReportSendIntervalInSeconds,
    ClientFriendlyName,
    PartitionLocationCacheBucketCount,
    HealthReportRetrySendIntervalInSeconds,
    NotificationGatewayConnectionTimeoutInSeconds,
    NotificationCacheUpdateTimeoutInSeconds,
    AuthTokenBufferSize,
    AllowHealthReportCleanup,
    HealthReportDropTransientReportTtlThresholdInSeconds,
}

/// A broken native contract invariant found while reading a chain. This is
/// not an ordinary failure: the native side or the adaptation layer is
/// defective, and callers must treat it as fatal rather than recover.
#[derive(Clone, Copy, PartialEq, Eq, Structural, Debug)]
pub enum ChainViolation {
    /// The segment at this depth (root = 0, first extension = 1, and so
    /// on) is absent although the contract guarantees it: its
    /// predecessor's successor pointer was null too early.
    MissingSegment { depth: u32 },
    /// A field the contract requires to be non-zero was read as zero.
    ZeroRequiredField { field: SettingField },
}

/// The first violation a reader walking the chain in order encounters:
/// the root's non-zero-required fields, then each extension's presence and
/// its non-zero-required fields, up to the maximum known depth.
pub open spec fn first_violation(c: SettingsChain) -> Option<ChainViolation> {
    if c.base.PartitionLocationCacheLimit == 0 {
        Some(
            ChainViolation::ZeroRequiredField {
                field: SettingField::PartitionLocationCacheLimit,
            },
        )
    } else if c.base.ServiceChangePollIntervalInSeconds == 0 {
        Some(
            ChainViolation::ZeroRequiredField {
                field: SettingField::ServiceChangePollIntervalInSeconds,
            },
        )
    } else if c.base.ConnectionInitializationTimeoutInSeconds == 0 {
        Some(
            ChainViolation::ZeroRequiredField {
                field: SettingField::ConnectionInitializationTimeoutInSeconds,
            },
        )
    } else if c.base.HealthOperationTimeoutInSeconds == 0 {
        Some(
            ChainViolation::ZeroRequiredField {
                field: SettingField::HealthOperationTimeoutInSeconds,
            },
        )
    } else if c.ex1 is None {
        Some(ChainViolation::MissingSegment { depth: 1 })
    } else if c.ex1->0.HealthReportRetrySendIntervalInSeconds == 0 {
        Some(
            ChainViolation::ZeroRequiredField {
                field: SettingField::HealthReportRetrySendIntervalInSeconds,
            },
        )
    } else if c.ex2 is None {
        Some(ChainViolation::MissingSegment { depth: 2 })
    } else if c.ex2->0.NotificationGatewayConnectionTimeoutInSeconds == 0 {
        Some(
            ChainViolation::ZeroRequiredField {
                field: SettingField::NotificationGatewayConnectionTimeoutInSeconds,
            },
        )
    } else if c.ex2->0.NotificationCacheUpdateTimeoutInSeconds == 0 {
        Some(
            ChainViolation::ZeroRequiredField {
                field: SettingField::NotificationCacheUpdateTimeoutInSeconds,
            },
        )
    } else if c.ex3 is None {
        Some(ChainViolation::MissingSegment { depth: 3 })
    } else if c.ex4 is None {
        Some(ChainViolation::MissingSegment { depth: 4 })
    } else {
        None
    }
}

/// The chain satisfies the native read contract: all segments up to the
/// maximum known depth are present and every non-zero-required field is
/// non-zero.
pub open spec fn chain_wf(c: SettingsChain) -> bool {
    &&& c.ex1 is Some
    &&& c.ex2 is Some
    &&& c.ex3 is Some
    &&& c.ex4 is Some
    &&& c.base.PartitionLocationCacheLimit != 0
    &&& c.base.ServiceChangePollIntervalInSeconds != 0
    &&& c.base.ConnectionInitializationTimeoutInSeconds != 0
    &&& c.base.HealthOperationTimeoutInSeconds != 0
    &&& c.ex1->0.HealthReportRetrySendIntervalInSeconds != 0
    &&& c.ex2->0.NotificationGatewayConnectionTimeoutInSeconds != 0
    &&& c.ex2->0.NotificationCacheUpdateTimeoutInSeconds != 0
}

/// A reader finds no violation exactly in the well-formed chains.
pub proof fn lemma_no_violation_iff_chain_wf(c: SettingsChain)
    ensures
        first_violation(c) is None <==> chain_wf(c),
{
}

/// The record a faithful read of a well-formed chain produces: every field
/// a segment carries becomes explicitly set, a null name reads as the empty
/// name, and fields of chain versions newer than the maximum known depth
/// are unconditionally unset.
pub open spec fn decoded_matches(c: SettingsChain, rec: FabricClientSettings) -> bool {
    &&& rec.PartitionLocationCacheLimit == Some(c.base.PartitionLocationCacheLimit)
    &&& rec.ServiceChangePollIntervalInSeconds == Some(c.base.ServiceChangePollIntervalInSeconds)
    &&& rec.ConnectionInitializationTimeoutInSeconds == Some(
        c.base.ConnectionInitializationTimeoutInSeconds,
    )
    &&& rec.KeepAliveIntervalInSeconds == Some(c.base.KeepAliveIntervalInSeconds)
    &&& rec.HealthOperationTimeoutInSeconds == Some(c.base.HealthOperationTimeoutInSeconds)
    &&& rec.HealthReportSendIntervalInSeconds == Some(c.base.HealthReportSendIntervalInSeconds)
    &&& (c.ex1->0.ClientFriendlyName matches Some(name) ==> rec.ClientFriendlyName == Some(name))
    &&& (c.ex1->0.ClientFriendlyName is None ==> (rec.ClientFriendlyName is Some
        && rec.ClientFriendlyName->0@ == Seq::<char>::empty()))
    &&& rec.PartitionLocationCacheBucketCount == Some(c.ex1->0.PartitionLocationCacheBucketCount)
    &&& rec.HealthReportRetrySendIntervalInSeconds == Some(
        c.ex1->0.HealthReportRetrySendIntervalInSeconds,
    )
    &&& rec.NotificationGatewayConnectionTimeoutInSeconds == Some(
        c.ex2->0.NotificationGatewayConnectionTimeoutInSeconds,
    )
    &&& rec.NotificationCacheUpdateTimeoutInSeconds == Some(
        c.ex2->0.NotificationCacheUpdateTimeoutInSeconds,
    )
    &&& rec.AuthTokenBufferSize == Some(c.ex3->0.AuthTokenBufferSize)
    &&& rec.AllowHealthReportCleanup is None
    &&& rec.HealthReportDropTransientReportTtlThresholdInSeconds is None
}

/// Reconstruct the flat owned record from the image of a settings chain.
///
/// Fails with the first broken chain invariant, naming the absent segment
/// or the zero field; such a failure is a protocol violation, not an
/// ordinary error. On success the record is well-formed and carries every
/// decodable field explicitly.
pub fn decode(chain: &SettingsChain) -> (r: Result<FabricClientSettings, ChainViolation>)
    ensures
        r is Ok <==> chain_wf(*chain),
        r matches Err(v) ==> Some(v) == first_violation(*chain),
        r matches Ok(rec) ==> decoded_matches(*chain, rec) && rec.wf(),
{
    if chain.base.PartitionLocationCacheLimit == 0 {
        return Err(
            ChainViolation::ZeroRequiredField { field: SettingField::PartitionLocationCacheLimit },
        );
    }
    if chain.base.ServiceChangePollIntervalInSeconds == 0 {
        return Err(
            ChainViolation::ZeroRequiredField {
                field: SettingField::ServiceChangePollIntervalInSeconds,
            },
        );
    }
    if chain.base.ConnectionInitializationTimeoutInSeconds == 0 {
        return Err(
            ChainViolation::ZeroRequiredField {
                field: SettingField::ConnectionInitializationTimeoutInSeconds,
            },
        );
    }
    if chain.base.HealthOperationTimeoutInSeconds == 0 {
        return Err(
            ChainViolation::ZeroRequiredField {
                field: SettingField::HealthOperationTimeoutInSeconds,
            },
        );
    }
    let ex1 = match &chain.ex1 {
        Some(seg) => seg,
        None => { return Err(ChainViolation::MissingSegment { depth: 1 }); },
    };
    if ex1.HealthReportRetrySendIntervalInSeconds == 0 {
        return Err(
            ChainViolation::ZeroRequiredField {
                field: SettingField::HealthReportRetrySendIntervalInSeconds,
            },
        );
    }
    let ex2 = match &chain.ex2 {
        Some(seg) => seg,
        None => { return Err(ChainViolation::MissingSegment { depth: 2 }); },
    };
    if ex2.NotificationGatewayConnectionTimeoutInSeconds == 0 {
        return Err(
            ChainViolation::ZeroRequiredField {
                field: SettingField::NotificationGatewayConnectionTimeoutInSeconds,
            },
        );
    }
    if ex2.NotificationCacheUpdateTimeoutInSeconds == 0 {
        return Err(
            ChainViolation::ZeroRequiredField {
                field: SettingField::NotificationCacheUpdateTimeoutInSeconds,
            },
        );
    }
    let ex3 = match &chain.ex3 {
        Some(seg) => seg,
        None => { return Err(ChainViolation::MissingSegment { depth: 3 }); },
    };
    if chain.ex4.is_none() {
        return Err(ChainViolation::MissingSegment { depth: 4 });
    }
    let client_friendly_name = match &ex1.ClientFriendlyName {
        Some(name) => name.clone(),
        None => String::new(),
    };
    Ok(
        FabricClientSettings {
            PartitionLocationCacheLimit: Some(chain.base.PartitionLocationCacheLimit),
            ServiceChangePollIntervalInSeconds: Some(chain.base.ServiceChangePollIntervalInSeconds),
            ConnectionInitializationTimeoutInSeconds: Some(
                chain.base.ConnectionInitializationTimeoutInSeconds,
            ),
            KeepAliveIntervalInSeconds: Some(chain.base.KeepAliveIntervalInSeconds),
            HealthOperationTimeoutInSeconds: Some(chain.base.HealthOperationTimeoutInSeconds),
            HealthReportSendIntervalInSeconds: Some(chain.base.HealthReportSendIntervalInSeconds),
            ClientFriendlyName: Some(client_friendly_name),
            PartitionLocationCacheBucketCount: Some(ex1.PartitionLocationCacheBucketCount),
            HealthReportRetrySendIntervalInSeconds: Some(
                ex1.HealthReportRetrySendIntervalInSeconds,
            ),
            NotificationGatewayConnectionTimeoutInSeconds: Some(
                ex2.NotificationGatewayConnectionTimeoutInSeconds,
            ),
            NotificationCacheUpdateTimeoutInSeconds: Some(
                ex2.NotificationCacheUpdateTimeoutInSeconds,
            ),
            AuthTokenBufferSize: Some(ex3.AuthTokenBufferSize),
            AllowHealthReportCleanup: None,
            HealthReportDropTransientReportTtlThresholdInSeconds: None,
        },
    )
}

/// The first field the native write call requires that the record leaves
/// unset, in the order the chain is built (deepest segment first, as the
/// chain is constructed bottom-up for the write).
pub open spec fn first_missing_required(s: FabricClientSettings) -> Option<SettingField> {
    if s.AuthTokenBufferSize is None {
        Some(SettingField::AuthTokenBufferSize)
    } else if s.NotificationGatewayConnectionTimeoutInSeconds is None {
        Some(SettingField::NotificationGatewayConnectionTimeoutInSeconds)
    } else if s.NotificationCacheUpdateTimeoutInSeconds is None {
        Some(SettingField::NotificationCacheUpdateTimeoutInSeconds)
    } else if s.PartitionLocationCacheBucketCount is None {
        Some(SettingField::PartitionLocationCacheBucketCount)
    } else if s.HealthReportRetrySendIntervalInSeconds is None {
        Some(SettingField::HealthReportRetrySendIntervalInSeconds)
    } else if s.PartitionLocationCacheLimit is None {
        Some(SettingField::PartitionLocationCacheLimit)
    } else if s.ServiceChangePollIntervalInSeconds is None {
        Some(SettingField::ServiceChangePollIntervalInSeconds)
    } else if s.ConnectionInitializationTimeoutInSeconds is None {
        Some(SettingField::ConnectionInitializationTimeoutInSeconds)
    } else if s.KeepAliveIntervalInSeconds is None {
        Some(SettingField::KeepAliveIntervalInSeconds)
    } else if s.HealthOperationTimeoutInSeconds is None {
        Some(SettingField::HealthOperationTimeoutInSeconds)
    } else if s.HealthReportSendIntervalInSeconds is None {
        Some(SettingField::HealthReportSendIntervalInSeconds)
    } else {
        None
    }
}

/// The chain image a faithful write of the record produces: every segment
/// present, each mandatory field carrying the record's value, the name
/// passed through as it stands (a record without a name writes a null name
/// pointer), and the deprecated fourth-extension setting written as zero.
pub open spec fn encoded_matches(s: FabricClientSettings, c: SettingsChain) -> bool {
    &&& c.ex1 is Some
    &&& c.ex2 is Some
    &&& c.ex3 is Some
    &&& c.ex4 is Some
    &&& Some(c.base.PartitionLocationCacheLimit) == s.PartitionLocationCacheLimit
    &&& Some(c.base.ServiceChangePollIntervalInSeconds) == s.ServiceChangePollIntervalInSeconds
    &&& Some(c.base.ConnectionInitializationTimeoutInSeconds)
        == s.ConnectionInitializationTimeoutInSeconds
    &&& Some(c.base.KeepAliveIntervalInSeconds) == s.KeepAliveIntervalInSeconds
    &&& Some(c.base.HealthOperationTimeoutInSeconds) == s.HealthOperationTimeoutInSeconds
    &&& Some(c.base.HealthReportSendIntervalInSeconds) == s.HealthReportSendIntervalInSeconds
    &&& c.ex1->0.ClientFriendlyName == s.ClientFriendlyName
    &&& Some(c.ex1->0.PartitionLocationCacheBucketCount) == s.PartitionLocationCacheBucketCount
    &&& Some(c.ex1->0.HealthReportRetrySendIntervalInSeconds)
        == s.HealthReportRetrySendIntervalInSeconds
    &&& Some(c.ex2->0.NotificationGatewayConnectionTimeoutInSeconds)
        == s.NotificationGatewayConnectionTimeoutInSeconds
    &&& Some(c.ex2->0.NotificationCacheUpdateTimeoutInSeconds)
        == s.NotificationCacheUpdateTimeoutInSeconds
    &&& Some(c.ex3->0.AuthTokenBufferSize) == s.AuthTokenBufferSize
    &&& c.ex4->0.ConnectionIdleTimeoutInSeconds == 0
}

/// Serialize a resolved record into the image of a full settings chain for
/// one native write.
///
/// Every field the write call treats as mandatory must carry a value; the
/// first one that does not is reported by name, before any chain is
/// produced. The name field is the one optional field: a record without it
/// writes a null name pointer, which the native side reads as the empty
/// name.
pub fn encode(settings: &FabricClientSettings) -> (r: Result<SettingsChain, SettingField>)
    ensures
        r is Ok <==> first_missing_required(*settings) is None,
        r matches Err(f) ==> Some(f) == first_missing_required(*settings),
        r matches Ok(c) ==> encoded_matches(*settings, c),
{
    let auth_token_buffer_size = match settings.AuthTokenBufferSize {
        Some(v) => v,
        None => { return Err(SettingField::AuthTokenBufferSize); },
    };
    let notification_gateway_connection_timeout = match settings
        .NotificationGatewayConnectionTimeoutInSeconds {
        Some(v) => v,
        None => { return Err(SettingField::NotificationGatewayConnectionTimeoutInSeconds); },
    };
    let notification_cache_update_timeout = match settings.NotificationCacheUpdateTimeoutInSeconds {
        Some(v) => v,
        None => { return Err(SettingField::NotificationCacheUpdateTimeoutInSeconds); },
    };
    let partition_location_cache_bucket_count = match settings.PartitionLocationCacheBucketCount {
        Some(v) => v,
        None => { return Err(SettingField::PartitionLocationCacheBucketCount); },
    };
    let health_report_retry_send_interval = match settings.HealthReportRetrySendIntervalInSeconds {
        Some(v) => v,
        None => { return Err(SettingField::HealthReportRetrySendIntervalInSeconds); },
    };
    let partition_location_cache_limit = match settings.PartitionLocationCacheLimit {
        Some(v) => v,
        None => { return Err(SettingField::PartitionLocationCacheLimit); },
    };
    let service_change_poll_interval = match settings.ServiceChangePollIntervalInSeconds {
        Some(v) => v,
        None => { return Err(SettingField::ServiceChangePollIntervalInSeconds); },
    };
    let connection_initialization_timeout = match settings
        .ConnectionInitializationTimeoutInSeconds {
        Some(v) => v,
        None => { return Err(SettingField::ConnectionInitializationTimeoutInSeconds); },
    };
    let keep_alive_interval = match settings.KeepAliveIntervalInSeconds {
        Some(v) => v,
        None => { return Err(SettingField::KeepAliveIntervalInSeconds); },
    };
    let health_operation_timeout = match settings.HealthOperationTimeoutInSeconds {
        Some(v) => v,
        None => { return Err(SettingField::HealthOperationTimeoutInSeconds); },
    };
    let health_report_send_interval = match settings.HealthReportSendIntervalInSeconds {
        Some(v) => v,
        None => { return Err(SettingField::HealthReportSendIntervalInSeconds); },
    };
    let client_friendly_name = match &settings.ClientFriendlyName {
        Some(name) => Some(name.clone()),
        None => None,
    };
    Ok(
        SettingsChain {
            base: BaseChainSegment {
                PartitionLocationCacheLimit: partition_location_cache_limit,
                ServiceChangePollIntervalInSeconds: service_change_poll_interval,
                ConnectionInitializationTimeoutInSeconds: connection_initialization_timeout,
                KeepAliveIntervalInSeconds: keep_alive_interval,
                HealthOperationTimeoutInSeconds: health_operation_timeout,
                HealthReportSendIntervalInSeconds: health_report_send_interval,
            },
            ex1: Some(
                Ex1ChainSegment {
                    ClientFriendlyName: client_friendly_name,
                    PartitionLocationCacheBucketCount: partition_location_cache_bucket_count,
                    HealthReportRetrySendIntervalInSeconds: health_report_retry_send_interval,
                },
            ),
            ex2: Some(
                Ex2ChainSegment {
                    NotificationGatewayConnectionTimeoutInSeconds:
                        notification_gateway_connection_timeout,
                    NotificationCacheUpdateTimeoutInSeconds: notification_cache_update_timeout,
                },
            ),
            ex3: Some(Ex3ChainSegment { AuthTokenBufferSize: auth_token_buffer_size }),
            ex4: Some(Ex4ChainSegment { ConnectionIdleTimeoutInSeconds: 0 }),
        },
    )
}

/// Resolve an overlay against the currently effective settings and encode
/// the outcome for one native write: the overlay's explicitly set fields
/// win, fields it leaves unset keep their effective values, and a field the
/// write requires that neither side carries is reported by name before any
/// chain is produced.
pub fn merge_and_encode(
    effective: FabricClientSettings,
    overlay: FabricClientSettings,
) -> (r: Result<SettingsChain, SettingField>)
    ensures
        r is Ok <==> first_missing_required(merge_record(effective, overlay)) is None,
        r matches Err(f) ==> Some(f) == first_missing_required(merge_record(effective, overlay)),
        r matches Ok(c) ==> encoded_matches(merge_record(effective, overlay), c),
{
    let merged = combine_settings_with_overrides(effective, overlay);
    encode(&merged)
}

/// A record that carries exactly what one chain can: every chain-borne
/// field explicitly set, and the fields of chain versions newer than the
/// maximum known depth unset.
pub open spec fn chain_populated(s: FabricClientSettings) -> bool {
    &&& s.PartitionLocationCacheLimit is Some
    &&& s.ServiceChangePollIntervalInSeconds is Some
    &&& s.ConnectionInitializationTimeoutInSeconds is Some
    &&& s.KeepAliveIntervalInSeconds is Some
    &&& s.HealthOperationTimeoutInSeconds is Some
    &&& s.HealthReportSendIntervalInSeconds is Some
    &&& s.ClientFriendlyName is Some
    &&& s.PartitionLocationCacheBucketCount is Some
    &&& s.HealthReportRetrySendIntervalInSeconds is Some
    &&& s.NotificationGatewayConnectionTimeoutInSeconds is Some
    &&& s.NotificationCacheUpdateTimeoutInSeconds is Some
    &&& s.AuthTokenBufferSize is Some
    &&& s.AllowHealthReportCleanup is None
    &&& s.HealthReportDropTransientReportTtlThresholdInSeconds is None
}

/// Encoding a well-formed record yields a chain a subsequent read accepts:
/// no violation is found in it.
pub proof fn lemma_encoded_chain_is_wf(s: FabricClientSettings, c: SettingsChain)
    requires
        s.wf(),
        encoded_matches(s, c),
    ensures
        chain_wf(c),
{
}

/// Law (round trip): writing a well-formed record that carries exactly the
/// chain-borne fields and reading the resulting chain back reproduces the
/// record precisely, the name character for character. The two fields of
/// chain versions newer than the maximum known depth are outside the round
/// trip: a read always leaves them unset, so a record that sets them cannot
/// be reproduced.
pub proof fn lemma_round_trip(s: FabricClientSettings, c: SettingsChain, d: FabricClientSettings)
    requires
        s.wf(),
        chain_populated(s),
        encoded_matches(s, c),
        decoded_matches(c, d),
    ensures
        d == s,
{
}

} // verus!
