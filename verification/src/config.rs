//! The configuration value and its resolution from layered sources:
//! built-in defaults, the network directory layout, and user overrides.

use vstd::prelude::*;
use vstd::string::{StrSliceExecFns, StringExecFns};
use vstd::utf8::encode_utf8;
use crate::address::{Address, addr_ok, addr_bytes, parse_address};
use crate::external::{url_parse, parse_url, header_value_ok, valid_header_value_char};
use crate::graffiti::{Graffiti, padded_graffiti, make_graffiti};
use crate::ip::{IpAddress, ip_of, parse_ip};
use crate::numeric::{dec_str_ok, dec_str_val, parse_u64_str, parse_bool_str};
use crate::strutil::{spec_split, split_on};

verus! {

/// Ambient facts that the defaults depend on, passed in explicitly so that
/// resolution itself is deterministic.
pub struct PlatformContext {
    /// The user's home directory, when one could be determined.
    pub home_dir: Option<String>,
}

/// The flat set of user-supplied overrides.  Every field is optional; a
/// `None` or `false` means the option was not given.  Textual numeric
/// options stay textual here: parsing them is part of resolution.
pub struct CliOverrides {
    pub datadir: Option<String>,
    pub validators_dir: Option<String>,
    pub secrets_dir: Option<String>,
    pub network: Option<String>,
    pub beacon_nodes: Option<String>,
    pub beacon_node: Option<String>,
    pub server: Option<String>,
    pub proposer_nodes: Option<String>,
    pub delete_lockfiles: bool,
    pub allow_unsynced: bool,
    pub disable_run_on_all: bool,
    pub disable_auto_discover: bool,
    pub init_slashing_protection: bool,
    pub use_long_timeouts: bool,
    pub graffiti_file: Option<String>,
    pub graffiti: Option<String>,
    pub suggested_fee_recipient: Option<String>,
    pub beacon_nodes_tls_certs: Option<String>,
    pub http: bool,
    pub http_address: Option<String>,
    pub unencrypted_http_transport: bool,
    pub http_port: Option<String>,
    pub http_allow_origin: Option<String>,
    pub metrics: bool,
    pub enable_high_validator_count_metrics: bool,
    pub metrics_address: Option<String>,
    pub metrics_port: Option<String>,
    pub metrics_allow_origin: Option<String>,
    pub disable_malloc_tuning: bool,
    pub monitoring_endpoint: Option<String>,
    pub monitoring_endpoint_period: Option<String>,
    pub enable_doppelganger_protection: bool,
    pub builder_proposals: bool,
    pub gas_limit: Option<String>,
    pub builder_registration_timestamp_override: Option<String>,
    pub strict_fee_recipient: bool,
    pub latency_measurement_service: Option<String>,
    pub validator_registration_batch_size: Option<String>,
    pub block_delay_ms: Option<String>,
}

impl CliOverrides {
    /// No overrides at all.
    pub fn none() -> (r: CliOverrides)
        ensures
            r.datadir is None,
            r.validators_dir is None,
            r.secrets_dir is None,
            r.network is None,
            r.beacon_nodes is None,
            r.beacon_node is None,
            r.server is None,
            r.proposer_nodes is None,
            !r.delete_lockfiles,
            !r.allow_unsynced,
            !r.disable_run_on_all,
            !r.disable_auto_discover,
            !r.init_slashing_protection,
            !r.use_long_timeouts,
            r.graffiti_file is None,
            r.graffiti is None,
            r.suggested_fee_recipient is None,
            r.beacon_nodes_tls_certs is None,
            !r.http,
            r.http_address is None,
            !r.unencrypted_http_transport,
            r.http_port is None,
            r.http_allow_origin is None,
            !r.metrics,
            !r.enable_high_validator_count_metrics,
            r.metrics_address is None,
            r.metrics_port is None,
            r.metrics_allow_origin is None,
            !r.disable_malloc_tuning,
            r.monitoring_endpoint is None,
            r.monitoring_endpoint_period is None,
            !r.enable_doppelganger_protection,
            !r.builder_proposals,
            r.gas_limit is None,
            r.builder_registration_timestamp_override is None,
            !r.strict_fee_recipient,
            r.latency_measurement_service is None,
            r.validator_registration_batch_size is None,
            r.block_delay_ms is None,
    {
        CliOverrides {
            datadir: None,
            validators_dir: None,
            secrets_dir: None,
            network: None,
            beacon_nodes: None,
            beacon_node: None,
            server: None,
            proposer_nodes: None,
            delete_lockfiles: false,
            allow_unsynced: false,
            disable_run_on_all: false,
            disable_auto_discover: false,
            init_slashing_protection: false,
            use_long_timeouts: false,
            graffiti_file: None,
            graffiti: None,
            suggested_fee_recipient: None,
            beacon_nodes_tls_certs: None,
            http: false,
            http_address: None,
            unencrypted_http_transport: false,
            http_port: None,
            http_allow_origin: None,
            metrics: false,
            enable_high_validator_count_metrics: false,
            metrics_address: None,
            metrics_port: None,
            metrics_allow_origin: None,
            disable_malloc_tuning: false,
            monitoring_endpoint: None,
            monitoring_endpoint_period: None,
            enable_doppelganger_protection: false,
            builder_proposals: false,
            gas_limit: None,
            builder_registration_timestamp_override: None,
            strict_fee_recipient: false,
            latency_measurement_service: None,
            validator_registration_batch_size: None,
            block_delay_ms: None,
        }
    }
}

/// The HTTP API server's slice of the configuration.
#[derive(Clone, Debug)]
pub struct HttpApiConfig {
    pub enabled: bool,
    pub listen_addr: IpAddress,
    pub listen_port: u16,
    pub allow_origin: Option<String>,
}

/// The metrics server's slice of the configuration.
#[derive(Clone, Debug)]
pub struct HttpMetricsConfig {
    pub enabled: bool,
    pub listen_addr: IpAddress,
    pub listen_port: u16,
    pub allow_origin: Option<String>,
    pub allocator_metrics_enabled: bool,
}

/// The remote monitoring exporter's slice of the configuration; present
/// only when an endpoint was supplied.
#[derive(Clone, Debug)]
pub struct MonitoringApiConfig {
    pub monitoring_endpoint: String,
    pub update_period_secs: Option<u64>,
}

/// The resolved, immutable configuration.
#[derive(Clone, Debug)]
pub struct Config {
    /// Directory holding the validator databases; created by the caller if
    /// absent.
    pub validator_dir: String,
    /// Directory holding the passwords that unlock validator keystores.
    pub secrets_dir: String,
    /// Upstream beacon-node API endpoints; never empty.
    pub beacon_nodes: Vec<String>,
    /// Endpoints used for block proposals only; may be empty.
    pub proposer_nodes: Vec<String>,
    /// Kept for compatibility; never set by resolution.
    pub allow_unsynced_beacon_node: bool,
    pub disable_auto_discover: bool,
    pub init_slashing_protection: bool,
    pub use_long_timeouts: bool,
    /// Graffiti placed in produced blocks.
    pub graffiti: Option<Graffiti>,
    /// Path of a per-validator graffiti file; read by the caller.
    pub graffiti_file: Option<String>,
    pub fee_recipient: Option<Address>,
    pub http_api: HttpApiConfig,
    pub http_metrics: HttpMetricsConfig,
    pub monitoring_api: Option<MonitoringApiConfig>,
    pub enable_doppelganger_protection: bool,
    pub enable_high_validator_count_metrics: bool,
    pub builder_proposals: bool,
    pub builder_registration_timestamp_override: Option<u64>,
    pub gas_limit: Option<u64>,
    pub beacon_nodes_tls_certs: Option<Vec<String>>,
    pub block_delay_millis: Option<u64>,
    pub disable_run_on_all: bool,
    pub enable_latency_measurement_service: bool,
    pub validator_registration_batch_size: usize,
}

/// A warning emitted for a deprecated input form; each accepted deprecated
/// input yields exactly one.
#[derive(Clone, Copy, Debug, PartialEq, Eq, Structural)]
pub enum Warning {
    DeprecatedBeaconNodeFlag,
    DeprecatedServerFlag,
    DeprecatedDeleteLockfiles,
    DeprecatedAllowUnsynced,
    DeprecatedStrictFeeRecipient,
}

/// A resolution failure, naming the offending field and carrying the raw
/// value where there is one.
#[derive(Clone, Debug)]
pub enum ConfigError {
    InvalidBeaconNodeUrl(String),
    InvalidProposerNodeUrl(String),
    GraffitiTooLong,
    InvalidFeeRecipient(String),
    HttpAddressRequiresAck,
    InvalidHttpAddress(String),
    InvalidHttpPort(String),
    InvalidHttpAllowOrigin(String),
    InvalidMetricsAddress(String),
    InvalidMetricsPort(String),
    InvalidMetricsAllowOrigin(String),
    InvalidMonitoringPeriod(String),
    InvalidGasLimit(String),
    InvalidRegistrationTimestamp(String),
    InvalidLatencyToggle(String),
    InvalidBatchSize(String),
    BatchSizeZero,
    InvalidBlockDelay(String),
    /// The validator directory could not be created (side-effecting stage).
    DirectoryCreationFailed(String),
    /// The graffiti file could not be read (side-effecting stage).
    GraffitiFileUnreadable(String),
}

/// The mathematical shape of a resolution failure.
pub enum SpecError {
    InvalidBeaconNodeUrl(Seq<char>),
    InvalidProposerNodeUrl(Seq<char>),
    GraffitiTooLong,
    InvalidFeeRecipient(Seq<char>),
    HttpAddressRequiresAck,
    InvalidHttpAddress(Seq<char>),
    InvalidHttpPort(Seq<char>),
    InvalidHttpAllowOrigin(Seq<char>),
    InvalidMetricsAddress(Seq<char>),
    InvalidMetricsPort(Seq<char>),
    InvalidMetricsAllowOrigin(Seq<char>),
    InvalidMonitoringPeriod(Seq<char>),
    InvalidGasLimit(Seq<char>),
    InvalidRegistrationTimestamp(Seq<char>),
    InvalidLatencyToggle(Seq<char>),
    InvalidBatchSize(Seq<char>),
    BatchSizeZero,
    InvalidBlockDelay(Seq<char>),
    DirectoryCreationFailed(Seq<char>),
    GraffitiFileUnreadable(Seq<char>),
}

impl View for ConfigError {
    type V = SpecError;

    open spec fn view(&self) -> SpecError {
        match self {
            ConfigError::InvalidBeaconNodeUrl(s) => SpecError::InvalidBeaconNodeUrl(s@),
            ConfigError::InvalidProposerNodeUrl(s) => SpecError::InvalidProposerNodeUrl(s@),
            ConfigError::GraffitiTooLong => SpecError::GraffitiTooLong,
            ConfigError::InvalidFeeRecipient(s) => SpecError::InvalidFeeRecipient(s@),
            ConfigError::HttpAddressRequiresAck => SpecError::HttpAddressRequiresAck,
            ConfigError::InvalidHttpAddress(s) => SpecError::InvalidHttpAddress(s@),
            ConfigError::InvalidHttpPort(s) => SpecError::InvalidHttpPort(s@),
            ConfigError::InvalidHttpAllowOrigin(s) => SpecError::InvalidHttpAllowOrigin(s@),
            ConfigError::InvalidMetricsAddress(s) => SpecError::InvalidMetricsAddress(s@),
            ConfigError::InvalidMetricsPort(s) => SpecError::InvalidMetricsPort(s@),
            ConfigError::InvalidMetricsAllowOrigin(s) => SpecError::InvalidMetricsAllowOrigin(s@),
            ConfigError::InvalidMonitoringPeriod(s) => SpecError::InvalidMonitoringPeriod(s@),
            ConfigError::InvalidGasLimit(s) => SpecError::InvalidGasLimit(s@),
            ConfigError::InvalidRegistrationTimestamp(s) => SpecError::InvalidRegistrationTimestamp(
                s@,
            ),
            ConfigError::InvalidLatencyToggle(s) => SpecError::InvalidLatencyToggle(s@),
            ConfigError::InvalidBatchSize(s) => SpecError::InvalidBatchSize(s@),
            ConfigError::BatchSizeZero => SpecError::BatchSizeZero,
            ConfigError::InvalidBlockDelay(s) => SpecError::InvalidBlockDelay(s@),
            ConfigError::DirectoryCreationFailed(s) => SpecError::DirectoryCreationFailed(s@),
            ConfigError::GraffitiFileUnreadable(s) => SpecError::GraffitiFileUnreadable(s@),
        }
    }
}

/// The outcome of a successful resolution: the configuration and the
/// deprecation warnings gathered on the way.
#[derive(Debug)]
pub struct Resolved {
    pub config: Config,
    pub warnings: Vec<Warning>,
}

/// Joining a relative component onto a base path.
pub open spec fn spec_join(base: Seq<char>, child: Seq<char>) -> Seq<char> {
    if base.len() > 0 && base.last() == '/' {
        base + child
    } else {
        base + seq!['/'] + child
    }
}

/// The home directory, or the working directory without one.
pub open spec fn spec_home_or_dot(ctx: PlatformContext) -> Seq<char> {
    match ctx.home_dir {
        Some(h) => h@,
        None => "."@,
    }
}

/// The root under which network-specific data lives during resolution:
/// the home directory's hidden client directory, or the working directory
/// when no home is known.
pub open spec fn spec_default_root(ctx: PlatformContext) -> Seq<char> {
    match ctx.home_dir {
        Some(h) => spec_join(h@, ".lighthouse"@),
        None => "."@,
    }
}

/// The network directory name: the supplied network, or the hard-coded
/// default.
pub open spec fn spec_network(o: CliOverrides) -> Seq<char> {
    match o.network {
        Some(n) => n@,
        None => "mainnet"@,
    }
}

/// Where the validator databases live: an explicit directory wins, then a
/// data-directory derivation, then the network-specific default.
pub open spec fn spec_validator_dir(o: CliOverrides, ctx: PlatformContext) -> Seq<char> {
    if o.validators_dir is Some {
        o.validators_dir->0@
    } else if o.datadir is Some {
        spec_join(o.datadir->0@, "validators"@)
    } else {
        spec_join(spec_join(spec_default_root(ctx), spec_network(o)), "validators"@)
    }
}

/// Where the keystore passwords live, resolved like the validator
/// directory.
pub open spec fn spec_secrets_dir(o: CliOverrides, ctx: PlatformContext) -> Seq<char> {
    if o.secrets_dir is Some {
        o.secrets_dir->0@
    } else if o.datadir is Some {
        spec_join(o.datadir->0@, "secrets"@)
    } else {
        spec_join(spec_join(spec_default_root(ctx), spec_network(o)), "secrets"@)
    }
}

/// The one built-in upstream endpoint.
pub open spec fn spec_default_beacon_node() -> Seq<char> {
    "http://localhost:5052/"@
}

/// Every piece of the comma-separated list parsed as a URL, when all of
/// them do.
pub open spec fn url_list_of(s: Seq<char>) -> Option<Seq<Seq<char>>> {
    let ps = spec_split(s, ',');
    if forall|i: int| 0 <= i < ps.len() ==> url_parse(ps[i]) is Some {
        Some(ps.map_values(|p: Seq<char>| url_parse(p)->0))
    } else {
        None
    }
}

/// The resolved beacon-node endpoints: the current multi-endpoint override
/// wins; otherwise either deprecated single-endpoint form; otherwise the
/// built-in default.  `None` when the chosen form does not parse.
pub open spec fn spec_beacon_nodes(o: CliOverrides) -> Option<Seq<Seq<char>>> {
    if o.beacon_nodes is Some {
        url_list_of(o.beacon_nodes->0@)
    } else if o.beacon_node is Some {
        match url_parse(o.beacon_node->0@) {
            Some(u) => Some(seq![u]),
            None => None,
        }
    } else if o.server is Some {
        match url_parse(o.server->0@) {
            Some(u) => Some(seq![u]),
            None => None,
        }
    } else {
        Some(seq![spec_default_beacon_node()])
    }
}

/// The raw text behind the beacon-node resolution, for error reporting.
pub open spec fn spec_beacon_raw(o: CliOverrides) -> Seq<char> {
    if o.beacon_nodes is Some {
        o.beacon_nodes->0@
    } else if o.beacon_node is Some {
        o.beacon_node->0@
    } else if o.server is Some {
        o.server->0@
    } else {
        Seq::<char>::empty()
    }
}

/// The resolved proposer-node endpoints; empty unless overridden.
pub open spec fn spec_proposer_nodes(o: CliOverrides) -> Option<Seq<Seq<char>>> {
    match o.proposer_nodes {
        Some(s) => url_list_of(s@),
        None => Some(Seq::<Seq<char>>::empty()),
    }
}

pub open spec fn all_header_value_chars(s: Seq<char>) -> bool {
    forall|i: int| 0 <= i < s.len() ==> valid_header_value_char(s[i])
}

/// The warnings a resolution emits, one per deprecated input, in the order
/// the inputs are examined.
pub open spec fn spec_warnings(o: CliOverrides) -> Seq<Warning> {
    (if o.beacon_nodes is None && o.beacon_node is Some {
        seq![Warning::DeprecatedBeaconNodeFlag]
    } else {
        Seq::<Warning>::empty()
    }) + (if o.beacon_nodes is None && o.beacon_node is None && o.server is Some {
        seq![Warning::DeprecatedServerFlag]
    } else {
        Seq::<Warning>::empty()
    }) + (if o.delete_lockfiles {
        seq![Warning::DeprecatedDeleteLockfiles]
    } else {
        Seq::<Warning>::empty()
    }) + (if o.allow_unsynced {
        seq![Warning::DeprecatedAllowUnsynced]
    } else {
        Seq::<Warning>::empty()
    }) + (if o.strict_fee_recipient {
        seq![Warning::DeprecatedStrictFeeRecipient]
    } else {
        Seq::<Warning>::empty()
    })
}

/// The HTTP API failures, in the order they are checked: a listen-address
/// override without the transport acknowledgment, a malformed address, a
/// malformed port, a malformed allow-origin value.
pub open spec fn http_api_err(o: CliOverrides) -> Option<SpecError> {
    if o.http_address is Some && !o.unencrypted_http_transport {
        Some(SpecError::HttpAddressRequiresAck)
    } else if o.http_address is Some && ip_of(o.http_address->0@) is None {
        Some(SpecError::InvalidHttpAddress(o.http_address->0@))
    } else if o.http_port is Some && !dec_str_ok(o.http_port->0@, u16::MAX as int) {
        Some(SpecError::InvalidHttpPort(o.http_port->0@))
    } else if o.http_allow_origin is Some && !all_header_value_chars(o.http_allow_origin->0@) {
        Some(SpecError::InvalidHttpAllowOrigin(o.http_allow_origin->0@))
    } else {
        None
    }
}

/// The metrics-server failures, in the order they are checked.
pub open spec fn metrics_err(o: CliOverrides) -> Option<SpecError> {
    if o.metrics_address is Some && ip_of(o.metrics_address->0@) is None {
        Some(SpecError::InvalidMetricsAddress(o.metrics_address->0@))
    } else if o.metrics_port is Some && !dec_str_ok(o.metrics_port->0@, u16::MAX as int) {
        Some(SpecError::InvalidMetricsPort(o.metrics_port->0@))
    } else if o.metrics_allow_origin is Some && !all_header_value_chars(
        o.metrics_allow_origin->0@,
    ) {
        Some(SpecError::InvalidMetricsAllowOrigin(o.metrics_allow_origin->0@))
    } else {
        None
    }
}

/// A malformed monitoring update period; only examined when an endpoint
/// was supplied.
pub open spec fn monitoring_err(o: CliOverrides) -> Option<SpecError> {
    if o.monitoring_endpoint is Some && o.monitoring_endpoint_period is Some && !dec_str_ok(
        o.monitoring_endpoint_period->0@,
        u64::MAX as int,
    ) {
        Some(SpecError::InvalidMonitoringPeriod(o.monitoring_endpoint_period->0@))
    } else {
        None
    }
}

/// The batch-size failures: a value that is not a positive integer in
/// range, then a value of exactly zero.
pub open spec fn batch_err(o: CliOverrides) -> Option<SpecError> {
    if o.validator_registration_batch_size is Some && !dec_str_ok(
        o.validator_registration_batch_size->0@,
        usize::MAX as int,
    ) {
        Some(SpecError::InvalidBatchSize(o.validator_registration_batch_size->0@))
    } else if o.validator_registration_batch_size is Some && dec_str_val(
        o.validator_registration_batch_size->0@,
    ) == 0 {
        Some(SpecError::BatchSizeZero)
    } else {
        None
    }
}

/// The first failure a resolution meets, examining the overrides in the
/// order resolution does; `None` when resolution succeeds.
pub open spec fn first_error(o: CliOverrides) -> Option<SpecError> {
    if spec_beacon_nodes(o) is None {
        Some(SpecError::InvalidBeaconNodeUrl(spec_beacon_raw(o)))
    } else if o.proposer_nodes is Some && url_list_of(o.proposer_nodes->0@) is None {
        Some(SpecError::InvalidProposerNodeUrl(o.proposer_nodes->0@))
    } else if o.graffiti is Some && encode_utf8(o.graffiti->0@).len() > 32 {
        Some(SpecError::GraffitiTooLong)
    } else if o.suggested_fee_recipient is Some && !addr_ok(o.suggested_fee_recipient->0@) {
        Some(SpecError::InvalidFeeRecipient(o.suggested_fee_recipient->0@))
    } else if http_api_err(o) is Some {
        http_api_err(o)
    } else if metrics_err(o) is Some {
        metrics_err(o)
    } else if monitoring_err(o) is Some {
        monitoring_err(o)
    } else if o.gas_limit is Some && !dec_str_ok(o.gas_limit->0@, u64::MAX as int) {
        Some(SpecError::InvalidGasLimit(o.gas_limit->0@))
    } else if o.builder_registration_timestamp_override is Some && !dec_str_ok(
        o.builder_registration_timestamp_override->0@,
        u64::MAX as int,
    ) {
        Some(SpecError::InvalidRegistrationTimestamp(
            o.builder_registration_timestamp_override->0@,
        ))
    } else if o.latency_measurement_service is Some && o.latency_measurement_service->0@
        != "true"@ && o.latency_measurement_service->0@ != "false"@ {
        Some(SpecError::InvalidLatencyToggle(o.latency_measurement_service->0@))
    } else if batch_err(o) is Some {
        batch_err(o)
    } else if o.block_delay_ms is Some && !dec_str_ok(o.block_delay_ms->0@, u64::MAX as int) {
        Some(SpecError::InvalidBlockDelay(o.block_delay_ms->0@))
    } else {
        None
    }
}

/// Equality of optional strings by their text.
pub open spec fn opt_str_matches(a: Option<String>, b: Option<String>) -> bool {
    match b {
        Some(t) => a is Some && a->0@ == t@,
        None => a is None,
    }
}

/// What it means for `c` with warnings `w` to be the resolution of the
/// overrides `o` over the context `ctx`: every field pinned to its
/// resolution rule.
pub open spec fn resolves_to(o: CliOverrides, ctx: PlatformContext, c: Config, w: Seq<Warning>)
    -> bool {
    &&& c.validator_dir@ == spec_validator_dir(o, ctx)
    &&& c.secrets_dir@ == spec_secrets_dir(o, ctx)
    &&& c.beacon_nodes.deep_view() == spec_beacon_nodes(o)->0
    &&& c.proposer_nodes.deep_view() == spec_proposer_nodes(o)->0
    &&& !c.allow_unsynced_beacon_node
    &&& c.disable_auto_discover == o.disable_auto_discover
    &&& c.init_slashing_protection == o.init_slashing_protection
    &&& c.use_long_timeouts == o.use_long_timeouts
    &&& (match o.graffiti {
        Some(g) => c.graffiti is Some && c.graffiti->0.bytes@ == padded_graffiti(
            encode_utf8(g@),
        ),
        None => c.graffiti is None,
    })
    &&& opt_str_matches(c.graffiti_file, o.graffiti_file)
    &&& (match o.suggested_fee_recipient {
        Some(a) => c.fee_recipient is Some && c.fee_recipient->0.bytes@ == addr_bytes(a@),
        None => c.fee_recipient is None,
    })
    &&& (match o.beacon_nodes_tls_certs {
        Some(s) => c.beacon_nodes_tls_certs is Some && c.beacon_nodes_tls_certs->0.deep_view()
            == spec_split(s@, ','),
        None => c.beacon_nodes_tls_certs is None,
    })
    &&& c.http_api.enabled == o.http
    &&& c.http_api.listen_addr == (match o.http_address {
        Some(a) => ip_of(a@)->0,
        None => IpAddress::V4(127, 0, 0, 1),
    })
    &&& c.http_api.listen_port as int == (match o.http_port {
        Some(p) => dec_str_val(p@),
        None => 5062,
    })
    &&& opt_str_matches(c.http_api.allow_origin, o.http_allow_origin)
    &&& c.http_metrics.enabled == o.metrics
    &&& c.http_metrics.listen_addr == (match o.metrics_address {
        Some(a) => ip_of(a@)->0,
        None => IpAddress::V4(127, 0, 0, 1),
    })
    &&& c.http_metrics.listen_port as int == (match o.metrics_port {
        Some(p) => dec_str_val(p@),
        None => 5064,
    })
    &&& opt_str_matches(c.http_metrics.allow_origin, o.metrics_allow_origin)
    &&& c.http_metrics.allocator_metrics_enabled == !o.disable_malloc_tuning
    &&& (match o.monitoring_endpoint {
        Some(e) => {
            &&& c.monitoring_api is Some
            &&& c.monitoring_api->0.monitoring_endpoint@ == e@
            &&& (match o.monitoring_endpoint_period {
                Some(p) => c.monitoring_api->0.update_period_secs is Some
                    && c.monitoring_api->0.update_period_secs->0 as int == dec_str_val(p@),
                None => c.monitoring_api->0.update_period_secs is None,
            })
        },
        None => c.monitoring_api is None,
    })
    &&& c.enable_doppelganger_protection == o.enable_doppelganger_protection
    &&& c.enable_high_validator_count_metrics == o.enable_high_validator_count_metrics
    &&& c.builder_proposals == o.builder_proposals
    &&& (match o.builder_registration_timestamp_override {
        Some(v) => c.builder_registration_timestamp_override is Some
            && c.builder_registration_timestamp_override->0 as int == dec_str_val(v@),
        None => c.builder_registration_timestamp_override is None,
    })
    &&& (match o.gas_limit {
        Some(v) => c.gas_limit is Some && c.gas_limit->0 as int == dec_str_val(v@),
        None => c.gas_limit is None,
    })
    &&& (match o.block_delay_ms {
        Some(v) => c.block_delay_millis is Some && c.block_delay_millis->0 as int == dec_str_val(
            v@,
        ),
        None => c.block_delay_millis is None,
    })
    &&& c.disable_run_on_all == o.disable_run_on_all
    &&& c.enable_latency_measurement_service == (match o.latency_measurement_service {
        Some(s) => s@ == "true"@,
        None => true,
    })
    &&& c.validator_registration_batch_size as int == (match o.validator_registration_batch_size {
        Some(s) => dec_str_val(s@),
        None => 500,
    })
    &&& w == spec_warnings(o)
}

/// A resolved configuration is internally consistent.
pub open spec fn config_wf(c: Config) -> bool {
    &&& c.beacon_nodes@.len() >= 1
    &&& (match c.graffiti {
        Some(g) => g.wf(),
        None => true,
    })
    &&& (match c.fee_recipient {
        Some(a) => a.wf(),
        None => true,
    })
    &&& c.validator_registration_batch_size > 0
}

/// Joins a relative path component onto a base.
fn join_path(base: &str, child: &str) -> (r: String)
    ensures
        r@ == spec_join(base@, child@),
{
    let n = base.unicode_len();
    let mut r = String::from_str(base);
    if !(n > 0 && base.get_char(n - 1) == '/') {
        r.append("/");
        proof {
            reveal_strlit("/");
            assert(r@ =~= base@ + seq!['/']);
        }
    }
    r.append(child);
    proof {
        if n > 0 && base@.last() == '/' {
            assert(r@ =~= base@ + child@);
        } else {
            assert(r@ =~= base@ + seq!['/'] + child@);
        }
    }
    r
}

/// Parses a comma-separated endpoint list.
fn parse_url_list(s: &str) -> (r: Option<Vec<String>>)
    ensures
        r is Some <==> url_list_of(s@) is Some,
        r is Some ==> r->0.deep_view() == url_list_of(s@)->0,
{
    let ps = split_on(s, ',');
    let ghost sps = spec_split(s@, ',');
    proof {
        assert(ps@.map_values(|p: &str| p@).len() == sps.len());
    }
    let mut out: Vec<String> = Vec::new();
    let mut i: usize = 0;
    while i < ps.len()
        invariant
            ps@.map_values(|p: &str| p@) == sps,
            ps@.len() == sps.len(),
            sps == spec_split(s@, ','),
            i <= ps@.len(),
            forall|j: int| 0 <= j < i ==> url_parse(sps[j]) is Some,
            out@.len() == i,
            forall|j: int| 0 <= j < i ==> out@[j]@ == url_parse(sps[j])->0,
        decreases ps@.len() - i,
    {
        proof {
            assert(ps@.map_values(|p: &str| p@)[i as int] == sps[i as int]);
        }
        match parse_url(ps[i]) {
            Some(u) => {
                out.push(u);
            },
            None => {
                return None;
            },
        }
        i += 1;
    }
    proof {
        assert(out.deep_view() =~= url_list_of(s@)->0);
    }
    Some(out)
}

/// Splits a comma-separated list into owned pieces.
fn split_to_strings(s: &str) -> (r: Vec<String>)
    ensures
        r.deep_view() == spec_split(s@, ','),
{
    let ps = split_on(s, ',');
    let ghost sps = spec_split(s@, ',');
    proof {
        assert(ps@.map_values(|p: &str| p@).len() == sps.len());
    }
    let mut out: Vec<String> = Vec::new();
    let mut i: usize = 0;
    while i < ps.len()
        invariant
            ps@.map_values(|p: &str| p@) == sps,
            ps@.len() == sps.len(),
            i <= ps@.len(),
            out@.len() == i,
            forall|j: int| 0 <= j < i ==> out@[j]@ == sps[j],
        decreases ps@.len() - i,
    {
        proof {
            assert(ps@.map_values(|p: &str| p@)[i as int] == sps[i as int]);
        }
        out.push(ps[i].to_owned());
        i += 1;
    }
    proof {
        assert(out.deep_view() =~= sps);
    }
    out
}

impl Config {
    /// The zero-override baseline over the given platform context; pure
    /// and never failing.
    pub fn default_with(ctx: &PlatformContext) -> (r: Config)
        ensures
            r.validator_dir@ == spec_join(
                spec_join(spec_join(spec_home_or_dot(*ctx), ".lighthouse"@), "mainnet"@),
                "validators"@,
            ),
            r.secrets_dir@ == spec_join(
                spec_join(spec_join(spec_home_or_dot(*ctx), ".lighthouse"@), "mainnet"@),
                "secrets"@,
            ),
            r.beacon_nodes.deep_view() == seq![spec_default_beacon_node()],
            r.proposer_nodes@.len() == 0,
            !r.allow_unsynced_beacon_node,
            !r.disable_auto_discover,
            !r.init_slashing_protection,
            !r.use_long_timeouts,
            r.graffiti is None,
            r.graffiti_file is None,
            r.fee_recipient is None,
            !r.http_api.enabled,
            r.http_api.listen_addr == IpAddress::V4(127, 0, 0, 1),
            r.http_api.listen_port == 5062,
            r.http_api.allow_origin is None,
            !r.http_metrics.enabled,
            r.http_metrics.listen_addr == IpAddress::V4(127, 0, 0, 1),
            r.http_metrics.listen_port == 5064,
            r.http_metrics.allow_origin is None,
            r.http_metrics.allocator_metrics_enabled,
            r.monitoring_api is None,
            !r.enable_doppelganger_protection,
            !r.enable_high_validator_count_metrics,
            !r.builder_proposals,
            r.builder_registration_timestamp_override is None,
            r.gas_limit is None,
            r.beacon_nodes_tls_certs is None,
            r.block_delay_millis is None,
            !r.disable_run_on_all,
            r.enable_latency_measurement_service,
            r.validator_registration_batch_size == 500,
            config_wf(r),
    {
        let home = match ctx.home_dir.as_ref() {
            Some(h) => h.clone(),
            None => String::from_str("."),
        };
        let root = join_path(home.as_str(), ".lighthouse");
        let base = join_path(root.as_str(), "mainnet");
        let validator_dir = join_path(base.as_str(), "validators");
        let secrets_dir = join_path(base.as_str(), "secrets");
        let mut beacon_nodes: Vec<String> = Vec::new();
        beacon_nodes.push(String::from_str("http://localhost:5052/"));
        proof {
            assert(beacon_nodes.deep_view() =~= seq![spec_default_beacon_node()]);
        }
        Config {
            validator_dir,
            secrets_dir,
            beacon_nodes,
            proposer_nodes: Vec::new(),
            allow_unsynced_beacon_node: false,
            disable_auto_discover: false,
            init_slashing_protection: false,
            use_long_timeouts: false,
            graffiti: None,
            graffiti_file: None,
            fee_recipient: None,
            http_api: HttpApiConfig {
                enabled: false,
                listen_addr: IpAddress::V4(127, 0, 0, 1),
                listen_port: 5062,
                allow_origin: None,
            },
            http_metrics: HttpMetricsConfig {
                enabled: false,
                listen_addr: IpAddress::V4(127, 0, 0, 1),
                listen_port: 5064,
                allow_origin: None,
                allocator_metrics_enabled: true,
            },
            monitoring_api: None,
            enable_doppelganger_protection: false,
            enable_high_validator_count_metrics: false,
            builder_proposals: false,
            builder_registration_timestamp_override: None,
            gas_limit: None,
            beacon_nodes_tls_certs: None,
            block_delay_millis: None,
            disable_run_on_all: false,
            enable_latency_measurement_service: true,
            validator_registration_batch_size: 500,
        }
    }
}

/// Builds the warning list for the deprecated inputs present, in the
/// order resolution examines them.
fn build_warnings(o: &CliOverrides) -> (w: Vec<Warning>)
    ensures
        w@ == spec_warnings(*o),
{
    let mut w: Vec<Warning> = Vec::new();
    if o.beacon_nodes.is_none() && o.beacon_node.is_some() {
        w.push(Warning::DeprecatedBeaconNodeFlag);
    }
    if o.beacon_nodes.is_none() && o.beacon_node.is_none() && o.server.is_some() {
        w.push(Warning::DeprecatedServerFlag);
    }
    if o.delete_lockfiles {
        w.push(Warning::DeprecatedDeleteLockfiles);
    }
    if o.allow_unsynced {
        w.push(Warning::DeprecatedAllowUnsynced);
    }
    if o.strict_fee_recipient {
        w.push(Warning::DeprecatedStrictFeeRecipient);
    }
    proof {
        assert(w@ =~= spec_warnings(*o));
    }
    w
}

/// Resolves the validator directory.
fn resolve_validator_dir(o: &CliOverrides, ctx: &PlatformContext) -> (r: String)
    ensures
        r@ == spec_validator_dir(*o, *ctx),
{
    match o.validators_dir.as_ref() {
        Some(s) => s.clone(),
        None => match o.datadir.as_ref() {
            Some(d) => join_path(d.as_str(), "validators"),
            None => {
                let root = match ctx.home_dir.as_ref() {
                    Some(h) => join_path(h.as_str(), ".lighthouse"),
                    None => String::from_str("."),
                };
                let netdir = match o.network.as_ref() {
                    Some(n) => join_path(root.as_str(), n.as_str()),
                    None => join_path(root.as_str(), "mainnet"),
                };
                join_path(netdir.as_str(), "validators")
            },
        },
    }
}

/// Resolves the secrets directory.
fn resolve_secrets_dir(o: &CliOverrides, ctx: &PlatformContext) -> (r: String)
    ensures
        r@ == spec_secrets_dir(*o, *ctx),
{
    match o.secrets_dir.as_ref() {
        Some(s) => s.clone(),
        None => match o.datadir.as_ref() {
            Some(d) => join_path(d.as_str(), "secrets"),
            None => {
                let root = match ctx.home_dir.as_ref() {
                    Some(h) => join_path(h.as_str(), ".lighthouse"),
                    None => String::from_str("."),
                };
                let netdir = match o.network.as_ref() {
                    Some(n) => join_path(root.as_str(), n.as_str()),
                    None => join_path(root.as_str(), "mainnet"),
                };
                join_path(netdir.as_str(), "secrets")
            },
        },
    }
}

/// Resolves the beacon-node endpoints by their precedence rule.
fn resolve_beacon_nodes(o: &CliOverrides) -> (r: Result<Vec<String>, ConfigError>)
    ensures
        r is Ok <==> spec_beacon_nodes(*o) is Some,
        r is Ok ==> r->Ok_0.deep_view() == spec_beacon_nodes(*o)->0 && r->Ok_0@.len() >= 1,
        r is Err ==> r->Err_0@ == SpecError::InvalidBeaconNodeUrl(spec_beacon_raw(*o)),
{
    match o.beacon_nodes.as_ref() {
        Some(s) => match parse_url_list(s.as_str()) {
            Some(v) => {
                proof {
                    crate::strutil::lemma_split_len(s@, ',');
                }
                Ok(v)
            },
            None => Err(ConfigError::InvalidBeaconNodeUrl(s.clone())),
        },
        None => match o.beacon_node.as_ref() {
            Some(s) => match parse_url(s.as_str()) {
                Some(u) => {
                    let mut v: Vec<String> = Vec::new();
                    v.push(u);
                    proof {
                        assert(v.deep_view() =~= spec_beacon_nodes(*o)->0);
                    }
                    Ok(v)
                },
                None => Err(ConfigError::InvalidBeaconNodeUrl(s.clone())),
            },
            None => match o.server.as_ref() {
                Some(s) => match parse_url(s.as_str()) {
                    Some(u) => {
                        let mut v: Vec<String> = Vec::new();
                        v.push(u);
                        proof {
                            assert(v.deep_view() =~= spec_beacon_nodes(*o)->0);
                        }
                        Ok(v)
                    },
                    None => Err(ConfigError::InvalidBeaconNodeUrl(s.clone())),
                },
                None => {
                    let mut v: Vec<String> = Vec::new();
                    v.push(String::from_str("http://localhost:5052/"));
                    proof {
                        assert(v.deep_view() =~= seq![spec_default_beacon_node()]);
                    }
                    Ok(v)
                },
            },
        },
    }
}

/// Resolves the proposer-node endpoints.
fn resolve_proposer_nodes(o: &CliOverrides) -> (r: Result<Vec<String>, ConfigError>)
    ensures
        r is Ok <==> spec_proposer_nodes(*o) is Some,
        r is Ok ==> r->Ok_0.deep_view() == spec_proposer_nodes(*o)->0,
        r is Err ==> r->Err_0@ == SpecError::InvalidProposerNodeUrl(o.proposer_nodes->0@),
{
    match o.proposer_nodes.as_ref() {
        Some(s) => match parse_url_list(s.as_str()) {
            Some(v) => Ok(v),
            None => Err(ConfigError::InvalidProposerNodeUrl(s.clone())),
        },
        None => {
            let v: Vec<String> = Vec::new();
            proof {
                assert(v.deep_view() =~= spec_proposer_nodes(*o)->0);
            }
            Ok(v)
        },
    }
}

/// Resolves the HTTP API sub-configuration, enforcing that a
/// listen-address override carries the unencrypted-transport
/// acknowledgment.
fn resolve_http_api(o: &CliOverrides) -> (r: Result<HttpApiConfig, ConfigError>)
    ensures
        r is Ok <==> http_api_err(*o) is None,
        r is Err ==> r->Err_0@ == http_api_err(*o)->0,
        r is Ok ==> {
            let c = r->Ok_0;
            &&& c.enabled == o.http
            &&& c.listen_addr == (match o.http_address {
                Some(a) => ip_of(a@)->0,
                None => IpAddress::V4(127, 0, 0, 1),
            })
            &&& c.listen_port as int == (match o.http_port {
                Some(p) => dec_str_val(p@),
                None => 5062,
            })
            &&& opt_str_matches(c.allow_origin, o.http_allow_origin)
        },
{
    let listen_addr: IpAddress = match o.http_address.as_ref() {
        Some(a) => {
            if !o.unencrypted_http_transport {
                return Err(ConfigError::HttpAddressRequiresAck);
            }
            match parse_ip(a.as_str()) {
                Some(ip) => ip,
                None => {
                    return Err(ConfigError::InvalidHttpAddress(a.clone()));
                },
            }
        },
        None => IpAddress::V4(127, 0, 0, 1),
    };
    let listen_port: u16 = match o.http_port.as_ref() {
        Some(p) => match parse_u64_str(p.as_str()) {
            Some(v) => {
                if v > 65535 {
                    return Err(ConfigError::InvalidHttpPort(p.clone()));
                }
                v as u16
            },
            None => {
                return Err(ConfigError::InvalidHttpPort(p.clone()));
            },
        },
        None => 5062,
    };
    let allow_origin: Option<String> = match o.http_allow_origin.as_ref() {
        Some(s) => {
            if !header_value_ok(s.as_str()) {
                return Err(ConfigError::InvalidHttpAllowOrigin(s.clone()));
            }
            Some(s.clone())
        },
        None => None,
    };
    Ok(HttpApiConfig { enabled: o.http, listen_addr, listen_port, allow_origin })
}

/// Resolves the metrics-server sub-configuration.
fn resolve_metrics(o: &CliOverrides) -> (r: Result<HttpMetricsConfig, ConfigError>)
    ensures
        r is Ok <==> metrics_err(*o) is None,
        r is Err ==> r->Err_0@ == metrics_err(*o)->0,
        r is Ok ==> {
            let c = r->Ok_0;
            &&& c.enabled == o.metrics
            &&& c.listen_addr == (match o.metrics_address {
                Some(a) => ip_of(a@)->0,
                None => IpAddress::V4(127, 0, 0, 1),
            })
            &&& c.listen_port as int == (match o.metrics_port {
                Some(p) => dec_str_val(p@),
                None => 5064,
            })
            &&& opt_str_matches(c.allow_origin, o.metrics_allow_origin)
            &&& c.allocator_metrics_enabled == !o.disable_malloc_tuning
        },
{
    let listen_addr: IpAddress = match o.metrics_address.as_ref() {
        Some(a) => match parse_ip(a.as_str()) {
            Some(ip) => ip,
            None => {
                return Err(ConfigError::InvalidMetricsAddress(a.clone()));
            },
        },
        None => IpAddress::V4(127, 0, 0, 1),
    };
    let listen_port: u16 = match o.metrics_port.as_ref() {
        Some(p) => match parse_u64_str(p.as_str()) {
            Some(v) => {
                if v > 65535 {
                    return Err(ConfigError::InvalidMetricsPort(p.clone()));
                }
                v as u16
            },
            None => {
                return Err(ConfigError::InvalidMetricsPort(p.clone()));
            },
        },
        None => 5064,
    };
    let allow_origin: Option<String> = match o.metrics_allow_origin.as_ref() {
        Some(s) => {
            if !header_value_ok(s.as_str()) {
                return Err(ConfigError::InvalidMetricsAllowOrigin(s.clone()));
            }
            Some(s.clone())
        },
        None => None,
    };
    Ok(HttpMetricsConfig {
        enabled: o.metrics,
        listen_addr,
        listen_port,
        allow_origin,
        allocator_metrics_enabled: !o.disable_malloc_tuning,
    })
}

/// Resolves the monitoring sub-configuration, present only when an
/// endpoint was supplied.
fn resolve_monitoring(o: &CliOverrides) -> (r: Result<Option<MonitoringApiConfig>, ConfigError>)
    ensures
        r is Ok <==> monitoring_err(*o) is None,
        r is Err ==> r->Err_0@ == monitoring_err(*o)->0,
        r is Ok ==> (match o.monitoring_endpoint {
            Some(e) => {
                &&& r->Ok_0 is Some
                &&& r->Ok_0->0.monitoring_endpoint@ == e@
                &&& (match o.monitoring_endpoint_period {
                    Some(p) => r->Ok_0->0.update_period_secs is Some
                        && r->Ok_0->0.update_period_secs->0 as int == dec_str_val(p@),
                    None => r->Ok_0->0.update_period_secs is None,
                })
            },
            None => r->Ok_0 is None,
        }),
{
    match o.monitoring_endpoint.as_ref() {
        Some(e) => {
            let update_period_secs: Option<u64> = match o.monitoring_endpoint_period.as_ref() {
                Some(p) => match parse_u64_str(p.as_str()) {
                    Some(v) => Some(v),
                    None => {
                        return Err(ConfigError::InvalidMonitoringPeriod(p.clone()));
                    },
                },
                None => None,
            };
            Ok(Some(MonitoringApiConfig { monitoring_endpoint: e.clone(), update_period_secs }))
        },
        None => Ok(None),
    }
}

/// Parses an optional decimal field; on failure hands back the offending
/// text for the caller's error.
fn parse_opt_u64(v: &Option<String>) -> (r: Result<Option<u64>, String>)
    ensures
        r is Ok <==> (v is None || dec_str_ok(v->0@, u64::MAX as int)),
        r is Ok ==> (match *v {
            Some(_) => r->Ok_0 is Some && r->Ok_0->0 as int == dec_str_val(v->0@),
            None => r->Ok_0 is None,
        }),
        r is Err ==> r->Err_0@ == v->0@,
{
    match v.as_ref() {
        Some(s) => match parse_u64_str(s.as_str()) {
            Some(x) => Ok(Some(x)),
            None => Err(s.clone()),
        },
        None => Ok(None),
    }
}

/// Resolves the registration batch size: positive, in range, defaulting
/// to 500.
fn resolve_batch_size(o: &CliOverrides) -> (r: Result<usize, ConfigError>)
    ensures
        r is Ok <==> batch_err(*o) is None,
        r is Err ==> r->Err_0@ == batch_err(*o)->0,
        r is Ok ==> r->Ok_0 as int == (match o.validator_registration_batch_size {
            Some(s) => dec_str_val(s@),
            None => 500,
        }),
        r is Ok ==> r->Ok_0 > 0,
{
    match o.validator_registration_batch_size.as_ref() {
        Some(s) => match parse_u64_str(s.as_str()) {
            Some(v) => {
                if v > usize::MAX as u64 {
                    return Err(ConfigError::InvalidBatchSize(s.clone()));
                }
                if v == 0 {
                    return Err(ConfigError::BatchSizeZero);
                }
                Ok(v as usize)
            },
            None => Err(ConfigError::InvalidBatchSize(s.clone())),
        },
        None => Ok(500),
    }
}

impl Config {
    /// Resolves the configuration from the supplied overrides over the
    /// platform context: the baseline with every override applied in
    /// order, validated, with one warning per deprecated input form.
    ///
    /// Succeeds exactly when no override is rejected; on failure the error
    /// is the first one resolution meets.
    #[verifier::rlimit(100)]
    #[verifier::spinoff_prover]
    pub fn from_cli(o: &CliOverrides, ctx: &PlatformContext) -> (r: Result<Resolved, ConfigError>)
        ensures
            r is Ok <==> first_error(*o) is None,
            r is Ok ==> resolves_to(*o, *ctx, r->Ok_0.config, r->Ok_0.warnings@),
            r is Ok ==> config_wf(r->Ok_0.config),
            r is Err ==> first_error(*o) is Some && r->Err_0@ == first_error(*o)->0,
    {
        let warnings = build_warnings(o);
        let validator_dir = resolve_validator_dir(o, ctx);
        let secrets_dir = resolve_secrets_dir(o, ctx);

        let beacon_nodes: Vec<String> = match resolve_beacon_nodes(o) {
            Ok(v) => v,
            Err(e) => {
                return Err(e);
            },
        };
        let proposer_nodes: Vec<String> = match resolve_proposer_nodes(o) {
            Ok(v) => v,
            Err(e) => {
                return Err(e);
            },
        };

        let graffiti_file: Option<String> = match o.graffiti_file.as_ref() {
            Some(s) => Some(s.clone()),
            None => None,
        };
        let graffiti: Option<Graffiti> = match o.graffiti.as_ref() {
            Some(g) => match make_graffiti(g.as_str()) {
                Some(v) => Some(v),
                None => {
                    return Err(ConfigError::GraffitiTooLong);
                },
            },
            None => None,
        };
        let fee_recipient: Option<Address> = match o.suggested_fee_recipient.as_ref() {
            Some(a) => match parse_address(a.as_str()) {
                Some(v) => Some(v),
                None => {
                    return Err(ConfigError::InvalidFeeRecipient(a.clone()));
                },
            },
            None => None,
        };
        let beacon_nodes_tls_certs: Option<Vec<String>> = match o.beacon_nodes_tls_certs.as_ref() {
            Some(s) => Some(split_to_strings(s.as_str())),
            None => None,
        };

        let http_api: HttpApiConfig = match resolve_http_api(o) {
            Ok(c) => c,
            Err(e) => {
                return Err(e);
            },
        };
        let http_metrics: HttpMetricsConfig = match resolve_metrics(o) {
            Ok(c) => c,
            Err(e) => {
                return Err(e);
            },
        };
        let monitoring_api: Option<MonitoringApiConfig> = match resolve_monitoring(o) {
            Ok(c) => c,
            Err(e) => {
                return Err(e);
            },
        };

        let gas_limit: Option<u64> = match parse_opt_u64(&o.gas_limit) {
            Ok(v) => v,
            Err(s) => {
                return Err(ConfigError::InvalidGasLimit(s));
            },
        };
        let builder_registration_timestamp_override: Option<u64> = match parse_opt_u64(
            &o.builder_registration_timestamp_override,
        ) {
            Ok(v) => v,
            Err(s) => {
                return Err(ConfigError::InvalidRegistrationTimestamp(s));
            },
        };

        let enable_latency_measurement_service: bool = match o
            .latency_measurement_service
            .as_ref() {
            Some(s) => match parse_bool_str(s.as_str()) {
                Some(b) => b,
                None => {
                    return Err(ConfigError::InvalidLatencyToggle(s.clone()));
                },
            },
            None => true,
        };

        let validator_registration_batch_size: usize = match resolve_batch_size(o) {
            Ok(v) => v,
            Err(e) => {
                return Err(e);
            },
        };

        let block_delay_millis: Option<u64> = match parse_opt_u64(&o.block_delay_ms) {
            Ok(v) => v,
            Err(s) => {
                return Err(ConfigError::InvalidBlockDelay(s));
            },
        };

        let config = Config {
            validator_dir,
            secrets_dir,
            beacon_nodes,
            proposer_nodes,
            allow_unsynced_beacon_node: false,
            disable_auto_discover: o.disable_auto_discover,
            init_slashing_protection: o.init_slashing_protection,
            use_long_timeouts: o.use_long_timeouts,
            graffiti,
            graffiti_file,
            fee_recipient,
            http_api,
            http_metrics,
            monitoring_api,
            enable_doppelganger_protection: o.enable_doppelganger_protection,
            enable_high_validator_count_metrics: o.enable_high_validator_count_metrics,
            builder_proposals: o.builder_proposals,
            builder_registration_timestamp_override,
            gas_limit,
            beacon_nodes_tls_certs,
            block_delay_millis,
            disable_run_on_all: o.disable_run_on_all,
            enable_latency_measurement_service,
            validator_registration_batch_size,
        };
        Ok(Resolved { config, warnings })
    }
}

impl Default for Config {
    /// The baseline with no home directory known: paths fall back to the
    /// working directory.
    fn default() -> (r: Config)
        ensures
            r.beacon_nodes.deep_view() == seq![spec_default_beacon_node()],
            r.validator_registration_batch_size == 500,
            r.enable_latency_measurement_service,
            config_wf(r),
    {
        Config::default_with(&PlatformContext { home_dir: None })
    }
}

} // verus!
