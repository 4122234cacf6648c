//! The laws that hold of resolution as a whole, each proved from what the
//! resolution functions state.

use vstd::prelude::*;
use crate::config::{
    Config, CliOverrides, PlatformContext, Warning, resolves_to, first_error,
    spec_beacon_nodes, spec_default_beacon_node, spec_warnings, url_list_of, opt_str_matches,
    batch_err, http_api_err, metrics_err,
};
use crate::external::{url_parse, valid_header_value_char};
use crate::ip::ip_of;
use crate::numeric::dec_str_val;

verus! {

/// Two configurations that agree field for field, comparing text and byte
/// buffers by their contents.
pub open spec fn config_equivalent(a: Config, b: Config) -> bool {
    &&& a.validator_dir@ == b.validator_dir@
    &&& a.secrets_dir@ == b.secrets_dir@
    &&& a.beacon_nodes.deep_view() == b.beacon_nodes.deep_view()
    &&& a.proposer_nodes.deep_view() == b.proposer_nodes.deep_view()
    &&& a.allow_unsynced_beacon_node == b.allow_unsynced_beacon_node
    &&& a.disable_auto_discover == b.disable_auto_discover
    &&& a.init_slashing_protection == b.init_slashing_protection
    &&& a.use_long_timeouts == b.use_long_timeouts
    &&& (a.graffiti is Some <==> b.graffiti is Some)
    &&& (a.graffiti is Some ==> a.graffiti->0.bytes@ == b.graffiti->0.bytes@)
    &&& opt_str_matches(a.graffiti_file, b.graffiti_file)
    &&& (a.fee_recipient is Some <==> b.fee_recipient is Some)
    &&& (a.fee_recipient is Some ==> a.fee_recipient->0.bytes@ == b.fee_recipient->0.bytes@)
    &&& a.http_api.enabled == b.http_api.enabled
    &&& a.http_api.listen_addr == b.http_api.listen_addr
    &&& a.http_api.listen_port == b.http_api.listen_port
    &&& opt_str_matches(a.http_api.allow_origin, b.http_api.allow_origin)
    &&& a.http_metrics.enabled == b.http_metrics.enabled
    &&& a.http_metrics.listen_addr == b.http_metrics.listen_addr
    &&& a.http_metrics.listen_port == b.http_metrics.listen_port
    &&& opt_str_matches(a.http_metrics.allow_origin, b.http_metrics.allow_origin)
    &&& a.http_metrics.allocator_metrics_enabled == b.http_metrics.allocator_metrics_enabled
    &&& (a.monitoring_api is Some <==> b.monitoring_api is Some)
    &&& (a.monitoring_api is Some ==> a.monitoring_api->0.monitoring_endpoint@
        == b.monitoring_api->0.monitoring_endpoint@ && a.monitoring_api->0.update_period_secs
        == b.monitoring_api->0.update_period_secs)
    &&& a.enable_doppelganger_protection == b.enable_doppelganger_protection
    &&& a.enable_high_validator_count_metrics == b.enable_high_validator_count_metrics
    &&& a.builder_proposals == b.builder_proposals
    &&& a.builder_registration_timestamp_override == b.builder_registration_timestamp_override
    &&& a.gas_limit == b.gas_limit
    &&& (a.beacon_nodes_tls_certs is Some <==> b.beacon_nodes_tls_certs is Some)
    &&& (a.beacon_nodes_tls_certs is Some ==> a.beacon_nodes_tls_certs->0.deep_view()
        == b.beacon_nodes_tls_certs->0.deep_view())
    &&& a.block_delay_millis == b.block_delay_millis
    &&& a.disable_run_on_all == b.disable_run_on_all
    &&& a.enable_latency_measurement_service == b.enable_latency_measurement_service
    &&& a.validator_registration_batch_size == b.validator_registration_batch_size
}

/// Resolution is deterministic: two resolutions of the same overrides over
/// the same context agree field for field, and emit the same warnings.
pub proof fn lemma_resolution_deterministic(
    o: CliOverrides,
    ctx: PlatformContext,
    c1: Config,
    w1: Seq<Warning>,
    c2: Config,
    w2: Seq<Warning>,
)
    requires
        resolves_to(o, ctx, c1, w1),
        resolves_to(o, ctx, c2, w2),
    ensures
        config_equivalent(c1, c2),
        w1 == w2,
{
}

/// With no endpoint override of any form, the resolved endpoint list is
/// exactly the one built-in default URL.
pub proof fn lemma_default_endpoint(o: CliOverrides)
    requires
        o.beacon_nodes is None,
        o.beacon_node is None,
        o.server is None,
    ensures
        spec_beacon_nodes(o) == Some(seq![spec_default_beacon_node()]),
{
}

/// The current multi-endpoint override takes precedence: whenever it is
/// present, the resolved endpoints come from it alone, whatever either
/// deprecated single-endpoint alias holds.
pub proof fn lemma_endpoint_precedence(o: CliOverrides)
    requires
        o.beacon_nodes is Some,
    ensures
        spec_beacon_nodes(o) == url_list_of(o.beacon_nodes->0@),
{
}

/// An accepted deprecated endpoint alias still resolves to the endpoint it
/// names: with no current override, the single deprecated form's parsed
/// URL becomes the whole endpoint list.
pub proof fn lemma_deprecated_endpoint_applies(o: CliOverrides)
    requires
        o.beacon_nodes is None,
    ensures
        o.beacon_node is Some && url_parse(o.beacon_node->0@) is Some ==> spec_beacon_nodes(o)
            == Some(seq![url_parse(o.beacon_node->0@)->0]),
        o.beacon_node is None && o.server is Some && url_parse(o.server->0@) is Some
            ==> spec_beacon_nodes(o) == Some(seq![url_parse(o.server->0@)->0]),
{
}

/// A listen-address override without the transport acknowledgment makes
/// resolution fail; with the acknowledgment, a resolved configuration's
/// listen address is exactly the override.
pub proof fn lemma_listen_address_guard(
    o: CliOverrides,
    ctx: PlatformContext,
    c: Config,
    w: Seq<Warning>,
)
    requires
        o.http_address is Some,
    ensures
        !o.unencrypted_http_transport ==> first_error(o) is Some,
        resolves_to(o, ctx, c, w) ==> c.http_api.listen_addr == ip_of(o.http_address->0@)->0,
{
}

/// A batch size written as zero makes resolution fail; an omitted batch
/// size resolves to 500.
pub proof fn lemma_batch_size(o: CliOverrides, ctx: PlatformContext, c: Config, w: Seq<Warning>)
    ensures
        o.validator_registration_batch_size is Some && dec_str_val(
            o.validator_registration_batch_size->0@,
        ) == 0 ==> first_error(o) is Some,
        resolves_to(o, ctx, c, w) && o.validator_registration_batch_size is None
            ==> c.validator_registration_batch_size == 500,
{
    if o.validator_registration_batch_size is Some && dec_str_val(
        o.validator_registration_batch_size->0@,
    ) == 0 {
        assert(batch_err(o) is Some);
    }
}

/// An allow-origin value holding a disallowed character makes resolution
/// itself fail, for the API server and the metrics server alike.
pub proof fn lemma_allow_origin_rejected(o: CliOverrides, i: int)
    ensures
        o.http_allow_origin is Some && 0 <= i < o.http_allow_origin->0@.len()
            && !valid_header_value_char(o.http_allow_origin->0@[i]) ==> first_error(o) is Some,
        o.metrics_allow_origin is Some && 0 <= i < o.metrics_allow_origin->0@.len()
            && !valid_header_value_char(o.metrics_allow_origin->0@[i]) ==> first_error(o) is Some,
{
    if o.http_allow_origin is Some && 0 <= i < o.http_allow_origin->0@.len()
        && !valid_header_value_char(o.http_allow_origin->0@[i]) {
        assert(http_api_err(o) is Some);
    }
    if o.metrics_allow_origin is Some && 0 <= i < o.metrics_allow_origin->0@.len()
        && !valid_header_value_char(o.metrics_allow_origin->0@[i]) {
        assert(metrics_err(o) is Some);
    }
}

/// How often `w` occurs among the warnings.
pub open spec fn warning_count(ws: Seq<Warning>, w: Warning) -> int
    decreases ws.len(),
{
    if ws.len() == 0 {
        0
    } else {
        warning_count(ws.drop_last(), w) + (if ws.last() == w {
            1int
        } else {
            0int
        })
    }
}

proof fn lemma_count_concat(a: Seq<Warning>, b: Seq<Warning>, w: Warning)
    ensures
        warning_count(a + b, w) == warning_count(a, w) + warning_count(b, w),
    decreases b.len(),
{
    if b.len() == 0 {
        assert(a + b =~= a);
    } else {
        assert((a + b).drop_last() =~= a + b.drop_last());
        assert((a + b).last() == b.last());
        lemma_count_concat(a, b.drop_last(), w);
    }
}

proof fn lemma_count_singleton(x: Warning, w: Warning)
    ensures
        warning_count(seq![x], w) == (if x == w {
            1int
        } else {
            0int
        }),
        warning_count(Seq::<Warning>::empty(), w) == 0,
{
    assert(warning_count(Seq::<Warning>::empty(), w) == 0);
    assert(seq![x].len() == 1);
    assert(seq![x].drop_last() =~= Seq::<Warning>::empty());
    assert(seq![x].last() == x);
}

proof fn lemma_count_segments(
    o: CliOverrides,
    w: Warning,
    s1: Seq<Warning>,
    s2: Seq<Warning>,
    s3: Seq<Warning>,
    s4: Seq<Warning>,
    s5: Seq<Warning>,
)
    requires
        spec_warnings(o) == s1 + s2 + s3 + s4 + s5,
        s1 == seq![Warning::DeprecatedBeaconNodeFlag] || s1 == Seq::<Warning>::empty(),
        s2 == seq![Warning::DeprecatedServerFlag] || s2 == Seq::<Warning>::empty(),
        s3 == seq![Warning::DeprecatedDeleteLockfiles] || s3 == Seq::<Warning>::empty(),
        s4 == seq![Warning::DeprecatedAllowUnsynced] || s4 == Seq::<Warning>::empty(),
        s5 == seq![Warning::DeprecatedStrictFeeRecipient] || s5 == Seq::<Warning>::empty(),
    ensures
        warning_count(spec_warnings(o), w) == warning_count(s1, w) + warning_count(s2, w)
            + warning_count(s3, w) + warning_count(s4, w) + warning_count(s5, w),
        warning_count(s1, w) == (if s1 == seq![w] { 1int } else { 0int }),
        warning_count(s2, w) == (if s2 == seq![w] { 1int } else { 0int }),
        warning_count(s3, w) == (if s3 == seq![w] { 1int } else { 0int }),
        warning_count(s4, w) == (if s4 == seq![w] { 1int } else { 0int }),
        warning_count(s5, w) == (if s5 == seq![w] { 1int } else { 0int }),
{
    lemma_count_concat(s1, s2, w);
    lemma_count_concat(s1 + s2, s3, w);
    lemma_count_concat(s1 + s2 + s3, s4, w);
    lemma_count_concat(s1 + s2 + s3 + s4, s5, w);
    lemma_count_singleton(Warning::DeprecatedBeaconNodeFlag, w);
    lemma_count_singleton(Warning::DeprecatedServerFlag, w);
    lemma_count_singleton(Warning::DeprecatedDeleteLockfiles, w);
    lemma_count_singleton(Warning::DeprecatedAllowUnsynced, w);
    lemma_count_singleton(Warning::DeprecatedStrictFeeRecipient, w);
    lemma_count_singleton(w, w);
    assert(seq![w][0] == w);
    assert(seq![w].len() == 1);
    assert(seq![Warning::DeprecatedBeaconNodeFlag][0] == Warning::DeprecatedBeaconNodeFlag);
    assert(seq![Warning::DeprecatedServerFlag][0] == Warning::DeprecatedServerFlag);
    assert(seq![Warning::DeprecatedDeleteLockfiles][0] == Warning::DeprecatedDeleteLockfiles);
    assert(seq![Warning::DeprecatedAllowUnsynced][0] == Warning::DeprecatedAllowUnsynced);
    assert(seq![Warning::DeprecatedStrictFeeRecipient][0] == Warning::DeprecatedStrictFeeRecipient);
}

/// Each deprecated input form present yields its warning exactly once;
/// absent, not at all.  The deprecated endpoint aliases warn only when no
/// current override supersedes them.
pub proof fn lemma_one_warning_each(o: CliOverrides)
    ensures
        warning_count(spec_warnings(o), Warning::DeprecatedBeaconNodeFlag) == (
        if o.beacon_nodes is None && o.beacon_node is Some {
            1int
        } else {
            0int
        }),
        warning_count(spec_warnings(o), Warning::DeprecatedServerFlag) == (
        if o.beacon_nodes is None && o.beacon_node is None && o.server is Some {
            1int
        } else {
            0int
        }),
        warning_count(spec_warnings(o), Warning::DeprecatedDeleteLockfiles) == (
        if o.delete_lockfiles {
            1int
        } else {
            0int
        }),
        warning_count(spec_warnings(o), Warning::DeprecatedAllowUnsynced) == (
        if o.allow_unsynced {
            1int
        } else {
            0int
        }),
        warning_count(spec_warnings(o), Warning::DeprecatedStrictFeeRecipient) == (
        if o.strict_fee_recipient {
            1int
        } else {
            0int
        }),
{
    let s1 = if o.beacon_nodes is None && o.beacon_node is Some {
        seq![Warning::DeprecatedBeaconNodeFlag]
    } else {
        Seq::<Warning>::empty()
    };
    let s2 = if o.beacon_nodes is None && o.beacon_node is None && o.server is Some {
        seq![Warning::DeprecatedServerFlag]
    } else {
        Seq::<Warning>::empty()
    };
    let s3 = if o.delete_lockfiles {
        seq![Warning::DeprecatedDeleteLockfiles]
    } else {
        Seq::<Warning>::empty()
    };
    let s4 = if o.allow_unsynced {
        seq![Warning::DeprecatedAllowUnsynced]
    } else {
        Seq::<Warning>::empty()
    };
    let s5 = if o.strict_fee_recipient {
        seq![Warning::DeprecatedStrictFeeRecipient]
    } else {
        Seq::<Warning>::empty()
    };
    assert(seq![Warning::DeprecatedBeaconNodeFlag][0] == Warning::DeprecatedBeaconNodeFlag);
    assert(seq![Warning::DeprecatedServerFlag][0] == Warning::DeprecatedServerFlag);
    assert(seq![Warning::DeprecatedDeleteLockfiles][0] == Warning::DeprecatedDeleteLockfiles);
    assert(seq![Warning::DeprecatedAllowUnsynced][0] == Warning::DeprecatedAllowUnsynced);
    assert(seq![Warning::DeprecatedStrictFeeRecipient][0] == Warning::DeprecatedStrictFeeRecipient);
    lemma_count_segments(o, Warning::DeprecatedBeaconNodeFlag, s1, s2, s3, s4, s5);
    lemma_count_segments(o, Warning::DeprecatedServerFlag, s1, s2, s3, s4, s5);
    lemma_count_segments(o, Warning::DeprecatedDeleteLockfiles, s1, s2, s3, s4, s5);
    lemma_count_segments(o, Warning::DeprecatedAllowUnsynced, s1, s2, s3, s4, s5);
    lemma_count_segments(o, Warning::DeprecatedStrictFeeRecipient, s1, s2, s3, s4, s5);
}

} // verus!
