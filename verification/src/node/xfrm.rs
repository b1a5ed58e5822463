//! /proc/net/xfrm_stat: the IPsec transformation error counters.

use vstd::prelude::*;
use vstd::string::StringSliceAdditionalSpecFns;

use super::Error;
use crate::text::{bytes_eq, fields, split_ascii_ws, views};

verus! {

/// The name and description of the counter that a key of the file
/// reports; `None` for a key the collector does not report.
pub open spec fn xfrm_metric_spec(key: Seq<u8>) -> Option<(&'static str, &'static str)> {
    if key == "XfrmInError".spec_bytes() {
        Some(("node_xfrm_in_error_packets_total", "All errors not matched by other"))
    } else if key == "XfrmInBufferError".spec_bytes() {
        Some(("node_xfrm_in_buffer_error_packets_total", "No buffer is left"))
    } else if key == "XfrmInHdrError".spec_bytes() {
        Some(("node_xfrm_in_hdr_error_packets_total", "Header error"))
    } else if key == "XfrmInNoStates".spec_bytes() {
        Some(("node_xfrm_in_no_states_packets_total", "No state is found i.e. Either inbound SPI, address, or IPsec protocol at SA is wrong"))
    } else if key == "XfrmInStateProtoError".spec_bytes() {
        Some(("node_xfrm_in_state_proto_error_packets_total", "Transformation protocol specific error e.g. SA key is wrong"))
    } else if key == "XfrmInStateModeError".spec_bytes() {
        Some(("node_xfrm_in_state_mode_error_packets_total", "Transformation mode specific error"))
    } else if key == "XfrmInStateSeqError".spec_bytes() {
        Some(("node_xfrm_in_state_seq_error_packets_total", "Sequence error i.e. Sequence number is out of window"))
    } else if key == "XfrmInStateExpired".spec_bytes() {
        Some(("node_xfrm_in_state_expired", "State is expired"))
    } else if key == "XfrmInStateInvalid".spec_bytes() {
        Some(("node_xfrm_in_state_invalid_packets_total", "State is invalid"))
    } else if key == "XfrmInTmplMismatch".spec_bytes() {
        Some(("node_xfrm_in_tmpl_mismatch_packets_total", "No matching template for states e.g. Inbound SAs are correct but SP rule is wrong"))
    } else if key == "XfrmInNoPols".spec_bytes() {
        Some(("node_xfrm_in_no_pols_packets_total", "No policy is found for states e.g. Inbound SAs are correct but no SP is found"))
    } else if key == "XfrmInPolBlock".spec_bytes() {
        Some(("node_xfrm_in_pol_block_packets_total", "Policy discards"))
    } else if key == "XfrmInPolError".spec_bytes() {
        Some(("node_xfrm_in_pol_error_packets_total", "Policy error"))
    } else if key == "XfrmOutError".spec_bytes() {
        Some(("node_xfrm_out_error_packets_total", "All errors which is not matched others"))
    } else if key == "XfrmInStateMismatch".spec_bytes() {
        Some(("node_xfrm_in_state_mismatch_packets_total", "State has mismatch option e.g. UDP encapsulation type is mismatch"))
    } else if key == "XfrmOutBundleGenError".spec_bytes() {
        Some(("node_xfrm_out_bundle_gen_error_packets_total", "Bundle generation error"))
    } else if key == "XfrmOutBundleCheckError".spec_bytes() {
        Some(("node_xfrm_out_bundle_check_error_packets_total", "Bundle check error"))
    } else if key == "XfrmOutNoStates".spec_bytes() {
        Some(("node_xfrm_out_no_states_packets_total", "No state is found"))
    } else if key == "XfrmOutStateProtoError".spec_bytes() {
        Some(("node_xfrm_out_state_proto_error_packets_total", "Transformation protocol specific error"))
    } else if key == "XfrmOutStateModeError".spec_bytes() {
        Some(("node_xfrm_out_state_mode_error_packets_total", "Transformation mode specific error"))
    } else if key == "XfrmOutStateSeqError".spec_bytes() {
        Some(("node_xfrm_out_state_seq_error_packets_total", "Sequence error i.e. Sequence number overflow"))
    } else if key == "XfrmOutStateExpired".spec_bytes() {
        Some(("node_xfrm_out_state_expired_packets_total", "State is expired"))
    } else if key == "XfrmOutPolBlock".spec_bytes() {
        Some(("node_xfrm_out_pol_block_packets_total", "Policy discards"))
    } else if key == "XfrmOutPolDead".spec_bytes() {
        Some(("node_xfrm_out_pol_dead_packets_total", "Policy is dead"))
    } else if key == "XfrmOutPolError".spec_bytes() {
        Some(("node_xfrm_out_pol_error_packets_total", "Policy error"))
    } else if key == "XfrmFwdHdrError".spec_bytes() {
        Some(("node_xfrm_fwd_hdr_error_packets_total", "Forward routing of a packet is not allowed"))
    } else if key == "XfrmOutStateInvalid".spec_bytes() {
        Some(("node_xfrm_out_state_invalid_packets_total", "State is invalid, perhaps expired"))
    } else if key == "XfrmAcquireError".spec_bytes() {
        Some(("node_xfrm_acquire_error_packets_total", "State hasn’t been fully acquired before use"))
    } else {
        None
    }
}

/// The name and description of the counter that `key` reports.
pub fn xfrm_metric(key: &[u8]) -> (r: Option<(&'static str, &'static str)>)
    ensures
        r == xfrm_metric_spec(key@),
{
    if bytes_eq(key, "XfrmInError".as_bytes()) {
        Some(("node_xfrm_in_error_packets_total", "All errors not matched by other"))
    } else if bytes_eq(key, "XfrmInBufferError".as_bytes()) {
        Some(("node_xfrm_in_buffer_error_packets_total", "No buffer is left"))
    } else if bytes_eq(key, "XfrmInHdrError".as_bytes()) {
        Some(("node_xfrm_in_hdr_error_packets_total", "Header error"))
    } else if bytes_eq(key, "XfrmInNoStates".as_bytes()) {
        Some(("node_xfrm_in_no_states_packets_total", "No state is found i.e. Either inbound SPI, address, or IPsec protocol at SA is wrong"))
    } else if bytes_eq(key, "XfrmInStateProtoError".as_bytes()) {
        Some(("node_xfrm_in_state_proto_error_packets_total", "Transformation protocol specific error e.g. SA key is wrong"))
    } else if bytes_eq(key, "XfrmInStateModeError".as_bytes()) {
        Some(("node_xfrm_in_state_mode_error_packets_total", "Transformation mode specific error"))
    } else if bytes_eq(key, "XfrmInStateSeqError".as_bytes()) {
        Some(("node_xfrm_in_state_seq_error_packets_total", "Sequence error i.e. Sequence number is out of window"))
    } else if bytes_eq(key, "XfrmInStateExpired".as_bytes()) {
        Some(("node_xfrm_in_state_expired", "State is expired"))
    } else if bytes_eq(key, "XfrmInStateInvalid".as_bytes()) {
        Some(("node_xfrm_in_state_invalid_packets_total", "State is invalid"))
    } else if bytes_eq(key, "XfrmInTmplMismatch".as_bytes()) {
        Some(("node_xfrm_in_tmpl_mismatch_packets_total", "No matching template for states e.g. Inbound SAs are correct but SP rule is wrong"))
    } else if bytes_eq(key, "XfrmInNoPols".as_bytes()) {
        Some(("node_xfrm_in_no_pols_packets_total", "No policy is found for states e.g. Inbound SAs are correct but no SP is found"))
    } else if bytes_eq(key, "XfrmInPolBlock".as_bytes()) {
        Some(("node_xfrm_in_pol_block_packets_total", "Policy discards"))
    } else if bytes_eq(key, "XfrmInPolError".as_bytes()) {
        Some(("node_xfrm_in_pol_error_packets_total", "Policy error"))
    } else if bytes_eq(key, "XfrmOutError".as_bytes()) {
        Some(("node_xfrm_out_error_packets_total", "All errors which is not matched others"))
    } else if bytes_eq(key, "XfrmInStateMismatch".as_bytes()) {
        Some(("node_xfrm_in_state_mismatch_packets_total", "State has mismatch option e.g. UDP encapsulation type is mismatch"))
    } else if bytes_eq(key, "XfrmOutBundleGenError".as_bytes()) {
        Some(("node_xfrm_out_bundle_gen_error_packets_total", "Bundle generation error"))
    } else if bytes_eq(key, "XfrmOutBundleCheckError".as_bytes()) {
        Some(("node_xfrm_out_bundle_check_error_packets_total", "Bundle check error"))
    } else if bytes_eq(key, "XfrmOutNoStates".as_bytes()) {
        Some(("node_xfrm_out_no_states_packets_total", "No state is found"))
    } else if bytes_eq(key, "XfrmOutStateProtoError".as_bytes()) {
        Some(("node_xfrm_out_state_proto_error_packets_total", "Transformation protocol specific error"))
    } else if bytes_eq(key, "XfrmOutStateModeError".as_bytes()) {
        Some(("node_xfrm_out_state_mode_error_packets_total", "Transformation mode specific error"))
    } else if bytes_eq(key, "XfrmOutStateSeqError".as_bytes()) {
        Some(("node_xfrm_out_state_seq_error_packets_total", "Sequence error i.e. Sequence number overflow"))
    } else if bytes_eq(key, "XfrmOutStateExpired".as_bytes()) {
        Some(("node_xfrm_out_state_expired_packets_total", "State is expired"))
    } else if bytes_eq(key, "XfrmOutPolBlock".as_bytes()) {
        Some(("node_xfrm_out_pol_block_packets_total", "Policy discards"))
    } else if bytes_eq(key, "XfrmOutPolDead".as_bytes()) {
        Some(("node_xfrm_out_pol_dead_packets_total", "Policy is dead"))
    } else if bytes_eq(key, "XfrmOutPolError".as_bytes()) {
        Some(("node_xfrm_out_pol_error_packets_total", "Policy error"))
    } else if bytes_eq(key, "XfrmFwdHdrError".as_bytes()) {
        Some(("node_xfrm_fwd_hdr_error_packets_total", "Forward routing of a packet is not allowed"))
    } else if bytes_eq(key, "XfrmOutStateInvalid".as_bytes()) {
        Some(("node_xfrm_out_state_invalid_packets_total", "State is invalid, perhaps expired"))
    } else if bytes_eq(key, "XfrmAcquireError".as_bytes()) {
        Some(("node_xfrm_acquire_error_packets_total", "State hasn’t been fully acquired before use"))
    } else {
        None
    }
}

/// What a line of the file holds: nothing when it is blank, else its first
/// two fields, the key and the value; a key without a value is malformed.
pub open spec fn xfrm_line_spec(line: Seq<u8>) -> Result<Option<(Seq<u8>, Seq<u8>)>, Error> {
    let f = fields(line);
    if f.len() == 0 {
        Ok(None)
    } else if f.len() == 1 {
        Err(Error::Malformed("xfrm_stat"))
    } else {
        Ok(Some((f[0], f[1])))
    }
}

/// Splits a line of the file into its key and value.
pub fn parse_xfrm_line(line: &str) -> (r: Result<Option<(&[u8], &[u8])>, Error>)
    ensures
        match xfrm_line_spec(line.spec_bytes()) {
            Ok(None) => r == Ok::<Option<(&[u8], &[u8])>, Error>(None),
            Ok(Some((k, v))) => r matches Ok(Some((key, value))) && key@ == k && value@ == v,
            Err(e) => r == Err::<Option<(&[u8], &[u8])>, Error>(e),
        },
{
    let parts = split_ascii_ws(line.as_bytes());
    proof {
        assert(views(parts@).len() == parts@.len());
    }
    if parts.len() == 0 {
        Ok(None)
    } else if parts.len() == 1 {
        Err(Error::Malformed("xfrm_stat"))
    } else {
        proof {
            assert(views(parts@)[0] == parts@[0]@);
            assert(views(parts@)[1] == parts@[1]@);
        }
        Ok(Some((parts[0], parts[1])))
    }
}

} // verus!
