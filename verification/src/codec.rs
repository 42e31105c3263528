//! Framing rules for HID reports.
//!
//! Every outbound report buffer carries the Report ID in its first byte
//! (0x00 for devices without numbered reports); the payload follows.  On
//! the inbound side, a backend read fills a caller-sized scratch buffer
//! and reports how many bytes actually arrived, so only that prefix is
//! meaningful.  A feature-report read additionally echoes the Report ID
//! in the first byte, which the caller already knows, so it is stripped.

use vstd::prelude::*;

verus! {

/// A report buffer as it travels to the device: the Report ID byte
/// followed by the payload.
pub open spec fn framed(report_id: u8, payload: Seq<u8>) -> Seq<u8> {
    seq![report_id] + payload
}

/// The payload carried by a framed report: everything after the leading
/// Report ID byte.
pub open spec fn payload_of(report: Seq<u8>) -> Seq<u8> {
    report.subrange(1, report.len() as int)
}

/// Framing a payload and then taking the payload back yields the original
/// bytes: the codec neither strips nor adds bytes on the way out, so a
/// device that echoes a written buffer hands the same payload back.
pub proof fn lemma_frame_payload_round_trip(report_id: u8, payload: Seq<u8>)
    ensures
        payload_of(framed(report_id, payload)) == payload,
{
    assert(payload_of(framed(report_id, payload)) =~= payload);
}

/// A non-empty report equals its own Report ID byte re-framed onto its
/// payload: framing loses nothing either.
pub proof fn lemma_payload_frame_round_trip(report: Seq<u8>)
    requires
        report.len() >= 1,
    ensures
        framed(report[0], payload_of(report)) == report,
{
    assert(framed(report[0], payload_of(report)) =~= report);
}

/// Builds the outbound buffer for a write or feature-report send: the
/// Report ID followed by the payload, verbatim.
pub fn frame_report(report_id: u8, payload: &Vec<u8>) -> (report: Vec<u8>)
    requires
        payload@.len() < usize::MAX,
    ensures
        report@ == framed(report_id, payload@),
{
    let mut report: Vec<u8> = Vec::new();
    report.push(report_id);
    let mut i: usize = 0;
    while i < payload.len()
        invariant
            i <= payload@.len(),
            payload@.len() < usize::MAX,
            report@ == framed(report_id, payload@.subrange(0, i as int)),
        decreases payload@.len() - i,
    {
        report.push(payload[i]);
        i = i + 1;
        proof {
            assert(framed(report_id, payload@.subrange(0, i - 1)).push(payload@[i - 1])
                =~= framed(report_id, payload@.subrange(0, i as int)));
        }
    }
    proof {
        assert(payload@.subrange(0, payload@.len() as int) =~= payload@);
    }
    report
}

/// Builds the two-byte probe buffer a feature-report read hands to the
/// backend: the requested Report ID, then one reserved byte.
pub fn feature_probe(report_id: u8) -> (probe: Vec<u8>)
    ensures
        probe@ == seq![report_id, 1u8],
        probe@.len() == 2,
{
    let mut probe: Vec<u8> = Vec::new();
    probe.push(report_id);
    probe.push(1u8);
    proof {
        assert(probe@ =~= seq![report_id, 1u8]);
    }
    probe
}

/// The zero-filled scratch buffer handed to the backend for a bounded
/// read.
pub fn scratch_buffer(len: usize) -> (buf: Vec<u8>)
    ensures
        buf@ == Seq::new(len as nat, |i: int| 0u8),
{
    let mut buf: Vec<u8> = Vec::new();
    let mut i: usize = 0;
    while i < len
        invariant
            i <= len,
            buf@ == Seq::new(i as nat, |j: int| 0u8),
        decreases len - i,
    {
        buf.push(0u8);
        i = i + 1;
        proof {
            assert(Seq::new((i - 1) as nat, |j: int| 0u8).push(0u8) =~= Seq::new(
                i as nat,
                |j: int| 0u8,
            ));
        }
    }
    buf
}

/// The bytes a read actually received: the first `received` bytes of the
/// scratch buffer, truncated rather than zero-padded.
pub fn received_prefix(buf: &Vec<u8>, received: usize) -> (out: Vec<u8>)
    requires
        received <= buf@.len(),
    ensures
        out@ == buf@.subrange(0, received as int),
{
    let mut out: Vec<u8> = Vec::new();
    let mut i: usize = 0;
    while i < received
        invariant
            i <= received <= buf@.len(),
            out@ == buf@.subrange(0, i as int),
        decreases received - i,
    {
        out.push(buf[i]);
        i = i + 1;
        proof {
            assert(buf@.subrange(0, i - 1).push(buf@[i - 1]) =~= buf@.subrange(0, i as int));
        }
    }
    out
}

/// The payload a feature-report read returns to the caller: of the
/// `received` meaningful bytes in the filled probe buffer, everything
/// after the leading Report ID byte.  The result is always exactly one
/// byte shorter than what the backend reported.
pub fn strip_report_id(buf: &Vec<u8>, received: usize) -> (out: Vec<u8>)
    requires
        1 <= received <= buf@.len(),
    ensures
        out@ == buf@.subrange(1, received as int),
        out@.len() == received - 1,
{
    let mut out: Vec<u8> = Vec::new();
    let mut i: usize = 1;
    while i < received
        invariant
            1 <= i <= received <= buf@.len(),
            out@ == buf@.subrange(1, i as int),
        decreases received - i,
    {
        out.push(buf[i]);
        i = i + 1;
        proof {
            assert(buf@.subrange(1, i - 1).push(buf@[i - 1]) =~= buf@.subrange(1, i as int));
        }
    }
    out
}

} // verus!
