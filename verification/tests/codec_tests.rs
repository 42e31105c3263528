use hidlink::codec::feature_probe;
use hidlink::codec::frame_report;
use hidlink::codec::received_prefix;
use hidlink::codec::scratch_buffer;
use hidlink::codec::strip_report_id;

#[test]
fn frame_report_prepends_report_id() {
    let payload = vec![1u8, 2, 3];
    let framed = frame_report(5, &payload);
    assert_eq!(framed, vec![5u8, 1, 2, 3]);
}

#[test]
fn frame_report_empty_payload_is_id_alone() {
    let payload: Vec<u8> = Vec::new();
    let framed = frame_report(0, &payload);
    assert_eq!(framed, vec![0u8]);
}

#[test]
fn feature_probe_is_id_then_reserved_byte() {
    let probe = feature_probe(9);
    assert_eq!(probe, vec![9u8, 1]);
    assert_eq!(probe.len(), 2);
}

#[test]
fn received_prefix_truncates_to_count() {
    let buf = vec![1u8, 2, 3, 4];
    assert_eq!(received_prefix(&buf, 2), vec![1u8, 2]);
    assert_eq!(received_prefix(&buf, 0), Vec::<u8>::new());
    assert_eq!(received_prefix(&buf, 4), buf);
}

#[test]
fn strip_report_id_drops_exactly_one_byte() {
    let buf = vec![7u8, 8, 9, 0];
    let payload = strip_report_id(&buf, 3);
    assert_eq!(payload, vec![8u8, 9]);
    assert_eq!(payload.len(), 3 - 1);
}

#[test]
fn strip_report_id_of_lone_id_is_empty() {
    let buf = vec![7u8, 1];
    let payload = strip_report_id(&buf, 1);
    assert!(payload.is_empty());
}

#[test]
fn scratch_buffer_is_zero_filled() {
    assert_eq!(scratch_buffer(4), vec![0u8, 0, 0, 0]);
    assert_eq!(scratch_buffer(0), Vec::<u8>::new());
}

#[test]
fn framed_payload_round_trips() {
    let payload = vec![10u8, 20, 30];
    let framed = frame_report(2, &payload);
    let back = strip_report_id(&framed, framed.len());
    assert_eq!(back, payload);
}
