use jute::backend::wire_protocol::driver_websocket::{authorization, subprotocol};
use jute::backend::wire_protocol::driver_zeromq::{endpoint, to_hex_lower};
use jute::backend::wire_protocol::{
    from_ws_payload, from_zmq_payload, sign_message, split_ws_payload, to_ws_payload,
    to_zmq_payload, KernelProtocolVersion, WireMessage,
};
use jute::text::{append_decimal, str_eq};

fn sample() -> WireMessage {
    WireMessage {
        header: b"{\"msg_id\":\"m-1\"}".to_vec(),
        parent_header: b"null".to_vec(),
        content: b"{\"code\":\"1+1\"}".to_vec(),
        buffers: vec![vec![1, 2, 3], vec![], vec![0xff]],
    }
}

fn le(n: u64) -> Vec<u8> {
    n.to_le_bytes().to_vec()
}

#[test]
fn ws_frame_has_the_documented_layout() {
    let msg = WireMessage {
        header: b"H".to_vec(),
        parent_header: b"PP".to_vec(),
        content: b"CCC".to_vec(),
        buffers: vec![b"BBBB".to_vec()],
    };
    let payload = to_ws_payload(&msg, "shell").unwrap();
    let mut expected = Vec::new();
    expected.extend(le(6));
    // The table takes 8 * 7 = 56 bytes.
    expected.extend(le(56)); // channel "shell"
    expected.extend(le(61)); // header
    expected.extend(le(62)); // parent header
    expected.extend(le(64)); // metadata "{}"
    expected.extend(le(66)); // content
    expected.extend(le(69)); // buffer 0
    expected.extend(b"shellHPP{}CCCBBBB");
    assert_eq!(payload, expected);
    assert_eq!(payload.len(), 73);
}

#[test]
fn ws_round_trip_gives_back_message_and_channel() {
    let msg = sample();
    for channel in ["shell", "control", "iopub", "stdin", "", "canal-é"] {
        let payload = to_ws_payload(&msg, channel).unwrap();
        let (back, name) = from_ws_payload(&payload).unwrap();
        assert_eq!(back, msg);
        assert_eq!(name, channel);
    }
}

#[test]
fn ws_round_trip_without_buffers() {
    let msg = WireMessage {
        header: b"{}".to_vec(),
        parent_header: b"{}".to_vec(),
        content: b"[]".to_vec(),
        buffers: Vec::new(),
    };
    let payload = to_ws_payload(&msg, "iopub").unwrap();
    assert_eq!(&payload[0..8], &le(5)[..]);
    assert_eq!(from_ws_payload(&payload), Some((msg, "iopub".to_string())));
}

#[test]
fn ws_offsets_never_decrease_and_stay_inside() {
    let payload = to_ws_payload(&sample(), "shell").unwrap();
    let count = u64::from_le_bytes(payload[0..8].try_into().unwrap()) as usize;
    assert_eq!(count, 8);
    let mut last = 0u64;
    for i in 0..count {
        let at = 8 * (i + 1);
        let offset = u64::from_le_bytes(payload[at..at + 8].try_into().unwrap());
        assert!(last <= offset);
        assert!(offset as usize <= payload.len());
        last = offset;
    }
}

#[test]
fn ws_rejects_short_and_truncated_payloads() {
    assert_eq!(from_ws_payload(&[]), None);
    assert_eq!(from_ws_payload(&[5, 0, 0]), None);
    // Announces five offsets but holds no table.
    assert_eq!(from_ws_payload(&le(5)), None);
    let payload = to_ws_payload(&sample(), "shell").unwrap();
    // Cut inside the table.
    assert_eq!(from_ws_payload(&payload[..40]), None);
    // Cut inside the parts: the last offsets point behind the end.
    assert_eq!(from_ws_payload(&payload[..payload.len() - 3]), None);
}

#[test]
fn ws_rejects_fewer_than_five_offsets() {
    let mut payload = Vec::new();
    payload.extend(le(4));
    for _ in 0..4 {
        payload.extend(le(40));
    }
    assert_eq!(from_ws_payload(&payload), None);
}

#[test]
fn ws_rejects_a_huge_offset_count_without_allocating() {
    let mut payload = Vec::new();
    payload.extend(le(u64::MAX));
    payload.extend(vec![0u8; 64]);
    assert_eq!(from_ws_payload(&payload), None);
    let mut payload = Vec::new();
    payload.extend(le(1 << 60));
    payload.extend(vec![0u8; 64]);
    assert_eq!(from_ws_payload(&payload), None);
}

#[test]
fn ws_rejects_offsets_that_decrease_or_leave_the_payload() {
    let good = to_ws_payload(&sample(), "shell").unwrap();
    assert!(from_ws_payload(&good).is_some());

    // Entry 2 smaller than entry 1.
    let mut bad = good.clone();
    bad[24..32].copy_from_slice(&le(0));
    assert_eq!(from_ws_payload(&bad), None);

    // Entry 4 behind the end of the payload.
    let mut bad = good.clone();
    bad[40..48].copy_from_slice(&le(good.len() as u64 + 1));
    assert_eq!(from_ws_payload(&bad), None);

    // Entry 4 far beyond anything addressable.
    let mut bad = good.clone();
    bad[40..48].copy_from_slice(&le(u64::MAX));
    assert_eq!(from_ws_payload(&bad), None);
}

#[test]
fn ws_rejects_a_channel_that_is_not_utf8() {
    let msg = sample();
    let mut payload = to_ws_payload(&msg, "shell").unwrap();
    let start = 8 * 9;
    payload[start] = 0xff;
    assert_eq!(from_ws_payload(&payload), None);
}

#[test]
fn ws_skips_the_metadata_part() {
    let msg = sample();
    let payload = to_ws_payload(&msg, "shell").unwrap();
    let at = u64::from_le_bytes(payload[32..40].try_into().unwrap()) as usize;
    assert_eq!(&payload[at..at + 2], b"{}");
    let mut other = payload.clone();
    other[at] = b'[';
    other[at + 1] = b']';
    assert_eq!(from_ws_payload(&other), Some((msg, "shell".to_string())));
}

#[test]
fn hex_is_lowercase_two_digits_per_byte() {
    assert_eq!(to_hex_lower(&[]), b"".to_vec());
    assert_eq!(to_hex_lower(&[0x00, 0x0f, 0xa0, 0xff, 0x9c]), b"000fa0ff9c".to_vec());
}

#[test]
fn signature_is_hmac_sha256_in_hex() {
    // A test vector of RFC 4231, with the key `Jefe`.
    let parts = vec![b"what do ya want ".to_vec(), b"for nothing?".to_vec()];
    let digits = sign_message("Jefe", &parts);
    assert_eq!(
        String::from_utf8(digits).unwrap(),
        "5bdcc146bf60754e6a042426089575c75a003f089d2739839dec58b964ec3843"
    );
    // The frames are signed joined end to end, however they are cut.
    let whole = vec![b"what do ya want for nothing?".to_vec()];
    assert_eq!(sign_message("Jefe", &whole), sign_message("Jefe", &parts));
    // Nothing to sign still gives a tag.
    assert_eq!(
        String::from_utf8(sign_message("key", &[])).unwrap(),
        "5d5d139563c95b5967b9bd9a8c9b233a9dedb45072794cd232dc1b74832607d0"
    );
}

#[test]
fn zmq_frames_have_the_documented_order() {
    let msg = sample();
    let frames = to_zmq_payload(&msg, "secret");
    assert_eq!(frames.len(), 9);
    assert_eq!(frames[0], b"<IDS|MSG>".to_vec());
    assert_eq!(frames[1], sign_message("secret", &frames[2..]));
    assert_eq!(frames[1].len(), 64);
    assert_eq!(frames[2], msg.header);
    assert_eq!(frames[3], msg.parent_header);
    assert_eq!(frames[4], b"{}".to_vec());
    assert_eq!(frames[5], msg.content);
    assert_eq!(frames[6..].to_vec(), msg.buffers);
}

#[test]
fn zmq_round_trip_under_the_same_key() {
    let msg = sample();
    let frames = to_zmq_payload(&msg, "0b8c9a34-0000-4000-8000-000000000000");
    assert_eq!(from_zmq_payload(&frames, "0b8c9a34-0000-4000-8000-000000000000"), Some(msg));
}

#[test]
fn zmq_rejects_another_key() {
    let frames = to_zmq_payload(&sample(), "one key");
    assert_eq!(from_zmq_payload(&frames, "another key"), None);
}

#[test]
fn zmq_rejects_every_single_bit_flip() {
    let key = "signing key";
    let frames = to_zmq_payload(&sample(), key);
    assert!(from_zmq_payload(&frames, key).is_some());
    for f in 0..frames.len() {
        for b in 0..frames[f].len() {
            for bit in 0..8 {
                let mut altered = frames.clone();
                altered[f][b] ^= 1 << bit;
                assert_eq!(from_zmq_payload(&altered, key), None, "frame {f} byte {b} bit {bit}");
            }
        }
    }
}

#[test]
fn zmq_skips_routing_frames_and_metadata() {
    let msg = sample();
    let mut frames = vec![b"identity".to_vec(), Vec::new()];
    frames.extend(to_zmq_payload(&msg, "k"));
    assert_eq!(from_zmq_payload(&frames, "k"), Some(msg));
}

#[test]
fn zmq_signature_covers_the_metadata_that_arrived() {
    let key = "k";
    let header = b"{\"h\":1}".to_vec();
    let parent = b"{}".to_vec();
    let metadata = b"{\"m\":true}".to_vec();
    let content = b"{\"c\":2}".to_vec();
    let signed = vec![header.clone(), parent.clone(), metadata.clone(), content.clone()];
    let mut frames = vec![b"<IDS|MSG>".to_vec(), sign_message(key, &signed)];
    frames.extend(signed);
    let msg = from_zmq_payload(&frames, key).unwrap();
    assert_eq!(msg.header, header);
    assert_eq!(msg.parent_header, parent);
    assert_eq!(msg.content, content);
    assert!(msg.buffers.is_empty());
}

#[test]
fn zmq_rejects_frames_without_delimiter_or_too_few() {
    let key = "k";
    assert_eq!(from_zmq_payload(&Vec::new(), key), None);
    let frames = to_zmq_payload(&sample(), key);
    // No delimiter at all.
    assert_eq!(from_zmq_payload(&frames[1..].to_vec(), key), None);
    // The delimiter and fewer than five frames behind it.
    for n in 1..6 {
        assert_eq!(from_zmq_payload(&frames[..n].to_vec(), key), None);
    }
    // Only the delimiter, as the last of many frames.
    let lonely = vec![b"a".to_vec(), b"b".to_vec(), b"<IDS|MSG>".to_vec()];
    assert_eq!(from_zmq_payload(&lonely, key), None);
}

#[test]
fn zmq_takes_the_first_delimiter() {
    let key = "k";
    let inner = to_zmq_payload(&sample(), key);
    // A message whose buffers hold a delimiter is still read from the first one.
    let msg = WireMessage {
        header: b"{}".to_vec(),
        parent_header: b"null".to_vec(),
        content: b"{}".to_vec(),
        buffers: inner.clone(),
    };
    let frames = to_zmq_payload(&msg, key);
    assert_eq!(from_zmq_payload(&frames, key), Some(msg));
}

#[test]
fn zmq_endpoints_are_local_tcp_addresses() {
    assert_eq!(endpoint(0), "tcp://127.0.0.1:0");
    assert_eq!(endpoint(7), "tcp://127.0.0.1:7");
    assert_eq!(endpoint(10), "tcp://127.0.0.1:10");
    assert_eq!(endpoint(8080), "tcp://127.0.0.1:8080");
    assert_eq!(endpoint(50100), "tcp://127.0.0.1:50100");
    assert_eq!(endpoint(65535), "tcp://127.0.0.1:65535");
}

#[test]
fn websocket_handshake_values() {
    assert_eq!(subprotocol(), "v1.kernel.websocket.jupyter.org");
    assert_eq!(authorization("abc123"), "token abc123");
    assert_eq!(authorization(""), "token ");
}

#[test]
fn protocol_version_is_5_4() {
    assert_eq!(KernelProtocolVersion::V5_4.wire_name(), "5.4");
    assert_eq!(KernelProtocolVersion::from_wire_name("5.4"), Some(KernelProtocolVersion::V5_4));
    assert_eq!(KernelProtocolVersion::from_wire_name("5.3"), None);
    assert_eq!(KernelProtocolVersion::from_wire_name(""), None);
}

#[test]
fn text_tools() {
    assert!(str_eq("", ""));
    assert!(str_eq("héllo", "héllo"));
    assert!(!str_eq("hello", "hellp"));
    assert!(!str_eq("hello", "hell"));
    let mut out = String::from("n=");
    append_decimal(&mut out, 0);
    out.push(',');
    append_decimal(&mut out, 1234567890123456789);
    out.push(',');
    append_decimal(&mut out, u64::MAX);
    assert_eq!(out, "n=0,1234567890123456789,18446744073709551615");
}

#[test]
fn ws_drops_parts_that_are_not_json() {
    let good = sample();
    assert!(good.holds_json());
    for broken in [&b"{\"msg_id\": \"m-1\", \"msg_type\""[..], b"", b"{} {}", b"nul", b"{'a': 1}"] {
        let mut msg = good.clone();
        msg.header = broken.to_vec();
        assert!(!msg.holds_json());
        let payload = to_ws_payload(&msg, "shell").unwrap();
        // The frame itself is in order, what it carries is not.
        assert_eq!(split_ws_payload(&payload), Some((msg, "shell".to_string())));
        assert_eq!(from_ws_payload(&payload), None);

        let mut msg = good.clone();
        msg.parent_header = broken.to_vec();
        assert_eq!(from_ws_payload(&to_ws_payload(&msg, "shell").unwrap()), None);

        let mut msg = good.clone();
        msg.content = broken.to_vec();
        assert_eq!(from_ws_payload(&to_ws_payload(&msg, "shell").unwrap()), None);
    }
    // Any JSON value passes here, whatever it says.
    let mut msg = good.clone();
    msg.header = b" [1, 2.5e3, \"x\", null, true] ".to_vec();
    assert_eq!(
        from_ws_payload(&to_ws_payload(&msg, "shell").unwrap()),
        Some((msg, "shell".to_string()))
    );
}

#[test]
fn zmq_drops_parts_that_are_not_json() {
    let key = "k";
    let good = sample();
    assert!(from_zmq_payload(&to_zmq_payload(&good, key), key).is_some());
    let mut msg = good.clone();
    msg.header = b"{\"msg_id\": ".to_vec();
    assert_eq!(from_zmq_payload(&to_zmq_payload(&msg, key), key), None);
    let mut msg = good.clone();
    msg.parent_header = Vec::new();
    assert_eq!(from_zmq_payload(&to_zmq_payload(&msg, key), key), None);
    let mut msg = good.clone();
    msg.content = b"{\"a\":}".to_vec();
    assert_eq!(from_zmq_payload(&to_zmq_payload(&msg, key), key), None);
    // Buffers are no JSON and need not be.
    let mut msg = good;
    msg.buffers = vec![b"{\"a\":}".to_vec()];
    assert_eq!(from_zmq_payload(&to_zmq_payload(&msg, key), key), Some(msg));
}
