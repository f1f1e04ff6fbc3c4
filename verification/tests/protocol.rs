use mcumgr_toolkit::cbor::{encode_cbor, CborValue};
use mcumgr_toolkit::client::{MCUmgrClient, NoProgress};
use mcumgr_toolkit::connection::ScriptedTransport;
use mcumgr_toolkit::errors::{ExecuteError, ReceiveError};
use mcumgr_toolkit::framing::encode_packet;
use mcumgr_toolkit::header::SmpHeader;

fn response_lines(op: u8, seq: u8, group: u16, cmd: u8, payload: &[u8]) -> Vec<Vec<u8>> {
    let header = SmpHeader {
        ver: 1,
        op,
        flags: 0,
        data_length: payload.len() as u16,
        group_id: group,
        sequence_num: seq,
        command_id: cmd,
    };
    let mut packet = header.to_bytes().to_vec();
    packet.extend_from_slice(payload);
    let wire = encode_packet(&packet);
    wire.split(|b| *b == 0x0a)
        .filter(|l| !l.is_empty())
        .map(|l| l.to_vec())
        .collect()
}

fn echo_response(seq: u8, text: &str) -> Vec<Vec<u8>> {
    let payload = encode_cbor(&CborValue::Dict(vec![(
        "r".to_string(),
        CborValue::Text(text.to_string()),
    )]));
    response_lines(1, seq, 0, 0, &payload)
}

fn client_with_script(seq: u8, script: Vec<Vec<u8>>) -> MCUmgrClient<ScriptedTransport> {
    let mut client = MCUmgrClient::new(ScriptedTransport::new(script));
    client.connection.next_seqnum = seq;
    client
}

#[test]
fn echo_exchange() {
    let mut client = client_with_script(42, echo_response(42, "hi"));
    assert_eq!(client.os_echo("hi").unwrap(), "hi");
}

#[test]
fn sequence_mismatch_is_skipped() {
    // a stale response with the wrong sequence number is dropped silently;
    // the next frame with the right one is accepted
    let mut script = echo_response(41, "stale");
    script.extend(echo_response(42, "fresh"));
    let mut client = client_with_script(42, script);
    assert_eq!(client.os_echo("fresh").unwrap(), "fresh");
}

#[test]
fn wrong_group_is_rejected() {
    // a response with the right sequence number but the wrong group fails
    let payload = encode_cbor(&CborValue::Dict(vec![(
        "r".to_string(),
        CborValue::Text("x".to_string()),
    )]));
    let script = response_lines(1, 42, 9, 0, &payload);
    let mut client = client_with_script(42, script);
    match client.os_echo("x") {
        Err(ExecuteError::ReceiveFailed(ReceiveError::UnexpectedResponse)) => {}
        other => panic!("unexpected result: {:?}", other),
    }
}

#[test]
fn wrong_op_is_rejected() {
    // a read response must carry operation one, not three
    let payload = encode_cbor(&CborValue::Dict(vec![(
        "r".to_string(),
        CborValue::Text("x".to_string()),
    )]));
    let script = response_lines(3, 42, 0, 0, &payload);
    let mut client = client_with_script(42, script);
    match client.os_echo("x") {
        Err(ExecuteError::ReceiveFailed(ReceiveError::UnexpectedResponse)) => {}
        other => panic!("unexpected result: {:?}", other),
    }
}

#[test]
fn sequence_wrap_cycles_all_values() {
    // 257 successful exchanges pass through every sequence number once and
    // come back to the start
    let mut client = client_with_script(0, Vec::new());
    client.connection.next_seqnum = 7;
    let first = client.connection.next_seqnum;
    let mut seen = [false; 256];
    for i in 0..257 {
        let seq = client.connection.next_seqnum;
        if i < 256 {
            assert!(!seen[seq as usize]);
            seen[seq as usize] = true;
        } else {
            assert_eq!(seq, first);
        }
        client.connection.transport.script = echo_response(seq, "m");
        client.connection.transport.consumed = 0;
        assert_eq!(client.os_echo("m").unwrap(), "m");
        assert_eq!(client.connection.next_seqnum, seq.wrapping_add(1));
    }
    assert!(seen.iter().all(|s| *s));
}

#[test]
fn short_packet_is_framing_error() {
    // a reassembled packet too short for the 8-byte header is a broken frame
    let packet: Vec<u8> = vec![1, 2, 3, 4];
    let wire = encode_packet(&packet);
    let script: Vec<Vec<u8>> = wire
        .split(|b| *b == 0x0a)
        .filter(|l| !l.is_empty())
        .map(|l| l.to_vec())
        .collect();
    let mut client = client_with_script(9, script);
    match client.connection.execute_raw_command(false, 0, 0, &[]) {
        Err(ExecuteError::ReceiveFailed(ReceiveError::Framing)) => {}
        other => panic!("unexpected result: {:?}", other),
    }
}

#[test]
fn raw_command_decodes_error_envelope() {
    // the raw path still surfaces a device error carried in the envelope
    let payload = encode_cbor(&CborValue::Dict(vec![(
        "rc".to_string(),
        CborValue::UInt(5),
    )]));
    let script = response_lines(1, 33, 3, 1, &payload);
    let mut client = client_with_script(33, script);
    match client.connection.execute_raw_command(false, 3, 1, &[]) {
        Err(ExecuteError::ErrorResponse(mcumgr_toolkit::errors::DeviceError::V1 {
            rc,
            rsn,
        })) => {
            assert_eq!(rc, 5);
            assert!(rsn.is_none());
        }
        other => panic!("unexpected result: {:?}", other),
    }
}

#[test]
fn raw_command_returns_clean_body() {
    let payload = encode_cbor(&CborValue::Dict(vec![(
        "off".to_string(),
        CborValue::UInt(7),
    )]));
    let script = response_lines(1, 34, 3, 1, &payload);
    let mut client = client_with_script(34, script);
    let body = client.connection.execute_raw_command(false, 3, 1, &[]).unwrap();
    assert_eq!(body, payload);
}

#[test]
fn device_error_v1_surfaces() {
    let payload = encode_cbor(&CborValue::Dict(vec![(
        "rc".to_string(),
        CborValue::UInt(8),
    )]));
    let script = response_lines(1, 5, 0, 0, &payload);
    let mut client = client_with_script(5, script);
    match client.os_echo("x") {
        Err(e) => assert!(e.command_not_supported()),
        other => panic!("unexpected result: {:?}", other),
    }
}

#[test]
fn file_download_chunks() {
    // the 133-byte file scenario: the first response reports the length,
    // later responses carry only their offset and data
    let file: Vec<u8> = (0..133u8).collect();
    let seq0: u8 = 10;
    let mut script = Vec::new();
    let chunk = 50usize;
    let mut off = 0usize;
    let mut seq = seq0;
    while off < file.len() {
        let this = chunk.min(file.len() - off);
        let mut fields = vec![
            ("off".to_string(), CborValue::UInt(off as u64)),
            (
                "data".to_string(),
                CborValue::Bytes(file[off..off + this].to_vec()),
            ),
        ];
        if off == 0 {
            fields.push(("len".to_string(), CborValue::UInt(file.len() as u64)));
        }
        let payload = encode_cbor(&CborValue::Dict(fields));
        script.extend(response_lines(1, seq, 8, 0, &payload));
        seq = seq.wrapping_add(1);
        off += this;
    }
    let mut client = client_with_script(seq0, script);
    let mut progress = NoProgress;
    let data = client.fs_file_download("/a/b.txt", &mut progress).unwrap();
    assert_eq!(data, file);
}

#[test]
fn file_download_missing_size() {
    let payload = encode_cbor(&CborValue::Dict(vec![
        ("off".to_string(), CborValue::UInt(0)),
        ("data".to_string(), CborValue::Bytes(vec![1, 2, 3])),
    ]));
    let script = response_lines(1, 3, 8, 0, &payload);
    let mut client = client_with_script(3, script);
    let mut progress = NoProgress;
    match client.fs_file_download("/a", &mut progress) {
        Err(mcumgr_toolkit::errors::FileDownloadError::MissingSize) => {}
        other => panic!("unexpected result: {:?}", other.map(|_| ())),
    }
}

#[test]
fn file_download_overshoot_rejected() {
    // the first chunk carries more bytes than the reported file size
    let payload = encode_cbor(&CborValue::Dict(vec![
        ("off".to_string(), CborValue::UInt(0)),
        ("data".to_string(), CborValue::Bytes(vec![0u8; 12])),
        ("len".to_string(), CborValue::UInt(10)),
    ]));
    let script = response_lines(1, 9, 8, 0, &payload);
    let mut client = client_with_script(9, script);
    let mut progress = NoProgress;
    match client.fs_file_download("/a", &mut progress) {
        Err(mcumgr_toolkit::errors::FileDownloadError::SizeMismatch) => {}
        other => panic!("unexpected result: {:?}", other.map(|_| ())),
    }
}

#[test]
fn file_upload_sends_len_only_first() {
    // two chunks: verify two requests were framed and sent
    let data: Vec<u8> = (0..100u8).collect();
    let seq0: u8 = 77;
    let mut script = Vec::new();
    let mut seq = seq0;
    for off in [0u64, 57, 100] {
        let payload = encode_cbor(&CborValue::Dict(vec![(
            "off".to_string(),
            CborValue::UInt(off),
        )]));
        script.extend(response_lines(3, seq, 8, 0, &payload));
        seq = seq.wrapping_add(1);
    }
    let mut client = client_with_script(seq0, script);
    client.set_frame_size(120);
    let mut progress = NoProgress;
    client.fs_file_upload("/f.bin", &data, &mut progress).unwrap();
    assert!(client.connection.transport.sent.len() >= 2);
}
