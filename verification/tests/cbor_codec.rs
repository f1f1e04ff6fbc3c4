use mcumgr_toolkit::cbor::{encode_cbor, parse_cbor, CborValue};
use mcumgr_toolkit::commands::{decode_error_envelope, McuMgrCommand};
use mcumgr_toolkit::errors::DeviceError;

#[test]
fn echo_wire_request_bytes() {
    // the echo scenario: the request body is a one-entry map
    let cmd = mcumgr_toolkit::os::Echo {
        d: "Hello World!".to_string(),
    };
    let payload = cmd.encode_payload();
    let expected: Vec<u8> = vec![
        0xa1, 0x61, 0x64, 0x6c, 0x48, 0x65, 0x6c, 0x6c, 0x6f, 0x20, 0x57, 0x6f, 0x72, 0x6c, 0x64,
        0x21,
    ];
    assert_eq!(payload, expected);
}

#[test]
fn echo_response_decodes() {
    let response: Vec<u8> = vec![
        0xa1, 0x61, 0x72, 0x6c, 0x48, 0x65, 0x6c, 0x6c, 0x6f, 0x20, 0x57, 0x6f, 0x72, 0x6c, 0x64,
        0x21,
    ];
    let value = parse_cbor(&response).unwrap();
    let decoded = <mcumgr_toolkit::os::Echo as McuMgrCommand>::decode_response(&value).unwrap();
    assert_eq!(decoded.r, "Hello World!");
}

#[test]
fn cbor_roundtrip_nested() {
    let value = CborValue::Dict(vec![
        ("images".to_string(), CborValue::Array(vec![CborValue::Dict(vec![
            ("slot".to_string(), CborValue::UInt(1)),
            ("version".to_string(), CborValue::Text("1.2.3".to_string())),
            ("hash".to_string(), CborValue::Bytes(vec![7; 32])),
            ("active".to_string(), CborValue::Bool(true)),
            ("neg".to_string(), CborValue::NInt(4)),
        ])])),
    ]);
    let bytes = encode_cbor(&value);
    let mut reference: Vec<u8> = Vec::new();
    ciborium::into_writer(
        &ciborium::Value::Map(vec![(
            ciborium::Value::Text("images".to_string()),
            ciborium::Value::Array(vec![ciborium::Value::Map(vec![
                (
                    ciborium::Value::Text("slot".to_string()),
                    ciborium::Value::Integer(1.into()),
                ),
                (
                    ciborium::Value::Text("version".to_string()),
                    ciborium::Value::Text("1.2.3".to_string()),
                ),
                (
                    ciborium::Value::Text("hash".to_string()),
                    ciborium::Value::Bytes(vec![7; 32]),
                ),
                (
                    ciborium::Value::Text("active".to_string()),
                    ciborium::Value::Bool(true),
                ),
                (
                    ciborium::Value::Text("neg".to_string()),
                    ciborium::Value::Integer((-5i64).into()),
                ),
            ])]),
        )]),
        &mut reference,
    )
    .unwrap();
    assert_eq!(bytes, reference);
    let parsed = parse_cbor(&bytes).unwrap();
    assert_eq!(encode_cbor(&parsed), bytes);
}

fn envelope_of(map: CborValue) -> Result<Option<DeviceError>, ()> {
    let bytes = encode_cbor(&map);
    let value = parse_cbor(&bytes).unwrap();
    decode_error_envelope(&value)
}

#[test]
fn error_decoding_cases() {
    // an empty map carries no error
    assert!(matches!(envelope_of(CborValue::Dict(vec![])), Ok(None)));
    // rc of zero is success
    assert!(matches!(
        envelope_of(CborValue::Dict(vec![(
            "rc".to_string(),
            CborValue::UInt(0)
        )])),
        Ok(None)
    ));
    // a nonzero rc is a version 1 error
    match envelope_of(CborValue::Dict(vec![(
        "rc".to_string(),
        CborValue::UInt(3),
    )])) {
        Ok(Some(DeviceError::V1 { rc, rsn })) => {
            assert_eq!(rc, 3);
            assert!(rsn.is_none());
        }
        other => panic!("unexpected envelope: {:?}", other),
    }
    // a reason string is carried along
    match envelope_of(CborValue::Dict(vec![
        ("rc".to_string(), CborValue::UInt(3)),
        ("rsn".to_string(), CborValue::Text("oops".to_string())),
    ])) {
        Ok(Some(DeviceError::V1 { rc, rsn })) => {
            assert_eq!(rc, 3);
            assert_eq!(rsn.as_deref(), Some("oops"));
        }
        other => panic!("unexpected envelope: {:?}", other),
    }
    // an err map is a version 2 error
    match envelope_of(CborValue::Dict(vec![(
        "err".to_string(),
        CborValue::Dict(vec![
            ("group".to_string(), CborValue::UInt(2)),
            ("rc".to_string(), CborValue::UInt(5)),
        ]),
    )])) {
        Ok(Some(DeviceError::V2 { group, rc })) => {
            assert_eq!(group, 2);
            assert_eq!(rc, 5);
        }
        other => panic!("unexpected envelope: {:?}", other),
    }
}

#[test]
fn header_roundtrip() {
    let h = mcumgr_toolkit::header::SmpHeader {
        ver: 1,
        op: 2,
        flags: 0,
        data_length: 513,
        group_id: 63,
        sequence_num: 200,
        command_id: 7,
    };
    let bytes = h.to_bytes();
    assert_eq!(mcumgr_toolkit::header::SmpHeader::from_bytes(bytes), h);
    assert_eq!(bytes[2], 2);
    assert_eq!(bytes[3], 1);
}
