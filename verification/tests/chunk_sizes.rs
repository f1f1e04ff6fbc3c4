use mcumgr_toolkit::cbor::CborValue;

fn cbor_size(value: &ciborium::Value) -> usize {
    let mut out: Vec<u8> = Vec::new();
    ciborium::into_writer(value, &mut out).unwrap();
    out.len()
}

#[test]
fn file_upload_max_data_chunk_size() {
    for smp_frame_size in 57..100000 {
        let smp_payload_size = smp_frame_size - 8;

        let filename = "test.txt";
        let max_data_size =
            mcumgr_toolkit::fs::file_upload_max_data_chunk_size(smp_frame_size, filename).unwrap();

        let cmd = ciborium::Value::Map(vec![
            (
                ciborium::Value::Text("off".to_string()),
                ciborium::Value::Integer(u64::MAX.into()),
            ),
            (
                ciborium::Value::Text("data".to_string()),
                ciborium::Value::Bytes(vec![0; max_data_size]),
            ),
            (
                ciborium::Value::Text("name".to_string()),
                ciborium::Value::Text(filename.to_string()),
            ),
            (
                ciborium::Value::Text("len".to_string()),
                ciborium::Value::Integer(u64::MAX.into()),
            ),
        ]);
        let actual = cbor_size(&cmd);

        assert!(
            smp_payload_size - 2 <= actual && actual <= smp_payload_size,
            "Failed at frame size {}: actual={}, max={}",
            smp_frame_size,
            actual,
            smp_payload_size,
        );
    }
}

#[test]
fn file_upload_max_data_chunk_size_too_small() {
    for smp_frame_size in 0..57 {
        let filename = "test.txt";
        let max_data_size =
            mcumgr_toolkit::fs::file_upload_max_data_chunk_size(smp_frame_size, filename);

        assert!(max_data_size.is_err());
    }
}

#[test]
fn image_upload_max_data_chunk_size() {
    for smp_frame_size in 101..100000 {
        let smp_payload_size = smp_frame_size - 8;

        let max_data_size =
            mcumgr_toolkit::image::image_upload_max_data_chunk_size(smp_frame_size).unwrap();

        let cmd = ciborium::Value::Map(vec![
            (
                ciborium::Value::Text("image".to_string()),
                ciborium::Value::Integer(u32::MAX.into()),
            ),
            (
                ciborium::Value::Text("len".to_string()),
                ciborium::Value::Integer(u64::MAX.into()),
            ),
            (
                ciborium::Value::Text("off".to_string()),
                ciborium::Value::Integer(u64::MAX.into()),
            ),
            (
                ciborium::Value::Text("sha".to_string()),
                ciborium::Value::Bytes(vec![0xff; 32]),
            ),
            (
                ciborium::Value::Text("data".to_string()),
                ciborium::Value::Bytes(vec![0; max_data_size]),
            ),
            (
                ciborium::Value::Text("upgrade".to_string()),
                ciborium::Value::Bool(true),
            ),
        ]);
        let actual = cbor_size(&cmd);

        assert!(
            smp_payload_size - 2 <= actual && actual <= smp_payload_size,
            "Failed at frame size {}: actual={}, max={}",
            smp_frame_size,
            actual,
            smp_payload_size,
        );
    }
}

#[test]
fn image_upload_max_data_chunk_size_too_small() {
    for smp_frame_size in 0..101 {
        let max_data_size = mcumgr_toolkit::image::image_upload_max_data_chunk_size(smp_frame_size);

        assert!(max_data_size.is_err());
    }
}

#[test]
fn image_chunk_at_default_frame_size() {
    // at the default frame size of 384, a worst-case request with the
    // computed chunk must encode close to the frame's payload capacity
    let max_data_size = mcumgr_toolkit::image::image_upload_max_data_chunk_size(384).unwrap();
    let payload = mcumgr_toolkit::cbor::encode_cbor(&worst_image_upload(max_data_size));
    assert!(374 <= payload.len() && payload.len() <= 376);
}

fn worst_image_upload(data_len: usize) -> CborValue {
    CborValue::Dict(vec![
        ("image".to_string(), CborValue::UInt(u32::MAX as u64)),
        ("len".to_string(), CborValue::UInt(u64::MAX)),
        ("off".to_string(), CborValue::UInt(u64::MAX)),
        ("sha".to_string(), CborValue::Bytes(vec![0xff; 32])),
        ("data".to_string(), CborValue::Bytes(vec![0; data_len])),
        ("upgrade".to_string(), CborValue::Bool(true)),
    ])
}
