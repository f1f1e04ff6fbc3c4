use mcumgr_toolkit::cbor::{encode_cbor, CborValue};
use mcumgr_toolkit::client::MCUmgrClient;
use mcumgr_toolkit::connection::ScriptedTransport;
use mcumgr_toolkit::framing::encode_packet;
use mcumgr_toolkit::fwupdate::{
    firmware_update, FirmwareUpdateError, FirmwareUpdateParams, FirmwareUpdateStep, UpdateProgress,
};
use mcumgr_toolkit::fwupdate::select_active_image;
use mcumgr_toolkit::header::SmpHeader;
use mcumgr_toolkit::image::ImageState;

fn response_lines(op: u8, seq: u8, group: u16, cmd: u8, payload: &[u8]) -> Vec<Vec<u8>> {
    let header = SmpHeader {
        ver: 1,
        op,
        flags: 0,
        data_length: payload.len() as u16,
        group_id: group,
        sequence_num: seq,
        command_id: cmd,
    };
    let mut packet = header.to_bytes().to_vec();
    packet.extend_from_slice(payload);
    let wire = encode_packet(&packet);
    wire.split(|b| *b == 0x0a)
        .filter(|l| !l.is_empty())
        .map(|l| l.to_vec())
        .collect()
}

/// A minimal MCUboot image: 32-byte header, a tiny body, and a TLV trailer
/// holding the given SHA-256 entry.
fn mcuboot_image(hash: &[u8; 32]) -> Vec<u8> {
    let body: Vec<u8> = vec![0xab; 16];
    let mut img = Vec::new();
    img.extend_from_slice(&0x96f3b83du32.to_le_bytes()); // magic
    img.extend_from_slice(&0u32.to_le_bytes()); // load address
    img.extend_from_slice(&32u16.to_le_bytes()); // header size
    img.extend_from_slice(&0u16.to_le_bytes()); // protected TLV size
    img.extend_from_slice(&(body.len() as u32).to_le_bytes()); // image size
    img.extend_from_slice(&0u32.to_le_bytes()); // flags
    img.push(1); // version major
    img.push(2); // version minor
    img.extend_from_slice(&3u16.to_le_bytes()); // version revision
    img.extend_from_slice(&0u32.to_le_bytes()); // version build
    img.extend_from_slice(&0u32.to_le_bytes()); // padding
    assert_eq!(img.len(), 32);
    img.extend_from_slice(&body);
    // TLV trailer: info header, then one SHA-256 entry
    img.extend_from_slice(&0x6907u16.to_le_bytes());
    img.extend_from_slice(&(4u16 + 4 + 32).to_le_bytes());
    img.push(0x10);
    img.push(0);
    img.extend_from_slice(&32u16.to_le_bytes());
    img.extend_from_slice(hash);
    img
}

fn image_state_payload(slots: Vec<(u32, u32, bool, &[u8; 32])>) -> Vec<u8> {
    let images: Vec<CborValue> = slots
        .into_iter()
        .map(|(image, slot, active, hash)| {
            CborValue::Dict(vec![
                ("image".to_string(), CborValue::UInt(image as u64)),
                ("slot".to_string(), CborValue::UInt(slot as u64)),
                ("version".to_string(), CborValue::Text("0.9.9".to_string())),
                ("hash".to_string(), CborValue::Bytes(hash.to_vec())),
                ("bootable".to_string(), CborValue::Bool(true)),
                ("active".to_string(), CborValue::Bool(active)),
            ])
        })
        .collect();
    encode_cbor(&CborValue::Dict(vec![(
        "images".to_string(),
        CborValue::Array(images),
    )]))
}

fn bootloader_payload(name: &str) -> Vec<u8> {
    encode_cbor(&CborValue::Dict(vec![(
        "bootloader".to_string(),
        CborValue::Text(name.to_string()),
    )]))
}

fn empty_map() -> Vec<u8> {
    encode_cbor(&CborValue::Dict(vec![]))
}

struct StepRecorder {
    steps: Vec<String>,
}

impl UpdateProgress for StepRecorder {
    fn on_step(&mut self, step: &FirmwareUpdateStep, progress: Option<(u64, u64)>) -> bool {
        let tag = match step {
            FirmwareUpdateStep::DetectingBootloader => "detect",
            FirmwareUpdateStep::BootloaderFound(_) => "found",
            FirmwareUpdateStep::ParsingFirmwareImage => "parse",
            FirmwareUpdateStep::QueryingDeviceState => "query",
            FirmwareUpdateStep::UpdateInfo { .. } => "info",
            FirmwareUpdateStep::UploadingFirmware => {
                if progress.is_some() {
                    "upload-bytes"
                } else {
                    "upload"
                }
            }
            FirmwareUpdateStep::ActivatingFirmware => "activate",
            FirmwareUpdateStep::TriggeringReboot => "reboot",
        };
        if self.steps.last().map(|s| s.as_str()) != Some(tag) {
            self.steps.push(tag.to_string());
        }
        true
    }
}

fn params() -> FirmwareUpdateParams {
    FirmwareUpdateParams {
        bootloader_type: None,
        skip_reboot: false,
        force_confirm: false,
        upgrade_only: false,
    }
}

#[test]
fn firmware_update_happy_path() {
    let h_old = [0x11u8; 32];
    let h_new = [0x22u8; 32];
    let firmware = mcuboot_image(&h_new);
    let seq0: u8 = 50;
    let mut script = Vec::new();
    // bootloader info, get state, one upload chunk, set state, reset
    script.extend(response_lines(1, seq0, 0, 8, &bootloader_payload("MCUboot")));
    script.extend(response_lines(
        1,
        seq0.wrapping_add(1),
        1,
        0,
        &image_state_payload(vec![(0, 0, true, &h_old)]),
    ));
    script.extend(response_lines(
        3,
        seq0.wrapping_add(2),
        1,
        1,
        &encode_cbor(&CborValue::Dict(vec![(
            "off".to_string(),
            CborValue::UInt(firmware.len() as u64),
        )])),
    ));
    script.extend(response_lines(
        3,
        seq0.wrapping_add(3),
        1,
        0,
        &image_state_payload(vec![(0, 1, false, &h_new)]),
    ));
    script.extend(response_lines(3, seq0.wrapping_add(4), 0, 5, &empty_map()));

    let mut client = MCUmgrClient::new(ScriptedTransport::new(script));
    client.connection.next_seqnum = seq0;
    let mut recorder = StepRecorder { steps: Vec::new() };
    firmware_update(&mut client, &firmware, None, params(), &mut recorder).unwrap();
    assert_eq!(
        recorder.steps,
        vec![
            "detect",
            "found",
            "parse",
            "query",
            "info",
            "upload",
            "upload-bytes",
            "activate",
            "reboot"
        ]
    );
}

#[test]
fn firmware_update_already_installed() {
    // the device already runs the image: the update stops after the state
    // query, issuing no further commands
    let h_new = [0x22u8; 32];
    let firmware = mcuboot_image(&h_new);
    let seq0: u8 = 90;
    let mut script = Vec::new();
    script.extend(response_lines(1, seq0, 0, 8, &bootloader_payload("MCUboot")));
    script.extend(response_lines(
        1,
        seq0.wrapping_add(1),
        1,
        0,
        &image_state_payload(vec![(0, 0, true, &h_new)]),
    ));
    let mut client = MCUmgrClient::new(ScriptedTransport::new(script));
    client.connection.next_seqnum = seq0;
    let mut recorder = StepRecorder { steps: Vec::new() };
    match firmware_update(&mut client, &firmware, None, params(), &mut recorder) {
        Err(FirmwareUpdateError::AlreadyInstalled) => {}
        other => panic!("unexpected result: {:?}", other.map(|_| ())),
    }
    // exactly two requests went out: bootloader info and the state query
    assert_eq!(client.connection.transport.sent.len(), 2);
}

#[test]
fn firmware_update_unsupported_bootloader() {
    let h_new = [0x22u8; 32];
    let firmware = mcuboot_image(&h_new);
    let seq0: u8 = 12;
    let script = response_lines(1, seq0, 0, 8, &bootloader_payload("SomethingElse"));
    let mut client = MCUmgrClient::new(ScriptedTransport::new(script));
    client.connection.next_seqnum = seq0;
    let mut recorder = StepRecorder { steps: Vec::new() };
    match firmware_update(&mut client, &firmware, None, params(), &mut recorder) {
        Err(FirmwareUpdateError::BootloaderNotSupported(name)) => {
            assert_eq!(name, "SomethingElse");
        }
        other => panic!("unexpected result: {:?}", other.map(|_| ())),
    }
}

fn recovery_script(seq0: u8, firmware_len: u64, h_old: &[u8; 32], slot0: &[u8; 32]) -> Vec<Vec<u8>> {
    let mut script = Vec::new();
    script.extend(response_lines(1, seq0, 0, 8, &bootloader_payload("MCUboot")));
    script.extend(response_lines(
        1,
        seq0.wrapping_add(1),
        1,
        0,
        &image_state_payload(vec![(0, 0, true, h_old)]),
    ));
    script.extend(response_lines(
        3,
        seq0.wrapping_add(2),
        1,
        1,
        &encode_cbor(&CborValue::Dict(vec![(
            "off".to_string(),
            CborValue::UInt(firmware_len),
        )])),
    ));
    // activation fails with the version 1 not-supported code
    script.extend(response_lines(
        3,
        seq0.wrapping_add(3),
        1,
        0,
        &encode_cbor(&CborValue::Dict(vec![(
            "rc".to_string(),
            CborValue::UInt(8),
        )])),
    ));
    // the recovery state query
    script.extend(response_lines(
        1,
        seq0.wrapping_add(4),
        1,
        0,
        &image_state_payload(vec![(0, 0, true, slot0)]),
    ));
    script
}

#[test]
fn firmware_update_recovery_branch_succeeds() {
    // activation is refused, but the image already sits in slot zero:
    // the update goes on to the reboot
    let h_old = [0x11u8; 32];
    let h_new = [0x22u8; 32];
    let firmware = mcuboot_image(&h_new);
    let seq0: u8 = 30;
    let mut script = recovery_script(seq0, firmware.len() as u64, &h_old, &h_new);
    script.extend(response_lines(3, seq0.wrapping_add(5), 0, 5, &empty_map()));
    let mut client = MCUmgrClient::new(ScriptedTransport::new(script));
    client.connection.next_seqnum = seq0;
    let mut recorder = StepRecorder { steps: Vec::new() };
    firmware_update(&mut client, &firmware, None, params(), &mut recorder).unwrap();
}

#[test]
fn firmware_update_recovery_branch_fails() {
    // activation is refused and slot zero holds something else: the
    // original activation error surfaces
    let h_old = [0x11u8; 32];
    let h_new = [0x22u8; 32];
    let firmware = mcuboot_image(&h_new);
    let seq0: u8 = 60;
    let script = recovery_script(seq0, firmware.len() as u64, &h_old, &h_old);
    let mut client = MCUmgrClient::new(ScriptedTransport::new(script));
    client.connection.next_seqnum = seq0;
    let mut recorder = StepRecorder { steps: Vec::new() };
    match firmware_update(&mut client, &firmware, None, params(), &mut recorder) {
        Err(FirmwareUpdateError::SetStateFailed(e)) => {
            assert!(e.command_not_supported());
        }
        other => panic!("unexpected result: {:?}", other.map(|_| ())),
    }
}

#[test]
fn mcuboot_image_parses() {
    let hash = [0x5au8; 32];
    let img = mcuboot_image(&hash);
    let info = mcumgr_get_image_info(&img);
    assert_eq!(info.0, "1.2.3");
    assert_eq!(info.1, hash);
}

fn mcumgr_get_image_info(img: &[u8]) -> (String, [u8; 32]) {
    let info = mcumgr_toolkit::mcuboot::get_image_info(img).unwrap();
    (info.version, info.hash)
}

#[test]
fn mcuboot_bad_magic_rejected() {
    let hash = [0x5au8; 32];
    let mut img = mcuboot_image(&hash);
    img[0] ^= 0xff;
    assert!(mcumgr_toolkit::mcuboot::get_image_info(&img).is_none());
}

#[test]
fn mcuboot_protected_tlv_section_walked() {
    let hash = [0x77u8; 32];
    // keep header and body, replace the trailer with two sections: a
    // protected one without a SHA-256 entry, then the regular one with it
    let mut img = mcuboot_image(&[0u8; 32]);
    img.truncate(48);
    img.extend_from_slice(&0x6908u16.to_le_bytes());
    img.extend_from_slice(&10u16.to_le_bytes());
    img.push(0x20);
    img.push(0);
    img.extend_from_slice(&2u16.to_le_bytes());
    img.extend_from_slice(&[1, 2]);
    img.extend_from_slice(&0x6907u16.to_le_bytes());
    img.extend_from_slice(&40u16.to_le_bytes());
    img.push(0x10);
    img.push(0);
    img.extend_from_slice(&32u16.to_le_bytes());
    img.extend_from_slice(&hash);
    let info = mcumgr_toolkit::mcuboot::get_image_info(&img).unwrap();
    assert_eq!(info.hash, hash);
}

#[test]
fn mcuboot_truncated_tlv_rejected() {
    let hash = [0x5au8; 32];
    let mut img = mcuboot_image(&hash);
    // cutting the trailer makes the section's declared length overrun
    img.truncate(img.len() - 1);
    assert!(mcumgr_toolkit::mcuboot::get_image_info(&img).is_none());
}

#[test]
fn select_active_image_prefers_first_active() {
    let entry = |slot: u32, active: bool| ImageState {
        image: 0,
        slot,
        version: "1.0.0".to_string(),
        hash: None,
        bootable: true,
        pending: false,
        confirmed: false,
        active,
        permanent: false,
    };
    // the first active entry wins, even when a slot zero comes before it
    let images = vec![entry(0, false), entry(1, true), entry(2, true)];
    assert_eq!(select_active_image(&images, 0), Some(1));
    // with no active entry, the first slot zero wins
    let images = vec![entry(1, false), entry(0, false), entry(0, false)];
    assert_eq!(select_active_image(&images, 0), Some(1));
    // no active entry and no slot zero: nothing is selected
    let images = vec![entry(1, false), entry(2, false)];
    assert_eq!(select_active_image(&images, 0), None);
}
