//! The firmware update orchestrator: detect the bootloader, read the new
//! image's version and hash, query the device's slots, upload, activate,
//! and reboot, with a recovery branch for bootloaders that cannot swap.

use vstd::prelude::*;

use crate::client::{MCUmgrClient, TransferProgress};
use crate::connection::Transport;
use crate::errors::{spec_command_not_supported, ExecuteError, ImageUploadError};
use crate::image::ImageState;
use crate::mcuboot::mcuboot_header_ok;
use crate::numfmt::spec_hex_bytes;
use sha2::Digest;

verus! {

/// The bootloaders the orchestrator knows how to drive.
#[derive(Debug, Clone, Copy, PartialEq, Eq, Structural)]
pub enum BootloaderType {
    /// The MCUboot bootloader.
    MCUboot,
}

/// Relies on `sha2::Sha256`: the SHA-256 digest of the input, a function of
/// the bytes alone.
pub uninterp spec fn sha256_of(data: Seq<u8>) -> Seq<u8>;

/// Relies on `sha2::Sha256::digest`: computes the 32-byte SHA-256 digest.
#[verifier::external_body]
pub fn sha256(data: &[u8]) -> (r: [u8; 32])
    ensures
        r@ == sha256_of(data@),
{
    sha2::Sha256::digest(data).into()
}

/// The bootloader a reported name denotes, if a supported one.
pub fn bootloader_type_of(name: &str) -> (r: Option<BootloaderType>)
    ensures
        r is Some <==> name@ == "MCUboot"@,
        r is Some ==> r->0 == BootloaderType::MCUboot,
{
    if crate::cbor::str_eq(name, "MCUboot") {
        Some(BootloaderType::MCUboot)
    } else {
        None
    }
}

/// What a firmware update can fail with.
#[derive(Debug)]
pub enum FirmwareUpdateError {
    /// The progress callback asked to stop.
    ProgressCallbackError,
    /// Asking the device for its bootloader failed.
    BootloaderDetectionFailed(ExecuteError),
    /// The device runs a bootloader this orchestrator cannot drive.
    BootloaderNotSupported(String),
    /// The firmware buffer is not a parseable MCUboot image.
    InvalidMcuBootFirmwareImage,
    /// Reading the image slot states failed.
    GetStateFailed(ExecuteError),
    /// Uploading the image failed.
    ImageUploadFailed(ImageUploadError),
    /// Activating the new image failed.
    SetStateFailed(ExecuteError),
    /// Triggering the reboot failed.
    RebootFailed(ExecuteError),
    /// The device already runs the given firmware.
    AlreadyInstalled,
}

/// Configurable parameters of a firmware update.
#[derive(Debug, Clone, Copy, PartialEq, Eq, Structural)]
pub struct FirmwareUpdateParams {
    /// The bootloader type; detected from the device when absent.
    pub bootloader_type: Option<BootloaderType>,
    /// Do not reboot the device after the update.
    pub skip_reboot: bool,
    /// Confirm the new image directly instead of a test boot.
    pub force_confirm: bool,
    /// Reject downgrades.
    pub upgrade_only: bool,
}

impl Default for FirmwareUpdateParams {
    /// Detect the bootloader, reboot after the update, test-boot the new
    /// image, and allow downgrades.
    fn default() -> (r: FirmwareUpdateParams)
        ensures
            r.bootloader_type is None,
            !r.skip_reboot,
            !r.force_confirm,
            !r.upgrade_only,
    {
        FirmwareUpdateParams {
            bootloader_type: None,
            skip_reboot: false,
            force_confirm: false,
            upgrade_only: false,
        }
    }
}

/// The step a firmware update is currently performing.
#[derive(Debug)]
pub enum FirmwareUpdateStep {
    /// Asking the device which bootloader it runs.
    DetectingBootloader,
    /// The bootloader was found.
    BootloaderFound(BootloaderType),
    /// Reading version and hash from the new image.
    ParsingFirmwareImage,
    /// Reading the device's image slot states.
    QueryingDeviceState,
    /// What the update will do.
    UpdateInfo {
        /// The running version and its hash, when a slot is populated.
        current_version: Option<(String, Option<[u8; 32]>)>,
        /// The new version and its hash.
        new_version: (String, [u8; 32]),
    },
    /// Uploading the new image.
    UploadingFirmware,
    /// Marking the new image for the next boot.
    ActivatingFirmware,
    /// Triggering the reboot into the new image.
    TriggeringReboot,
}

/// Receives update progress; returning false cancels the update.
pub trait UpdateProgress {
    /// Called at every step boundary, and during the upload with the
    /// transferred and total byte counts.
    fn on_step(&mut self, step: &FirmwareUpdateStep, progress: Option<(u64, u64)>) -> bool;
}

/// A progress sink that never cancels.
pub struct NoUpdateProgress;

impl UpdateProgress for NoUpdateProgress {
    fn on_step(&mut self, _step: &FirmwareUpdateStep, _progress: Option<(u64, u64)>) -> (r: bool)
        ensures
            r,
    {
        true
    }
}

/// The smallest index at or after `i` of an entry of the target image that
/// the device reports as active.
pub open spec fn spec_first_active_from(images: Seq<ImageState>, target: u32, i: int) -> Option<
    int,
>
    decreases images.len() - i,
{
    if i < 0 || i >= images.len() {
        None
    } else if images[i].image == target && images[i].active {
        Some(i)
    } else {
        spec_first_active_from(images, target, i + 1)
    }
}

/// The smallest index at or after `i` of an entry of the target image that
/// sits in slot zero.
pub open spec fn spec_first_slot_zero_from(images: Seq<ImageState>, target: u32, i: int) -> Option<
    int,
>
    decreases images.len() - i,
{
    if i < 0 || i >= images.len() {
        None
    } else if images[i].image == target && images[i].slot == 0 {
        Some(i)
    } else {
        spec_first_slot_zero_from(images, target, i + 1)
    }
}

/// The index of the slot the update compares against: the first slot of the
/// target image that is active, or failing that the first in slot zero.
pub open spec fn spec_select_active(images: Seq<ImageState>, target: u32) -> Option<int> {
    match spec_first_active_from(images, target, 0) {
        Some(i) => Some(i),
        None => spec_first_slot_zero_from(images, target, 0),
    }
}

/// Picks the slot the update compares against: the first slot of the target
/// image that is active, or failing that the first in slot zero.
pub fn select_active_image(images: &Vec<ImageState>, target: u32) -> (r: Option<usize>)
    ensures
        ({
            match r {
                Some(i) => spec_select_active(images@, target) == Some(i as int),
                None => spec_select_active(images@, target) is None,
            }
        }),
        r matches Some(i) ==> i < images@.len() && images@[i as int].image == target && (
        images@[i as int].active || images@[i as int].slot == 0),
{
    let mut i: usize = 0;
    while i < images.len()
        invariant
            i <= images@.len(),
            spec_first_active_from(images@, target, 0) == spec_first_active_from(
                images@,
                target,
                i as int,
            ),
        decreases images@.len() - i,
    {
        if images[i].image == target && images[i].active {
            return Some(i);
        }
        i = i + 1;
    }
    let mut j: usize = 0;
    while j < images.len()
        invariant
            j <= images@.len(),
            spec_first_active_from(images@, target, 0) is None,
            spec_first_slot_zero_from(images@, target, 0) == spec_first_slot_zero_from(
                images@,
                target,
                j as int,
            ),
        decreases images@.len() - j,
    {
        if images[j].image == target && images[j].slot == 0 {
            return Some(j);
        }
        j = j + 1;
    }
    None
}

/// Whether the selected slot already runs the new image: its hash is
/// present and equals the new image's hash.
pub open spec fn spec_already_installed(active_hash: Option<[u8; 32]>, new_hash: [u8; 32]) -> bool {
    active_hash matches Some(h) && h@ == new_hash@
}

/// Whether the selected slot already runs the new image.
pub fn already_installed(active_hash: &Option<[u8; 32]>, new_hash: &[u8; 32]) -> (r: bool)
    ensures
        r == spec_already_installed(*active_hash, *new_hash),
{
    match active_hash {
        Some(h) => {
            let mut i: usize = 0;
            while i < 32
                invariant
                    i <= 32,
                    *active_hash == Some(*h),
                    h@.len() == 32 && new_hash@.len() == 32,
                    forall|k: int| 0 <= k < i ==> h@[k] == new_hash@[k],
                decreases 32 - i,
            {
                if h[i] != new_hash[i] {
                    return false;
                }
                i = i + 1;
            }
            proof {
                assert(h@ =~= new_hash@);
            }
            true
        },
        None => false,
    }
}

/// Whether some slot zero of the target image holds the new image's hash:
/// the condition under which a failed activation is forgiven on a
/// recovery-shell device that writes directly to the active slot.
pub open spec fn spec_slot_zero_has_hash(
    images: Seq<ImageState>,
    target: u32,
    new_hash: [u8; 32],
) -> bool {
    exists|i: int|
        0 <= i < images.len() && (#[trigger] images[i]).image == target && images[i].slot == 0
            && (images[i].hash matches Some(h) && h@ == new_hash@)
}

/// Whether some slot zero of the target image holds the new image's hash.
pub fn slot_zero_has_hash(images: &Vec<ImageState>, target: u32, new_hash: &[u8; 32]) -> (r: bool)
    ensures
        r == spec_slot_zero_has_hash(images@, target, *new_hash),
{
    let mut i: usize = 0;
    while i < images.len()
        invariant
            i <= images@.len(),
            forall|k: int|
                0 <= k < i ==> !((#[trigger] images@[k]).image == target && images@[k].slot == 0
                    && (images@[k].hash matches Some(h) && h@ == new_hash@)),
        decreases images@.len() - i,
    {
        if images[i].image == target && images[i].slot == 0 && already_installed(
            &images[i].hash,
            new_hash,
        ) {
            return true;
        }
        i = i + 1;
    }
    false
}

/// Already-installed shortcut: the update is cut short exactly when the
/// slot the device reports as running the target image carries the new
/// image's hash.
pub proof fn lemma_already_installed_shortcut(
    images: Seq<ImageState>,
    target: u32,
    i: int,
    new_hash: [u8; 32],
)
    requires
        spec_select_active(images, target) == Some(i),
        0 <= i < images.len(),
    ensures
        spec_already_installed(images[i].hash, new_hash) <==> (images[i].hash matches Some(h)
            && h@ == new_hash@),
{
}

/// Recovery branch: a failed activation is forgiven exactly when the error
/// is the version 1 not-supported code, the bootloader is MCUboot, and slot
/// zero of the target image already holds the new hash.
pub proof fn lemma_recovery_branch(
    e: ExecuteError,
    bootloader: BootloaderType,
    images: Seq<ImageState>,
    target: u32,
    new_hash: [u8; 32],
)
    ensures
        (spec_command_not_supported(e) && bootloader == BootloaderType::MCUboot
            && spec_slot_zero_has_hash(images, target, new_hash)) <==> (
        spec_command_not_supported(e) && bootloader == BootloaderType::MCUboot && exists|i: int|
            0 <= i < images.len() && (#[trigger] images[i]).image == target && images[i].slot == 0
                && (images[i].hash matches Some(h) && h@ == new_hash@)),
{
}

/// Runs a firmware update end to end: detect the bootloader (unless given),
/// parse the new image, read the slot states, stop early when the image is
/// already installed, upload, activate (with the recovery branch for
/// devices that cannot swap), and reboot unless told not to.
pub fn firmware_update<T: Transport, P: UpdateProgress>(
    client: &mut MCUmgrClient<T>,
    firmware: &[u8],
    checksum: Option<[u8; 32]>,
    params: FirmwareUpdateParams,
    progress: &mut P,
) -> (r: Result<(), FirmwareUpdateError>)
    ensures
        params.bootloader_type is Some ==> !(r matches Err(
            FirmwareUpdateError::BootloaderDetectionFailed(_),
        )) && !(r matches Err(FirmwareUpdateError::BootloaderNotSupported(_))),
        params.skip_reboot ==> !(r matches Err(FirmwareUpdateError::RebootFailed(_))),
        r matches Err(FirmwareUpdateError::BootloaderNotSupported(n)) ==> n@ != "MCUboot"@,
        !mcuboot_header_ok(firmware@) && params.bootloader_type is Some ==> r matches Err(
            FirmwareUpdateError::ProgressCallbackError,
        ) || r matches Err(FirmwareUpdateError::InvalidMcuBootFirmwareImage),
{
    let target_image: u32 = 0;

    let bootloader_type = match params.bootloader_type {
        Some(t) => t,
        None => {
            if !progress.on_step(&FirmwareUpdateStep::DetectingBootloader, None) {
                return Err(FirmwareUpdateError::ProgressCallbackError);
            }
            let info = match client.os_bootloader_info() {
                Ok(info) => info,
                Err(e) => {
                    return Err(FirmwareUpdateError::BootloaderDetectionFailed(e));
                },
            };
            let t = match bootloader_type_of(info.bootloader.as_str()) {
                Some(t) => t,
                None => {
                    return Err(FirmwareUpdateError::BootloaderNotSupported(info.bootloader));
                },
            };
            if !progress.on_step(&FirmwareUpdateStep::BootloaderFound(t), None) {
                return Err(FirmwareUpdateError::ProgressCallbackError);
            }
            t
        },
    };

    if !progress.on_step(&FirmwareUpdateStep::ParsingFirmwareImage, None) {
        return Err(FirmwareUpdateError::ProgressCallbackError);
    }
    let info = match bootloader_type {
        BootloaderType::MCUboot => match crate::mcuboot::get_image_info(firmware) {
            Some(info) => info,
            None => {
                return Err(FirmwareUpdateError::InvalidMcuBootFirmwareImage);
            },
        },
    };
    let image_version = info.version;
    let image_id_hash = info.hash;

    if !progress.on_step(&FirmwareUpdateStep::QueryingDeviceState, None) {
        return Err(FirmwareUpdateError::ProgressCallbackError);
    }
    let image_state = match client.image_get_state() {
        Ok(s) => s,
        Err(e) => {
            return Err(FirmwareUpdateError::GetStateFailed(e));
        },
    };
    let active = select_active_image(&image_state, target_image);
    let current_version = match active {
        Some(i) => Some((image_state[i].version.clone(), image_state[i].hash)),
        None => None,
    };
    if !progress.on_step(
        &FirmwareUpdateStep::UpdateInfo {
            current_version,
            new_version: (image_version, image_id_hash),
        },
        None,
    ) {
        return Err(FirmwareUpdateError::ProgressCallbackError);
    }
    if let Some(i) = active {
        if already_installed(&image_state[i].hash, &image_id_hash) {
            return Err(FirmwareUpdateError::AlreadyInstalled);
        }
    }

    if !progress.on_step(&FirmwareUpdateStep::UploadingFirmware, None) {
        return Err(FirmwareUpdateError::ProgressCallbackError);
    }
    let sha = match checksum {
        Some(h) => h,
        None => sha256(firmware),
    };
    let mut upload_progress = UploadStepProgress { progress };
    if let Err(e) = client.image_upload(
        firmware,
        None,
        Some(sha),
        params.upgrade_only,
        &mut upload_progress,
    ) {
        return match e {
            ImageUploadError::ProgressCallbackError => Err(
                FirmwareUpdateError::ProgressCallbackError,
            ),
            _ => Err(FirmwareUpdateError::ImageUploadFailed(e)),
        };
    }

    if !progress.on_step(&FirmwareUpdateStep::ActivatingFirmware, None) {
        return Err(FirmwareUpdateError::ProgressCallbackError);
    }
    if let Err(set_state_error) = client.image_set_state(Some(image_id_hash), params.force_confirm)
        {
        // A device running the recovery shell writes straight into the
        // active slot and cannot swap; accept the failure only when the
        // image already sits in slot zero.
        let mut image_already_active = false;
        if bootloader_type == BootloaderType::MCUboot && set_state_error.command_not_supported() {
            if !progress.on_step(&FirmwareUpdateStep::QueryingDeviceState, None) {
                return Err(FirmwareUpdateError::ProgressCallbackError);
            }
            let image_state = match client.image_get_state() {
                Ok(s) => s,
                Err(e) => {
                    return Err(FirmwareUpdateError::GetStateFailed(e));
                },
            };
            if slot_zero_has_hash(&image_state, target_image, &image_id_hash) {
                image_already_active = true;
            }
        }
        if !image_already_active {
            return Err(FirmwareUpdateError::SetStateFailed(set_state_error));
        }
    }

    if !params.skip_reboot {
        if !progress.on_step(&FirmwareUpdateStep::TriggeringReboot, None) {
            return Err(FirmwareUpdateError::ProgressCallbackError);
        }
        if let Err(e) = client.os_system_reset(false, None) {
            return Err(FirmwareUpdateError::RebootFailed(e));
        }
    }

    Ok(())
}

/// Forwards upload byte progress to the update callback under the
/// uploading step.
struct UploadStepProgress<'a, P: UpdateProgress> {
    progress: &'a mut P,
}

impl<'a, P: UpdateProgress> TransferProgress for UploadStepProgress<'a, P> {
    fn on_progress(&mut self, current: u64, total: u64) -> (r: bool) {
        self.progress.on_step(
            &FirmwareUpdateStep::UploadingFirmware,
            Some((current, total)),
        )
    }
}

/// The first four hash bytes as hexadecimal text.
fn hash_prefix_hex(h: &[u8; 32]) -> (r: String)
    ensures
        r@ == spec_hex_bytes(h@.subrange(0, 4)),
{
    proof {
        reveal_with_fuel(spec_hex_bytes, 5);
    }
    let mut s = crate::numfmt::u64_to_hex_pad(h[0] as u64, 2);
    s.append(crate::numfmt::u64_to_hex_pad(h[1] as u64, 2).as_str());
    s.append(crate::numfmt::u64_to_hex_pad(h[2] as u64, 2).as_str());
    s.append(crate::numfmt::u64_to_hex_pad(h[3] as u64, 2).as_str());
    proof {
        let p = h@.subrange(0, 4);
        assert(p.skip(1) =~= h@.subrange(1, 4));
        assert(h@.subrange(1, 4).skip(1) =~= h@.subrange(2, 4));
        assert(h@.subrange(2, 4).skip(1) =~= h@.subrange(3, 4));
        assert(h@.subrange(3, 4).skip(1) =~= h@.subrange(4, 4));
        assert(h@.subrange(4, 4) =~= Seq::<u8>::empty());
        assert(s@ =~= spec_hex_bytes(p));
    }
    s
}

/// The text of a step, as a progress line would show it.
pub open spec fn spec_step_message(step: FirmwareUpdateStep) -> Seq<char> {
    match step {
        FirmwareUpdateStep::DetectingBootloader => "Detecting bootloader ..."@,
        FirmwareUpdateStep::BootloaderFound(_) => "Found bootloader: MCUboot"@,
        FirmwareUpdateStep::ParsingFirmwareImage => "Parsing firmware image ..."@,
        FirmwareUpdateStep::QueryingDeviceState => "Querying device state ..."@,
        FirmwareUpdateStep::UpdateInfo { current_version, new_version } => "Update: "@ + (
        match current_version {
            Some((ver, h)) => ver@ + (match h {
                Some(hh) => "-"@ + spec_hex_bytes(hh@.subrange(0, 4)),
                None => Seq::empty(),
            }),
            None => "Empty"@,
        }) + " -> "@ + new_version.0@ + "-"@ + spec_hex_bytes(new_version.1@.subrange(0, 4)),
        FirmwareUpdateStep::UploadingFirmware => "Uploading new firmware ..."@,
        FirmwareUpdateStep::ActivatingFirmware => "Activating new firmware ..."@,
        FirmwareUpdateStep::TriggeringReboot => "Triggering device reboot ..."@,
    }
}

impl FirmwareUpdateStep {
    /// Renders the step as a progress line, hashes shortened to their first
    /// four bytes.
    pub fn message(&self) -> (r: String)
        ensures
            r@ == spec_step_message(*self),
    {
        proof {
            reveal_strlit("Detecting bootloader ...");
            reveal_strlit("Found bootloader: MCUboot");
            reveal_strlit("Parsing firmware image ...");
            reveal_strlit("Querying device state ...");
            reveal_strlit("Update: ");
            reveal_strlit("Empty");
            reveal_strlit(" -> ");
            reveal_strlit("-");
            reveal_strlit("Uploading new firmware ...");
            reveal_strlit("Activating new firmware ...");
            reveal_strlit("Triggering device reboot ...");
        }
        match self {
            FirmwareUpdateStep::DetectingBootloader => String::from_str(
                "Detecting bootloader ...",
            ),
            FirmwareUpdateStep::BootloaderFound(_) => String::from_str(
                "Found bootloader: MCUboot",
            ),
            FirmwareUpdateStep::ParsingFirmwareImage => String::from_str(
                "Parsing firmware image ...",
            ),
            FirmwareUpdateStep::QueryingDeviceState => String::from_str(
                "Querying device state ...",
            ),
            FirmwareUpdateStep::UpdateInfo { current_version, new_version } => {
                let mut s = String::from_str("Update: ");
                match current_version {
                    Some((ver, h)) => {
                        s.append(ver.as_str());
                        match h {
                            Some(hh) => {
                                s.append("-");
                                s.append(hash_prefix_hex(hh).as_str());
                            },
                            None => {},
                        }
                    },
                    None => {
                        s.append("Empty");
                    },
                }
                s.append(" -> ");
                s.append(new_version.0.as_str());
                s.append("-");
                s.append(hash_prefix_hex(&new_version.1).as_str());
                proof {
                    assert(s@ =~= spec_step_message(*self));
                }
                s
            },
            FirmwareUpdateStep::UploadingFirmware => String::from_str(
                "Uploading new firmware ...",
            ),
            FirmwareUpdateStep::ActivatingFirmware => String::from_str(
                "Activating new firmware ...",
            ),
            FirmwareUpdateStep::TriggeringReboot => String::from_str(
                "Triggering device reboot ...",
            ),
        }
    }
}


} // verus!
