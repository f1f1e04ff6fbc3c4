//! The high-level MCUmgr client: one typed method per command, the chunked
//! file and image transfer engines, and the frame size knob.

use vstd::prelude::*;

use crate::cbor::Cbor;
use crate::commands::{
    i32_fld, spec_error_verdict, txt_fld, u32_fld, u64_fld, ErrorVerdict, McuMgrCommand,
};
use crate::connection::{Connection, Transport};
use crate::datetime::DateTime;
use crate::errors::{
    ExecuteError, FileDownloadError, FileUploadError, ImageUploadError, TransportError,
};
use crate::fs::{
    file_upload_max_data_chunk_size, FileChecksum, FileChecksumResponse, FileClose, FileDownload,
    FileStatus, FileStatusResponse, FileUpload, SupportedFileChecksumTypes,
};
use crate::image::{
    image_upload_max_data_chunk_size, GetImageState, ImageErase, ImageState, ImageUpload,
    SetImageState, SlotInfo, SlotInfoResponse,
};
use crate::os::{
    ApplicationInfo, BootloaderInfo, BootloaderInfoResponse, DateTimeGet, DateTimeSet, Echo,
    MCUmgrParameters, MCUmgrParametersResponse, SystemReset, TaskStatistics, TaskStatisticsEntry,
};

verus! {

/// The default SMP frame size of Zephyr.
pub const ZEPHYR_DEFAULT_SMP_FRAME_SIZE: usize = 384;

/// Receives transfer progress; returning false cancels the transfer.
pub trait TransferProgress {
    /// Called after each chunk with the transferred and total byte counts.
    fn on_progress(&mut self, current: u64, total: u64) -> bool;
}

/// A progress sink that never cancels.
pub struct NoProgress;

impl TransferProgress for NoProgress {
    fn on_progress(&mut self, _current: u64, _total: u64) -> (r: bool)
        ensures
            r,
    {
        true
    }
}

/// Four times the value, capped at the largest `u64`.
pub fn quad_words_to_bytes(v: u64) -> (r: u64)
    ensures
        v * 4 <= u64::MAX ==> r == v * 4,
        v * 4 > u64::MAX ==> r == u64::MAX,
{
    if v <= 0xffffffffffffffff / 4 {
        v * 4
    } else {
        0xffffffffffffffff
    }
}

/// Four times the value, capped at the largest `u64`.
pub open spec fn spec_quad_words(v: u64) -> u64 {
    if v * 4 <= 0xffffffffffffffff {
        (v * 4) as u64
    } else {
        0xffffffffffffffff
    }
}

/// One task's statistics with its stack figures converted from words to
/// bytes (saturating); everything else kept.
pub open spec fn spec_scale_entry(e: TaskStatisticsEntry) -> TaskStatisticsEntry {
    TaskStatisticsEntry {
        stkuse: match e.stkuse {
            Some(v) => Some(spec_quad_words(v)),
            None => None,
        },
        stksiz: match e.stksiz {
            Some(v) => Some(spec_quad_words(v)),
            None => None,
        },
        ..e
    }
}

/// The task list with every entry's stack figures converted to bytes.
pub open spec fn spec_scale_tasks(ts: Seq<(String, TaskStatisticsEntry)>) -> Seq<
    (String, TaskStatisticsEntry),
> {
    Seq::new(ts.len(), |i: int| (ts[i].0, spec_scale_entry(ts[i].1)))
}

/// Converts one task's stack figures from words to bytes.
pub fn scale_task_entry(e: &TaskStatisticsEntry) -> (r: TaskStatisticsEntry)
    ensures
        r == spec_scale_entry(*e),
{
    let stkuse = match e.stkuse {
        Some(v) => Some(quad_words_to_bytes(v)),
        None => None,
    };
    let stksiz = match e.stksiz {
        Some(v) => Some(quad_words_to_bytes(v)),
        None => None,
    };
    TaskStatisticsEntry {
        prio: e.prio,
        tid: e.tid,
        state: e.state,
        stkuse,
        stksiz,
        cswcnt: e.cswcnt,
        runtime: e.runtime,
    }
}

/// Checks one download response chunk against the transfer state: the
/// offset must be the one requested, and the chunk must make progress
/// without overshooting the reported file size.
pub fn check_download_chunk(resp_off: u64, expected_off: u64, remaining: u64, data_len: u64) -> (r:
    Result<(), FileDownloadError>)
    ensures
        resp_off != expected_off <==> (r matches Err(e) && e is UnexpectedOffset),
        (resp_off == expected_off && (data_len == 0 || data_len > remaining)) <==> (r matches Err(
            e,
        ) && e is SizeMismatch),
        (resp_off == expected_off && 0 < data_len <= remaining) <==> r is Ok,
{
    if resp_off != expected_off {
        Err(FileDownloadError::UnexpectedOffset)
    } else if data_len == 0 || data_len > remaining {
        Err(FileDownloadError::SizeMismatch)
    } else {
        Ok(())
    }
}

/// Checks the first download response against the protocol's obligations:
/// it must report the file's size and answer offset zero.
pub fn check_first_download_response(len: Option<u64>, off: u64) -> (r: Result<
    u64,
    FileDownloadError,
>)
    ensures
        len is None <==> (r matches Err(e) && e is MissingSize),
        (len is Some && off != 0) <==> (r matches Err(e) && e is UnexpectedOffset),
        r matches Ok(n) ==> len == Some(n) && off == 0,
        (len is Some && off == 0) <==> r is Ok,
{
    match len {
        None => Err(FileDownloadError::MissingSize),
        Some(n) => {
            if off != 0 {
                Err(FileDownloadError::UnexpectedOffset)
            } else {
                Ok(n)
            }
        },
    }
}

/// A high-level client for Zephyr's MCUmgr SMP protocol.
pub struct MCUmgrClient<T: Transport> {
    /// The protocol connection the client owns.
    pub connection: Connection<T>,
    /// The largest SMP frame the device accepts, header included.
    pub smp_frame_size: usize,
}

impl<T: Transport> MCUmgrClient<T> {
    /// A client over the given transport, with Zephyr's default frame size.
    pub fn new(transport: T) -> (r: MCUmgrClient<T>)
        ensures
            r.smp_frame_size == ZEPHYR_DEFAULT_SMP_FRAME_SIZE,
    {
        MCUmgrClient { connection: Connection::new(transport), smp_frame_size: 384 }
    }

    /// Sets the largest SMP frame the device accepts. Sending larger frames
    /// than the device's buffer can crash it.
    pub fn set_frame_size(&mut self, smp_frame_size: usize)
        ensures
            final(self).smp_frame_size == smp_frame_size,
            final(self).connection == old(self).connection,
    {
        self.smp_frame_size = smp_frame_size;
    }

    /// Learns the frame size from the device's MCUmgr parameters.
    pub fn use_auto_frame_size(&mut self) -> (r: Result<(), ExecuteError>)
        ensures
            r is Err ==> final(self).smp_frame_size == old(self).smp_frame_size,
            r is Ok ==> exists|v: Cbor|
                (#[trigger] u32_fld(v, "buf_size"@)) == Some(
                    final(self).smp_frame_size as u32,
                ) && spec_error_verdict(v) == ErrorVerdict::NoError,
    {
        let params = match self.connection.execute_command(&MCUmgrParameters) {
            Ok(p) => p,
            Err(e) => {
                return Err(e);
            },
        };
        self.smp_frame_size = params.buf_size as usize;
        proof {
            let v0 = choose|v: Cbor|
                #[trigger] <MCUmgrParameters as McuMgrCommand>::response_matches(v, params)
                    && spec_error_verdict(v) == ErrorVerdict::NoError;
            assert(u32_fld(v0, "buf_size"@) == Some(params.buf_size));
        }
        Ok(())
    }

    /// Changes the communication timeout, in milliseconds.
    pub fn set_timeout_ms(&mut self, ms: u64) -> (r: Result<(), TransportError>) {
        self.connection.set_timeout_ms(ms)
    }

    /// Sends a text and expects the same text back.
    pub fn os_echo(&mut self, msg: &str) -> (r: Result<String, ExecuteError>)
        ensures
            r matches Ok(s) ==> exists|v: Cbor|
                (#[trigger] txt_fld(v, "r"@)) matches Some(t) && t == s@ && spec_error_verdict(v)
                    == ErrorVerdict::NoError,
    {
        let resp = match self.connection.execute_command(&Echo { d: String::from_str(msg) }) {
            Ok(resp) => resp,
            Err(e) => {
                return Err(e);
            },
        };
        let ghost gresp = resp;
        let result: Result<String, ExecuteError> = Ok(resp.r);
        proof {
            let v0 = choose|v: Cbor|
                #[trigger] <Echo as McuMgrCommand>::response_matches(v, gresp)
                    && spec_error_verdict(v) == ErrorVerdict::NoError;
            assert(txt_fld(v0, "r"@) matches Some(t) && t == result->Ok_0@);
        }
        result
    }

    /// Sends a random sixteen-character alphanumeric echo and reports
    /// whether the device sent the same text back: a `true` comes only from
    /// an error-free echo response whose text equals the probe, so its text
    /// is sixteen characters long.
    pub fn check_connection(&mut self) -> (r: Result<bool, ExecuteError>)
        ensures
            r matches Ok(b) ==> exists|v: Cbor|
                (#[trigger] txt_fld(v, "r"@)) matches Some(t) && spec_error_verdict(v)
                    == ErrorVerdict::NoError && (b ==> t.len() == 16),
    {
        let mut msg = String::new();
        let mut i: usize = 0;
        while i < 16
            invariant
                i <= 16,
                msg@.len() == i,
            decreases 16 - i,
        {
            let b = crate::connection::random_byte();
            msg.append(alphanumeric_char(b));
            i = i + 1;
        }
        let sent = msg.clone();
        match self.connection.execute_command(&Echo { d: msg }) {
            Ok(resp) => {
                let ghost gresp = resp;
                let same = crate::cbor::str_eq(resp.r.as_str(), sent.as_str());
                proof {
                    let v0 = choose|v: Cbor|
                        #[trigger] <Echo as McuMgrCommand>::response_matches(v, gresp)
                            && spec_error_verdict(v) == ErrorVerdict::NoError;
                    assert(txt_fld(v0, "r"@) matches Some(t) && t == gresp.r@);
                }
                Ok(same)
            },
            Err(e) => Err(e),
        }
    }

    /// Queries live task statistics, converting stack figures from words to
    /// bytes (saturating).
    pub fn os_task_statistics(&mut self) -> (r: Result<
        Vec<(String, TaskStatisticsEntry)>,
        ExecuteError,
    >)
        ensures
            r matches Ok(tasks) ==> exists|v: Cbor, orig: Seq<(String, TaskStatisticsEntry)>|
                #[trigger] crate::os::tasks_response_matches_seq(v, orig) && spec_error_verdict(v)
                    == ErrorVerdict::NoError && tasks@ == spec_scale_tasks(orig),
    {
        let resp = match self.connection.execute_command(&TaskStatistics) {
            Ok(resp) => resp,
            Err(e) => {
                return Err(e);
            },
        };
        let ghost gresp = resp;
        let tasks = resp.tasks;
        let mut scaled: Vec<(String, TaskStatisticsEntry)> = Vec::new();
        let mut i: usize = 0;
        while i < tasks.len()
            invariant
                i <= tasks@.len(),
                scaled@.len() == i,
                forall|k: int|
                    0 <= k < i ==> #[trigger] scaled@[k] == (
                        tasks@[k].0,
                        spec_scale_entry(tasks@[k].1),
                    ),
            decreases tasks@.len() - i,
        {
            let name = tasks[i].0.clone();
            let entry = scale_task_entry(&tasks[i].1);
            scaled.push((name, entry));
            i = i + 1;
        }
        let result: Result<Vec<(String, TaskStatisticsEntry)>, ExecuteError> = Ok(scaled);
        proof {
            let v0 = choose|v: Cbor|
                #[trigger] <TaskStatistics as McuMgrCommand>::response_matches(v, gresp)
                    && spec_error_verdict(v) == ErrorVerdict::NoError;
            assert(crate::os::tasks_response_matches_seq(v0, gresp.tasks@));
            assert(result->Ok_0@ =~= spec_scale_tasks(gresp.tasks@));
        }
        result
    }

    /// Sets the device's clock.
    pub fn os_set_datetime(&mut self, datetime: DateTime) -> (r: Result<(), ExecuteError>)
        ensures
            r is Ok ==> exists|v: Cbor|
                #[trigger] spec_error_verdict(v) == ErrorVerdict::NoError
                    && crate::commands::as_dict(v) is Some,
    {
        let resp = match self.connection.execute_command(&DateTimeSet { datetime }) {
            Ok(resp) => resp,
            Err(e) => {
                return Err(e);
            },
        };
        proof {
            let v0 = choose|v: Cbor|
                #[trigger] <DateTimeSet as McuMgrCommand>::response_matches(v, resp)
                    && spec_error_verdict(v) == ErrorVerdict::NoError;
            assert(crate::commands::as_dict(v0) is Some);
        }
        Ok(())
    }

    /// Reads the device's clock.
    pub fn os_get_datetime(&mut self) -> (r: Result<DateTime, ExecuteError>)
        ensures
            r matches Ok(dt) ==> dt.wf(),
    {
        let resp = match self.connection.execute_command(&DateTimeGet) {
            Ok(resp) => resp,
            Err(e) => {
                return Err(e);
            },
        };
        let ghost gresp = resp;
        let result: Result<DateTime, ExecuteError> = Ok(resp.datetime);
        proof {
            let v0 = choose|v: Cbor|
                #[trigger] <DateTimeGet as McuMgrCommand>::response_matches(v, gresp)
                    && spec_error_verdict(v) == ErrorVerdict::NoError;
            assert(gresp.datetime.wf());
        }
        result
    }

    /// Issues a system reset, optionally forced or into a chosen boot mode.
    pub fn os_system_reset(&mut self, force: bool, boot_mode: Option<u8>) -> (r: Result<
        (),
        ExecuteError,
    >)
        ensures
            r is Ok ==> exists|v: Cbor|
                #[trigger] spec_error_verdict(v) == ErrorVerdict::NoError
                    && crate::commands::as_dict(v) is Some,
    {
        let resp = match self.connection.execute_command(&SystemReset { force, boot_mode }) {
            Ok(resp) => resp,
            Err(e) => {
                return Err(e);
            },
        };
        proof {
            let v0 = choose|v: Cbor|
                #[trigger] <SystemReset as McuMgrCommand>::response_matches(v, resp)
                    && spec_error_verdict(v) == ErrorVerdict::NoError;
            assert(crate::commands::as_dict(v0) is Some);
        }
        Ok(())
    }

    /// Fetches application information in the requested format.
    pub fn os_application_info(&mut self, format: Option<&str>) -> (r: Result<
        String,
        ExecuteError,
    >)
        ensures
            r matches Ok(s) ==> exists|v: Cbor|
                (#[trigger] txt_fld(v, "output"@)) matches Some(t) && t == s@
                    && spec_error_verdict(v) == ErrorVerdict::NoError,
    {
        let format = match format {
            Some(f) => Some(String::from_str(f)),
            None => None,
        };
        let resp = match self.connection.execute_command(&ApplicationInfo { format }) {
            Ok(resp) => resp,
            Err(e) => {
                return Err(e);
            },
        };
        let ghost gresp = resp;
        let result: Result<String, ExecuteError> = Ok(resp.output);
        proof {
            let v0 = choose|v: Cbor|
                #[trigger] <ApplicationInfo as McuMgrCommand>::response_matches(v, gresp)
                    && spec_error_verdict(v) == ErrorVerdict::NoError;
            assert(txt_fld(v0, "output"@) matches Some(t) && t == result->Ok_0@);
        }
        result
    }

    /// Fetches the device's MCUmgr parameters.
    pub fn os_mcumgr_parameters(&mut self) -> (r: Result<MCUmgrParametersResponse, ExecuteError>)
        ensures
            r matches Ok(resp) ==> exists|v: Cbor|
                #[trigger] <MCUmgrParameters as McuMgrCommand>::response_matches(v, resp)
                    && spec_error_verdict(v) == ErrorVerdict::NoError,
    {
        self.connection.execute_command(&MCUmgrParameters)
    }

    /// Fetches the bootloader's name.
    pub fn os_bootloader_info(&mut self) -> (r: Result<BootloaderInfoResponse, ExecuteError>)
        ensures
            r matches Ok(resp) ==> exists|v: Cbor|
                #[trigger] <BootloaderInfo as McuMgrCommand>::response_matches(v, resp)
                    && spec_error_verdict(v) == ErrorVerdict::NoError,
    {
        self.connection.execute_command(&BootloaderInfo)
    }

    /// Reads the state of every image slot.
    pub fn image_get_state(&mut self) -> (r: Result<Vec<ImageState>, ExecuteError>)
        ensures
            r matches Ok(images) ==> exists|v: Cbor|
                #[trigger] crate::image::image_state_response_matches(
                    v,
                    crate::image::ImageStateResponse { images },
                ) && spec_error_verdict(v) == ErrorVerdict::NoError,
    {
        let resp = match self.connection.execute_command(&GetImageState) {
            Ok(resp) => resp,
            Err(e) => {
                return Err(e);
            },
        };
        let ghost gresp = resp;
        let result: Result<Vec<ImageState>, ExecuteError> = Ok(resp.images);
        proof {
            let v0 = choose|v: Cbor|
                #[trigger] <GetImageState as McuMgrCommand>::response_matches(v, gresp)
                    && spec_error_verdict(v) == ErrorVerdict::NoError;
            assert(gresp == crate::image::ImageStateResponse { images: result->Ok_0 });
        }
        result
    }

    /// Marks an image for a test boot, or confirms it.
    pub fn image_set_state(&mut self, hash: Option<[u8; 32]>, confirm: bool) -> (r: Result<
        Vec<ImageState>,
        ExecuteError,
    >)
        ensures
            r matches Ok(images) ==> exists|v: Cbor|
                #[trigger] crate::image::image_state_response_matches(
                    v,
                    crate::image::ImageStateResponse { images },
                ) && spec_error_verdict(v) == ErrorVerdict::NoError,
    {
        let resp = match self.connection.execute_command(&SetImageState { hash, confirm }) {
            Ok(resp) => resp,
            Err(e) => {
                return Err(e);
            },
        };
        let ghost gresp = resp;
        let result: Result<Vec<ImageState>, ExecuteError> = Ok(resp.images);
        proof {
            let v0 = choose|v: Cbor|
                #[trigger] <SetImageState as McuMgrCommand>::response_matches(v, gresp)
                    && spec_error_verdict(v) == ErrorVerdict::NoError;
            assert(gresp == crate::image::ImageStateResponse { images: result->Ok_0 });
        }
        result
    }

    /// Erases an image slot.
    pub fn image_erase(&mut self, slot: Option<u32>) -> (r: Result<(), ExecuteError>)
        ensures
            r is Ok ==> exists|v: Cbor|
                #[trigger] spec_error_verdict(v) == ErrorVerdict::NoError
                    && crate::commands::as_dict(v) is Some,
    {
        let resp = match self.connection.execute_command(&ImageErase { slot }) {
            Ok(resp) => resp,
            Err(e) => {
                return Err(e);
            },
        };
        proof {
            let v0 = choose|v: Cbor|
                #[trigger] <ImageErase as McuMgrCommand>::response_matches(v, resp)
                    && spec_error_verdict(v) == ErrorVerdict::NoError;
            assert(crate::commands::as_dict(v0) is Some);
        }
        Ok(())
    }

    /// Enumerates the image slots and their sizes.
    pub fn image_slot_info(&mut self) -> (r: Result<SlotInfoResponse, ExecuteError>)
        ensures
            r matches Ok(resp) ==> exists|v: Cbor|
                #[trigger] <SlotInfo as McuMgrCommand>::response_matches(v, resp)
                    && spec_error_verdict(v) == ErrorVerdict::NoError,
    {
        self.connection.execute_command(&SlotInfo)
    }

    /// Uploads a firmware image in chunks sized to the SMP frame size. The
    /// extra fields travel only with the first chunk. Progress is reported
    /// after each chunk; a false return cancels the upload.
    pub fn image_upload<P: TransferProgress>(
        &mut self,
        data: &[u8],
        image: Option<u32>,
        sha: Option<[u8; 32]>,
        upgrade_only: bool,
        progress: &mut P,
    ) -> (r: Result<(), ImageUploadError>)
        ensures
            r matches Err(e) && e is FrameSizeTooSmall <==> crate::image::spec_image_chunk(
                old(self).smp_frame_size as int,
            ) is None,
    {
        let chunk_size = match image_upload_max_data_chunk_size(self.smp_frame_size) {
            Ok(n) => n,
            Err(()) => {
                return Err(ImageUploadError::FrameSizeTooSmall);
            },
        };
        proof {
            assert(chunk_size >= 1);
        }
        let size = data.len();
        let mut offset: usize = 0;
        while offset < size
            invariant
                offset <= size,
                size == data@.len(),
                chunk_size >= 1,
                crate::image::spec_image_chunk(old(self).smp_frame_size as int) is Some,
            decreases size - offset,
        {
            let this_chunk = if size - offset < chunk_size {
                size - offset
            } else {
                chunk_size
            };
            let chunk = crate::framing::copy_range(data, offset, offset + this_chunk);
            let request = ImageUpload {
                image: if offset == 0 {
                    image
                } else {
                    None
                },
                len: if offset == 0 {
                    Some(size as u64)
                } else {
                    None
                },
                off: offset as u64,
                sha: if offset == 0 {
                    sha
                } else {
                    None
                },
                data: chunk,
                upgrade: if offset == 0 && upgrade_only {
                    Some(true)
                } else {
                    None
                },
            };
            if let Err(e) = self.connection.execute_command(&request) {
                return Err(ImageUploadError::ExecuteError(e));
            }
            offset = offset + this_chunk;
            if !progress.on_progress(offset as u64, size as u64) {
                return Err(ImageUploadError::ProgressCallbackError);
            }
        }
        Ok(())
    }

    /// Downloads a file from the device: the first response must report the
    /// file's size, every response must carry the requested offset, and the
    /// chunks must add up to exactly that size.
    pub fn fs_file_download<P: TransferProgress>(&mut self, name: &str, progress: &mut P) -> (r:
        Result<Vec<u8>, FileDownloadError>)
        ensures
            r matches Ok(out) ==> exists|v: Cbor|
                (#[trigger] u64_fld(v, "len"@)) == Some(out@.len() as u64) && spec_error_verdict(
                    v,
                ) == ErrorVerdict::NoError,
    {
        let first = match self.connection.execute_command(
            &FileDownload { off: 0, name: String::from_str(name) },
        ) {
            Ok(resp) => resp,
            Err(e) => {
                return Err(FileDownloadError::ExecuteError(e));
            },
        };
        let ghost gfirst = first;
        let file_len = match check_first_download_response(first.len, first.off) {
            Ok(n) => n,
            Err(e) => {
                return Err(e);
            },
        };
        proof {
            let v0 = choose|v: Cbor|
                #[trigger] <FileDownload as McuMgrCommand>::response_matches(v, gfirst)
                    && spec_error_verdict(v) == ErrorVerdict::NoError;
            assert(u64_fld(v0, "len"@) == Some(file_len));
        }
        if !progress.on_progress(0, file_len) {
            return Err(FileDownloadError::ProgressCallbackError);
        }
        let mut out: Vec<u8> = Vec::new();
        let mut offset: u64 = 0;
        if let Err(e) = check_download_chunk(first.off, 0, file_len, first.data.len() as u64) {
            if file_len == 0 && first.data.len() == 0 {
                return Ok(out);
            }
            return Err(e);
        }
        let mut first_data = first.data;
        out.append(&mut first_data);
        offset = out.len() as u64;
        if !progress.on_progress(offset, file_len) {
            return Err(FileDownloadError::ProgressCallbackError);
        }
        while offset < file_len
            invariant
                offset == out@.len(),
                offset <= file_len,
                exists|v: Cbor|
                    (#[trigger] u64_fld(v, "len"@)) == Some(file_len) && spec_error_verdict(v)
                        == ErrorVerdict::NoError,
            decreases file_len - offset,
        {
            let resp = match self.connection.execute_command(
                &FileDownload { off: offset, name: String::from_str(name) },
            ) {
                Ok(resp) => resp,
                Err(e) => {
                    return Err(FileDownloadError::ExecuteError(e));
                },
            };
            if let Err(e) = check_download_chunk(
                resp.off,
                offset,
                file_len - offset,
                resp.data.len() as u64,
            ) {
                return Err(e);
            }
            let mut data = resp.data;
            out.append(&mut data);
            offset = out.len() as u64;
            if !progress.on_progress(offset, file_len) {
                return Err(FileDownloadError::ProgressCallbackError);
            }
        }
        Ok(out)
    }

    /// Writes a file to the device in chunks sized to the SMP frame size
    /// and the file name; the total length travels only with the first
    /// chunk.
    pub fn fs_file_upload<P: TransferProgress>(
        &mut self,
        name: &str,
        data: &[u8],
        progress: &mut P,
    ) -> (r: Result<(), FileUploadError>)
        ensures
            r matches Err(e) && e is FrameSizeTooSmall <==> crate::fs::spec_file_chunk(
                old(self).smp_frame_size as int,
                name@,
            ) is None,
    {
        let chunk_size = match file_upload_max_data_chunk_size(self.smp_frame_size, name) {
            Ok(n) => n,
            Err(()) => {
                return Err(FileUploadError::FrameSizeTooSmall);
            },
        };
        proof {
            assert(chunk_size >= 1);
        }
        let size = data.len();
        let mut offset: usize = 0;
        while offset < size
            invariant
                offset <= size,
                size == data@.len(),
                chunk_size >= 1,
                crate::fs::spec_file_chunk(old(self).smp_frame_size as int, name@) is Some,
            decreases size - offset,
        {
            let this_chunk = if size - offset < chunk_size {
                size - offset
            } else {
                chunk_size
            };
            let chunk = crate::framing::copy_range(data, offset, offset + this_chunk);
            let request = FileUpload {
                off: offset as u64,
                data: chunk,
                name: String::from_str(name),
                len: if offset == 0 {
                    Some(size as u64)
                } else {
                    None
                },
            };
            if let Err(e) = self.connection.execute_command(&request) {
                return Err(FileUploadError::ExecuteError(e));
            }
            offset = offset + this_chunk;
            if !progress.on_progress(offset as u64, size as u64) {
                return Err(FileUploadError::ProgressCallbackError);
            }
        }
        Ok(())
    }

    /// Queries a file's status.
    pub fn fs_file_status(&mut self, name: &str) -> (r: Result<FileStatusResponse, ExecuteError>)
        ensures
            r matches Ok(resp) ==> exists|v: Cbor|
                #[trigger] <FileStatus as McuMgrCommand>::response_matches(v, resp)
                    && spec_error_verdict(v) == ErrorVerdict::NoError,
    {
        self.connection.execute_command(&FileStatus { name: String::from_str(name) })
    }

    /// Computes a checksum or hash of a file on the device.
    pub fn fs_file_checksum(
        &mut self,
        name: &str,
        algorithm: Option<&str>,
        offset: u64,
        length: Option<u64>,
    ) -> (r: Result<FileChecksumResponse, ExecuteError>)
        ensures
            r matches Ok(resp) ==> exists|v: Cbor|
                #[trigger] <FileChecksum as McuMgrCommand>::response_matches(v, resp)
                    && spec_error_verdict(v) == ErrorVerdict::NoError,
    {
        let checksum_type = match algorithm {
            Some(a) => Some(String::from_str(a)),
            None => None,
        };
        self.connection.execute_command(
            &FileChecksum {
                name: String::from_str(name),
                checksum_type,
                off: offset,
                len: length,
            },
        )
    }

    /// Queries which checksum and hash algorithms the device supports.
    pub fn fs_supported_checksum_types(&mut self) -> (r: Result<
        Vec<(String, crate::fs::FileChecksumProperties)>,
        ExecuteError,
    >)
        ensures
            r matches Ok(types) ==> exists|v: Cbor|
                #[trigger] crate::fs::checksum_types_response_matches(
                    v,
                    crate::fs::SupportedFileChecksumTypesResponse { types },
                ) && spec_error_verdict(v) == ErrorVerdict::NoError,
    {
        let resp = match self.connection.execute_command(&SupportedFileChecksumTypes) {
            Ok(resp) => resp,
            Err(e) => {
                return Err(e);
            },
        };
        let ghost gresp = resp;
        let result: Result<Vec<(String, crate::fs::FileChecksumProperties)>, ExecuteError> = Ok(
            resp.types,
        );
        proof {
            let v0 = choose|v: Cbor|
                #[trigger] <SupportedFileChecksumTypes as McuMgrCommand>::response_matches(
                    v,
                    gresp,
                ) && spec_error_verdict(v) == ErrorVerdict::NoError;
            assert(gresp == crate::fs::SupportedFileChecksumTypesResponse {
                types: result->Ok_0,
            });
        }
        result
    }

    /// Closes every file MCUmgr holds open on the device.
    pub fn fs_file_close(&mut self) -> (r: Result<(), ExecuteError>)
        ensures
            r is Ok ==> exists|v: Cbor|
                #[trigger] spec_error_verdict(v) == ErrorVerdict::NoError
                    && crate::commands::as_dict(v) is Some,
    {
        let resp = match self.connection.execute_command(&FileClose) {
            Ok(resp) => resp,
            Err(e) => {
                return Err(e);
            },
        };
        proof {
            let v0 = choose|v: Cbor|
                #[trigger] <FileClose as McuMgrCommand>::response_matches(v, resp)
                    && spec_error_verdict(v) == ErrorVerdict::NoError;
            assert(crate::commands::as_dict(v0) is Some);
        }
        Ok(())
    }

    /// Runs a shell command line: the return code and the output.
    pub fn shell_execute(&mut self, argv: Vec<String>) -> (r: Result<(i32, String), ExecuteError>)
        ensures
            r matches Ok(out) ==> exists|v: Cbor|
                (#[trigger] i32_fld(v, "ret"@)) == Some(out.0) && (txt_fld(v, "o"@) matches Some(
                    t,
                ) && t == out.1@) && spec_error_verdict(v) == ErrorVerdict::NoError,
    {
        let resp = match self.connection.execute_command(
            &crate::shell::ShellCommandLineExecute { argv },
        ) {
            Ok(resp) => resp,
            Err(e) => {
                return Err(e);
            },
        };
        let ghost gresp = resp;
        let result: Result<(i32, String), ExecuteError> = Ok((resp.ret, resp.o));
        proof {
            let v0 = choose|v: Cbor|
                #[trigger] <crate::shell::ShellCommandLineExecute as McuMgrCommand>::response_matches(
                    v,
                    gresp,
                ) && spec_error_verdict(v) == ErrorVerdict::NoError;
            assert(i32_fld(v0, "ret"@) == Some(result->Ok_0.0));
            assert(txt_fld(v0, "o"@) matches Some(t) && t == result->Ok_0.1@);
        }
        result
    }

    /// Erases the storage partition.
    pub fn zephyr_erase_storage(&mut self) -> (r: Result<(), ExecuteError>)
        ensures
            r is Ok ==> exists|v: Cbor|
                #[trigger] spec_error_verdict(v) == ErrorVerdict::NoError
                    && crate::commands::as_dict(v) is Some,
    {
        let resp = match self.connection.execute_command(&crate::zephyr::EraseStorage) {
            Ok(resp) => resp,
            Err(e) => {
                return Err(e);
            },
        };
        proof {
            let v0 = choose|v: Cbor|
                #[trigger] <crate::zephyr::EraseStorage as McuMgrCommand>::response_matches(
                    v,
                    resp,
                ) && spec_error_verdict(v) == ErrorVerdict::NoError;
            assert(crate::commands::as_dict(v0) is Some);
        }
        Ok(())
    }

    /// Executes any typed command and returns its typed response.
    pub fn raw_command<R: McuMgrCommand>(&mut self, command: &R) -> (r: Result<
        R::Response,
        ExecuteError,
    >)
        ensures
            r matches Ok(resp) ==> exists|v: Cbor|
                #[trigger] R::response_matches(v, resp) && spec_error_verdict(v)
                    == ErrorVerdict::NoError,
    {
        self.connection.execute_command(command)
    }
}

/// The alphanumeric character a random byte selects, by its value modulo 62.
pub fn alphanumeric_char(b: u8) -> (r: &'static str)
    ensures
        r@.len() == 1,
{
    proof {
        reveal_strlit("0123456789abcdefghijklmnopqrstuvwxyzABCDEFGHIJKLMNOPQRSTUVWXYZ");
    }
    let table = "0123456789abcdefghijklmnopqrstuvwxyzABCDEFGHIJKLMNOPQRSTUVWXYZ";
    let idx = (b % 62) as usize;
    proof {
        assert(table@.len() == 62);
        assert(vstd::string::is_ascii(table));
    }
    table.substring_ascii(idx, idx + 1)
}

} // verus!
