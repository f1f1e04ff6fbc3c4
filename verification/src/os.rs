//! The default/OS management group (group 0): echo, task statistics, date
//! and time, system reset, MCUmgr parameters, application information, and
//! bootloader information.

use vstd::assert_by_contradiction;
use vstd::prelude::*;

use crate::cbor::{spec_view_entries, Cbor, CborValue, MapBuilder};
use crate::commands::{
    as_dict, bool_dflt_fld, dict_fld, dict_get, get_bool_dflt_fld, get_i32_fld, get_opt_u64_fld,
    get_txt_fld, get_u32_fld, i32_fld, is_dict, opt_u64_fld, txt_fld, u32_fld, McuMgrCommand,
};
use crate::datetime::DateTime;

verus! {

/// Echo command: the device replies with the same text.
pub struct Echo {
    /// The text to be echoed back.
    pub d: String,
}

/// Response to [`Echo`].
pub struct EchoResponse {
    /// The echoed text.
    pub r: String,
}

impl McuMgrCommand for Echo {
    type Response = EchoResponse;

    open spec fn spec_write_operation(&self) -> bool {
        false
    }

    open spec fn spec_group_id(&self) -> u16 {
        0
    }

    open spec fn spec_command_id(&self) -> u8 {
        0
    }

    open spec fn spec_payload(&self) -> Cbor {
        Cbor::Dict(seq![("d"@, Cbor::Text(self.d@))])
    }

    open spec fn response_decodes(v: Cbor) -> bool {
        txt_fld(v, "r"@) is Some
    }

    open spec fn response_matches(v: Cbor, r: EchoResponse) -> bool {
        txt_fld(v, "r"@) matches Some(t) && r.r@ == t
    }

    fn is_write_operation(&self) -> bool {
        false
    }

    fn group_id(&self) -> u16 {
        0
    }

    fn command_id(&self) -> u8 {
        0
    }

    fn encode_payload(&self) -> (r: Vec<u8>) {
        let mut b = MapBuilder::new();
        b.field("d", CborValue::Text(self.d.clone()));
        let ghost ents = spec_view_entries(b.entries@);
        let v = b.build();
        proof {
            assert(ents =~= seq![("d"@, Cbor::Text(self.d@))]);
        }
        crate::cbor::encode_cbor(&v)
    }

    fn decode_response(v: &CborValue) -> (r: Option<EchoResponse>) {
        match get_txt_fld(v, "r") {
            Some(text) => Some(EchoResponse { r: text }),
            None => None,
        }
    }
}

/// Task statistics command: no request body.
pub struct TaskStatistics;

/// Statistics of one task, as reported by the device.
#[derive(Debug, Clone, PartialEq, Eq, Structural)]
pub struct TaskStatisticsEntry {
    /// Task priority.
    pub prio: i32,
    /// Numeric task id.
    pub tid: u32,
    /// Numeric task state.
    pub state: u32,
    /// Stack usage.
    pub stkuse: Option<u64>,
    /// Stack size.
    pub stksiz: Option<u64>,
    /// Context switches.
    pub cswcnt: Option<u64>,
    /// Runtime in ticks.
    pub runtime: Option<u64>,
}

/// Response to [`TaskStatistics`]: each task's name with its statistics.
pub struct TaskStatisticsResponse {
    /// Task names with their statistics, in the order the device sent them.
    pub tasks: Vec<(String, TaskStatisticsEntry)>,
}

/// Whether a payload decodes as a task statistics response.
pub open spec fn tasks_response_decodes(v: Cbor) -> bool {
    match dict_fld(v, "tasks"@) {
        Some(m) => forall|i: int| 0 <= i < m.len() ==> task_entry_decodes(#[trigger] m[i].1),
        None => false,
    }
}

/// Whether a task list is what a task statistics payload decodes to.
pub open spec fn tasks_response_matches_seq(
    v: Cbor,
    tasks: Seq<(String, TaskStatisticsEntry)>,
) -> bool {
    match dict_fld(v, "tasks"@) {
        Some(m) => tasks.len() == m.len() && forall|i: int|
            0 <= i < m.len() ==> (#[trigger] tasks[i]).0@ == m[i].0 && task_entry_matches(
                m[i].1,
                tasks[i].1,
            ),
        None => false,
    }
}

/// Whether `r` is what a task statistics payload decodes to.
pub open spec fn tasks_response_matches(v: Cbor, r: TaskStatisticsResponse) -> bool {
    tasks_response_matches_seq(v, r.tasks@)
}

/// Whether a map decodes as one task's statistics.
pub open spec fn task_entry_decodes(c: Cbor) -> bool {
    &&& i32_fld(c, "prio"@) is Some
    &&& u32_fld(c, "tid"@) is Some
    &&& u32_fld(c, "state"@) is Some
    &&& opt_u64_fld(c, "stkuse"@) is Some
    &&& opt_u64_fld(c, "stksiz"@) is Some
    &&& opt_u64_fld(c, "cswcnt"@) is Some
    &&& opt_u64_fld(c, "runtime"@) is Some
}

/// Whether `e` is what a task statistics map decodes to.
pub open spec fn task_entry_matches(c: Cbor, e: TaskStatisticsEntry) -> bool {
    &&& i32_fld(c, "prio"@) == Some(e.prio)
    &&& u32_fld(c, "tid"@) == Some(e.tid)
    &&& u32_fld(c, "state"@) == Some(e.state)
    &&& opt_u64_fld(c, "stkuse"@) == Some(e.stkuse)
    &&& opt_u64_fld(c, "stksiz"@) == Some(e.stksiz)
    &&& opt_u64_fld(c, "cswcnt"@) == Some(e.cswcnt)
    &&& opt_u64_fld(c, "runtime"@) == Some(e.runtime)
}

/// Decodes one task's statistics.
fn decode_task_entry(c: &CborValue) -> (r: Option<TaskStatisticsEntry>)
    ensures
        task_entry_decodes(c@) ==> r is Some,
        r matches Some(e) ==> task_entry_matches(c@, e),
{
    let prio = match get_i32_fld(c, "prio") {
        Some(x) => x,
        None => {
            return None;
        },
    };
    let tid = match get_u32_fld(c, "tid") {
        Some(x) => x,
        None => {
            return None;
        },
    };
    let state = match get_u32_fld(c, "state") {
        Some(x) => x,
        None => {
            return None;
        },
    };
    let stkuse = match get_opt_u64_fld(c, "stkuse") {
        Some(x) => x,
        None => {
            return None;
        },
    };
    let stksiz = match get_opt_u64_fld(c, "stksiz") {
        Some(x) => x,
        None => {
            return None;
        },
    };
    let cswcnt = match get_opt_u64_fld(c, "cswcnt") {
        Some(x) => x,
        None => {
            return None;
        },
    };
    let runtime = match get_opt_u64_fld(c, "runtime") {
        Some(x) => x,
        None => {
            return None;
        },
    };
    Some(TaskStatisticsEntry { prio, tid, state, stkuse, stksiz, cswcnt, runtime })
}

impl McuMgrCommand for TaskStatistics {
    type Response = TaskStatisticsResponse;

    open spec fn spec_write_operation(&self) -> bool {
        false
    }

    open spec fn spec_group_id(&self) -> u16 {
        0
    }

    open spec fn spec_command_id(&self) -> u8 {
        2
    }

    open spec fn spec_payload(&self) -> Cbor {
        Cbor::Dict(Seq::empty())
    }

    open spec fn response_decodes(v: Cbor) -> bool {
        tasks_response_decodes(v)
    }

    open spec fn response_matches(v: Cbor, r: TaskStatisticsResponse) -> bool {
        tasks_response_matches(v, r)
    }

    fn is_write_operation(&self) -> bool {
        false
    }

    fn group_id(&self) -> u16 {
        0
    }

    fn command_id(&self) -> u8 {
        2
    }

    fn encode_payload(&self) -> (r: Vec<u8>) {
        let b = MapBuilder::new();
        let v = b.build();
        crate::cbor::encode_cbor(&v)
    }

    fn decode_response(v: &CborValue) -> (r: Option<TaskStatisticsResponse>) {
        let tasks_val = match dict_get(v, "tasks") {
            Some(x) => x,
            None => {
                return None;
            },
        };
        let entries = match tasks_val {
            CborValue::Dict(entries) => entries,
            _ => {
                proof {
                    assert(as_dict(tasks_val@) is None);
                }
                return None;
            },
        };
        let ghost m = spec_view_entries(entries@);
        proof {
            crate::cbor::lemma_view_entries_index(entries@);
        }
        let mut tasks: Vec<(String, TaskStatisticsEntry)> = Vec::new();
        let mut i: usize = 0;
        while i < entries.len()
            invariant
                i <= entries@.len(),
                dict_fld(v@, "tasks"@) == Some(m),
                m == spec_view_entries(entries@),
                m.len() == entries@.len(),
                forall|k: int|
                    0 <= k < entries@.len() ==> m[k] == (
                        entries@[k].0@,
                        crate::cbor::spec_view(entries@[k].1),
                    ),
                tasks@.len() == i,
                forall|k: int|
                    0 <= k < i ==> (#[trigger] tasks@[k]).0@ == m[k].0 && task_entry_matches(
                        m[k].1,
                        tasks@[k].1,
                    ),
                (forall|k: int| 0 <= k < m.len() ==> task_entry_decodes(#[trigger] m[k].1))
                    ==> true,
            decreases entries@.len() - i,
        {
            let key = entries[i].0.clone();
            let entry = match decode_task_entry(&entries[i].1) {
                Some(e) => e,
                None => {
                    proof {
                        assert(!task_entry_decodes(m[i as int].1));
                        assert(dict_fld(v@, "tasks"@) == Some(m));
                        assert((i as int) < m.len());
                        assert_by_contradiction!(!tasks_response_decodes(v@), {
                            assert(task_entry_decodes((dict_fld(v@, "tasks"@)->0)[i as int].1));
                        });
                    }
                    return None;
                },
            };
            tasks.push((key, entry));
            i = i + 1;
        }
        Some(TaskStatisticsResponse { tasks })
    }
}

/// Date-time get command: no request body.
pub struct DateTimeGet;

/// Response to [`DateTimeGet`].
pub struct DateTimeGetResponse {
    /// The device's clock, time zone discarded.
    pub datetime: DateTime,
}

impl McuMgrCommand for DateTimeGet {
    type Response = DateTimeGetResponse;

    open spec fn spec_write_operation(&self) -> bool {
        false
    }

    open spec fn spec_group_id(&self) -> u16 {
        0
    }

    open spec fn spec_command_id(&self) -> u8 {
        4
    }

    open spec fn spec_payload(&self) -> Cbor {
        Cbor::Dict(Seq::empty())
    }

    open spec fn response_decodes(v: Cbor) -> bool {
        txt_fld(v, "datetime"@) matches Some(t) && crate::datetime::spec_parse_datetime(t) is Some
    }

    open spec fn response_matches(v: Cbor, r: DateTimeGetResponse) -> bool {
        txt_fld(v, "datetime"@) matches Some(t) && crate::datetime::spec_parse_datetime(t)
            == Some(r.datetime) && r.datetime.wf()
    }

    fn is_write_operation(&self) -> bool {
        false
    }

    fn group_id(&self) -> u16 {
        0
    }

    fn command_id(&self) -> u8 {
        4
    }

    fn encode_payload(&self) -> (r: Vec<u8>) {
        let b = MapBuilder::new();
        let v = b.build();
        crate::cbor::encode_cbor(&v)
    }

    fn decode_response(v: &CborValue) -> (r: Option<DateTimeGetResponse>) {
        let text = match get_txt_fld(v, "datetime") {
            Some(t) => t,
            None => {
                return None;
            },
        };
        match crate::datetime::parse_datetime(text.as_str()) {
            Some(datetime) => Some(DateTimeGetResponse { datetime }),
            None => None,
        }
    }
}

/// Date-time set command: writes the device's clock.
pub struct DateTimeSet {
    /// The time to set.
    pub datetime: DateTime,
}

/// Response to [`DateTimeSet`]: carries nothing.
#[derive(Debug, Clone, Copy, PartialEq, Eq, Structural, Default)]
pub struct DateTimeSetResponse;

impl McuMgrCommand for DateTimeSet {
    type Response = DateTimeSetResponse;

    open spec fn spec_write_operation(&self) -> bool {
        true
    }

    open spec fn spec_group_id(&self) -> u16 {
        0
    }

    open spec fn spec_command_id(&self) -> u8 {
        4
    }

    open spec fn spec_payload(&self) -> Cbor {
        Cbor::Dict(seq![("datetime"@, Cbor::Text(self.datetime.spec_format()))])
    }

    open spec fn response_decodes(v: Cbor) -> bool {
        as_dict(v) is Some
    }

    open spec fn response_matches(v: Cbor, r: DateTimeSetResponse) -> bool {
        as_dict(v) is Some
    }

    fn is_write_operation(&self) -> bool {
        true
    }

    fn group_id(&self) -> u16 {
        0
    }

    fn command_id(&self) -> u8 {
        4
    }

    fn encode_payload(&self) -> (r: Vec<u8>) {
        let mut b = MapBuilder::new();
        b.field("datetime", CborValue::Text(self.datetime.format_zephyr()));
        let ghost ents = spec_view_entries(b.entries@);
        let v = b.build();
        proof {
            assert(ents =~= seq![("datetime"@, Cbor::Text(self.datetime.spec_format()))]);
        }
        crate::cbor::encode_cbor(&v)
    }

    fn decode_response(v: &CborValue) -> (r: Option<DateTimeSetResponse>) {
        if is_dict(v) {
            Some(DateTimeSetResponse)
        } else {
            None
        }
    }
}

/// System reset command.
pub struct SystemReset {
    /// Force the reset.
    pub force: bool,
    /// Boot mode to select: 0 for a normal boot, 1 for bootloader recovery.
    pub boot_mode: Option<u8>,
}

/// Response to [`SystemReset`]: carries nothing.
#[derive(Debug, Clone, Copy, PartialEq, Eq, Structural, Default)]
pub struct SystemResetResponse;

impl McuMgrCommand for SystemReset {
    type Response = SystemResetResponse;

    open spec fn spec_write_operation(&self) -> bool {
        true
    }

    open spec fn spec_group_id(&self) -> u16 {
        0
    }

    open spec fn spec_command_id(&self) -> u8 {
        5
    }

    open spec fn spec_payload(&self) -> Cbor {
        Cbor::Dict(
            (if self.force {
                seq![("force"@, Cbor::Bool(true))]
            } else {
                Seq::empty()
            }) + (match self.boot_mode {
                Some(m) => seq![("boot_mode"@, Cbor::UInt(m as u64))],
                None => Seq::empty(),
            }),
        )
    }

    open spec fn response_decodes(v: Cbor) -> bool {
        as_dict(v) is Some
    }

    open spec fn response_matches(v: Cbor, r: SystemResetResponse) -> bool {
        as_dict(v) is Some
    }

    fn is_write_operation(&self) -> bool {
        true
    }

    fn group_id(&self) -> u16 {
        0
    }

    fn command_id(&self) -> u8 {
        5
    }

    fn encode_payload(&self) -> (r: Vec<u8>) {
        let mut b = MapBuilder::new();
        if self.force {
            b.field("force", CborValue::Bool(true));
        }
        if let Some(m) = self.boot_mode {
            b.field("boot_mode", CborValue::UInt(m as u64));
        }
        let ghost ents = spec_view_entries(b.entries@);
        let v = b.build();
        proof {
            assert(ents =~= (self.spec_payload())->Dict_0);
        }
        crate::cbor::encode_cbor(&v)
    }

    fn decode_response(v: &CborValue) -> (r: Option<SystemResetResponse>) {
        if is_dict(v) {
            Some(SystemResetResponse)
        } else {
            None
        }
    }
}

/// MCUmgr parameters command: no request body.
pub struct MCUmgrParameters;

/// Response to [`MCUmgrParameters`].
#[derive(Debug, Clone, Copy, PartialEq, Eq, Structural)]
pub struct MCUmgrParametersResponse {
    /// The device's SMP buffer size: header plus payload.
    pub buf_size: u32,
    /// How many SMP buffers the device has.
    pub buf_count: u32,
}

impl McuMgrCommand for MCUmgrParameters {
    type Response = MCUmgrParametersResponse;

    open spec fn spec_write_operation(&self) -> bool {
        false
    }

    open spec fn spec_group_id(&self) -> u16 {
        0
    }

    open spec fn spec_command_id(&self) -> u8 {
        6
    }

    open spec fn spec_payload(&self) -> Cbor {
        Cbor::Dict(Seq::empty())
    }

    open spec fn response_decodes(v: Cbor) -> bool {
        u32_fld(v, "buf_size"@) is Some && u32_fld(v, "buf_count"@) is Some
    }

    open spec fn response_matches(v: Cbor, r: MCUmgrParametersResponse) -> bool {
        u32_fld(v, "buf_size"@) == Some(r.buf_size) && u32_fld(v, "buf_count"@) == Some(
            r.buf_count,
        )
    }

    fn is_write_operation(&self) -> bool {
        false
    }

    fn group_id(&self) -> u16 {
        0
    }

    fn command_id(&self) -> u8 {
        6
    }

    fn encode_payload(&self) -> (r: Vec<u8>) {
        let b = MapBuilder::new();
        let v = b.build();
        crate::cbor::encode_cbor(&v)
    }

    fn decode_response(v: &CborValue) -> (r: Option<MCUmgrParametersResponse>) {
        let buf_size = match get_u32_fld(v, "buf_size") {
            Some(x) => x,
            None => {
                return None;
            },
        };
        let buf_count = match get_u32_fld(v, "buf_count") {
            Some(x) => x,
            None => {
                return None;
            },
        };
        Some(MCUmgrParametersResponse { buf_size, buf_count })
    }
}

/// OS/application information command.
pub struct ApplicationInfo {
    /// Format specifier of the requested output, as the device defines it.
    pub format: Option<String>,
}

/// Response to [`ApplicationInfo`].
pub struct ApplicationInfoResponse {
    /// The requested text.
    pub output: String,
}

impl McuMgrCommand for ApplicationInfo {
    type Response = ApplicationInfoResponse;

    open spec fn spec_write_operation(&self) -> bool {
        false
    }

    open spec fn spec_group_id(&self) -> u16 {
        0
    }

    open spec fn spec_command_id(&self) -> u8 {
        7
    }

    open spec fn spec_payload(&self) -> Cbor {
        Cbor::Dict(
            match self.format {
                Some(f) => seq![("format"@, Cbor::Text(f@))],
                None => Seq::empty(),
            },
        )
    }

    open spec fn response_decodes(v: Cbor) -> bool {
        txt_fld(v, "output"@) is Some
    }

    open spec fn response_matches(v: Cbor, r: ApplicationInfoResponse) -> bool {
        txt_fld(v, "output"@) matches Some(t) && r.output@ == t
    }

    fn is_write_operation(&self) -> bool {
        false
    }

    fn group_id(&self) -> u16 {
        0
    }

    fn command_id(&self) -> u8 {
        7
    }

    fn encode_payload(&self) -> (r: Vec<u8>) {
        let mut b = MapBuilder::new();
        if let Some(f) = &self.format {
            b.field("format", CborValue::Text(f.clone()));
        }
        let ghost ents = spec_view_entries(b.entries@);
        let v = b.build();
        proof {
            assert(ents =~= (self.spec_payload())->Dict_0);
        }
        crate::cbor::encode_cbor(&v)
    }

    fn decode_response(v: &CborValue) -> (r: Option<ApplicationInfoResponse>) {
        match get_txt_fld(v, "output") {
            Some(output) => Some(ApplicationInfoResponse { output }),
            None => None,
        }
    }
}

/// Bootloader information command: no request body.
pub struct BootloaderInfo;

/// Response to [`BootloaderInfo`].
pub struct BootloaderInfoResponse {
    /// The bootloader's name.
    pub bootloader: String,
}

impl McuMgrCommand for BootloaderInfo {
    type Response = BootloaderInfoResponse;

    open spec fn spec_write_operation(&self) -> bool {
        false
    }

    open spec fn spec_group_id(&self) -> u16 {
        0
    }

    open spec fn spec_command_id(&self) -> u8 {
        8
    }

    open spec fn spec_payload(&self) -> Cbor {
        Cbor::Dict(Seq::empty())
    }

    open spec fn response_decodes(v: Cbor) -> bool {
        txt_fld(v, "bootloader"@) is Some
    }

    open spec fn response_matches(v: Cbor, r: BootloaderInfoResponse) -> bool {
        txt_fld(v, "bootloader"@) matches Some(t) && r.bootloader@ == t
    }

    fn is_write_operation(&self) -> bool {
        false
    }

    fn group_id(&self) -> u16 {
        0
    }

    fn command_id(&self) -> u8 {
        8
    }

    fn encode_payload(&self) -> (r: Vec<u8>) {
        let b = MapBuilder::new();
        let v = b.build();
        crate::cbor::encode_cbor(&v)
    }

    fn decode_response(v: &CborValue) -> (r: Option<BootloaderInfoResponse>) {
        match get_txt_fld(v, "bootloader") {
            Some(bootloader) => Some(BootloaderInfoResponse { bootloader }),
            None => None,
        }
    }
}

/// MCUboot mode subquery of the bootloader information command.
pub struct BootloaderInfoMcubootMode;

/// Response to [`BootloaderInfoMcubootMode`].
#[derive(Debug, Clone, Copy, PartialEq, Eq, Structural)]
pub struct BootloaderInfoMcubootModeResponse {
    /// The MCUboot mode number.
    pub mode: i32,
    /// Whether downgrade prevention is enabled.
    pub no_downgrade: bool,
}

impl McuMgrCommand for BootloaderInfoMcubootMode {
    type Response = BootloaderInfoMcubootModeResponse;

    open spec fn spec_write_operation(&self) -> bool {
        false
    }

    open spec fn spec_group_id(&self) -> u16 {
        0
    }

    open spec fn spec_command_id(&self) -> u8 {
        8
    }

    open spec fn spec_payload(&self) -> Cbor {
        Cbor::Dict(seq![("query"@, Cbor::Text("mode"@))])
    }

    open spec fn response_decodes(v: Cbor) -> bool {
        i32_fld(v, "mode"@) is Some && bool_dflt_fld(v, "no-downgrade"@) is Some
    }

    open spec fn response_matches(v: Cbor, r: BootloaderInfoMcubootModeResponse) -> bool {
        i32_fld(v, "mode"@) == Some(r.mode) && bool_dflt_fld(v, "no-downgrade"@) == Some(
            r.no_downgrade,
        )
    }

    fn is_write_operation(&self) -> bool {
        false
    }

    fn group_id(&self) -> u16 {
        0
    }

    fn command_id(&self) -> u8 {
        8
    }

    fn encode_payload(&self) -> (r: Vec<u8>) {
        let mut b = MapBuilder::new();
        b.field("query", CborValue::Text(String::from_str("mode")));
        let ghost ents = spec_view_entries(b.entries@);
        let v = b.build();
        proof {
            assert(ents =~= seq![("query"@, Cbor::Text("mode"@))]);
        }
        crate::cbor::encode_cbor(&v)
    }

    fn decode_response(v: &CborValue) -> (r: Option<BootloaderInfoMcubootModeResponse>) {
        let mode = match get_i32_fld(v, "mode") {
            Some(x) => x,
            None => {
                return None;
            },
        };
        let no_downgrade = match get_bool_dflt_fld(v, "no-downgrade") {
            Some(x) => x,
            None => {
                return None;
            },
        };
        Some(BootloaderInfoMcubootModeResponse { mode, no_downgrade })
    }
}

/// The state flag bits inside [`TaskStatisticsEntry::state`].
#[derive(Debug, Copy, Clone, PartialEq, Eq, Structural)]
#[allow(non_camel_case_types)]
pub enum ThreadStateFlags {
    /// Not a real thread.
    DUMMY,
    /// Waiting on an object.
    PENDING,
    /// Sleeping.
    SLEEPING,
    /// Terminated.
    DEAD,
    /// Suspended.
    SUSPENDED,
    /// Aborting.
    ABORTING,
    /// Suspending.
    SUSPENDING,
    /// Present in the ready queue.
    QUEUED,
}

impl ThreadStateFlags {
    /// The bit each flag occupies in the state word.
    pub open spec fn spec_bit(self) -> u8 {
        match self {
            ThreadStateFlags::DUMMY => 1,
            ThreadStateFlags::PENDING => 2,
            ThreadStateFlags::SLEEPING => 4,
            ThreadStateFlags::DEAD => 8,
            ThreadStateFlags::SUSPENDED => 16,
            ThreadStateFlags::ABORTING => 32,
            ThreadStateFlags::SUSPENDING => 64,
            ThreadStateFlags::QUEUED => 128,
        }
    }

    /// The bit each flag occupies in the state word.
    pub fn bit(self) -> (r: u8)
        ensures
            r == self.spec_bit(),
    {
        match self {
            ThreadStateFlags::DUMMY => 1,
            ThreadStateFlags::PENDING => 2,
            ThreadStateFlags::SLEEPING => 4,
            ThreadStateFlags::DEAD => 8,
            ThreadStateFlags::SUSPENDED => 16,
            ThreadStateFlags::ABORTING => 32,
            ThreadStateFlags::SUSPENDING => 64,
            ThreadStateFlags::QUEUED => 128,
        }
    }

    /// Converts a thread state word to its flag names, joined by `|`.
    pub fn pretty_print(thread_state: u8) -> (r: String)
        ensures
            r@ == spec_thread_state_flags(thread_state),
    {
        proof {
            reveal_strlit("dummy");
            reveal_strlit("pending");
            reveal_strlit("sleeping");
            reveal_strlit("dead");
            reveal_strlit("suspended");
            reveal_strlit("aborting");
            reveal_strlit("suspending");
            reveal_strlit("queued");
            reveal_strlit(" | ");
            reveal_strlit("");
        }
        let mut s = String::new();
        let mut any = false;
        if thread_state & 1 != 0 {
            s.append("dummy");
            any = true;
        }
        if thread_state & 2 != 0 {
            if any {
                s.append(" | ");
            }
            s.append("pending");
            any = true;
        }
        if thread_state & 4 != 0 {
            if any {
                s.append(" | ");
            }
            s.append("sleeping");
            any = true;
        }
        if thread_state & 8 != 0 {
            if any {
                s.append(" | ");
            }
            s.append("dead");
            any = true;
        }
        if thread_state & 16 != 0 {
            if any {
                s.append(" | ");
            }
            s.append("suspended");
            any = true;
        }
        if thread_state & 32 != 0 {
            if any {
                s.append(" | ");
            }
            s.append("aborting");
            any = true;
        }
        if thread_state & 64 != 0 {
            if any {
                s.append(" | ");
            }
            s.append("suspending");
            any = true;
        }
        if thread_state & 128 != 0 {
            if any {
                s.append(" | ");
            }
            s.append("queued");
        }
        proof {
            assert(s@ =~= spec_thread_state_flags(thread_state));
        }
        s
    }
}

/// Appends a flag name to the rendering when its bit is set, with a
/// separator when something already stands there.
pub open spec fn tsf_add(acc: Seq<char>, set: bool, name: Seq<char>) -> Seq<char> {
    if !set {
        acc
    } else if acc.len() == 0 {
        name
    } else {
        acc + " | "@ + name
    }
}

/// The rendering of a thread state word: the names of its set flag bits,
/// lowest bit first, joined by `|`.
pub open spec fn spec_thread_state_flags(state: u8) -> Seq<char> {
    tsf_add(
        tsf_add(
            tsf_add(
                tsf_add(
                    tsf_add(
                        tsf_add(
                            tsf_add(
                                tsf_add(Seq::empty(), state & 1 != 0, "dummy"@),
                                state & 2 != 0,
                                "pending"@,
                            ),
                            state & 4 != 0,
                            "sleeping"@,
                        ),
                        state & 8 != 0,
                        "dead"@,
                    ),
                    state & 16 != 0,
                    "suspended"@,
                ),
                state & 32 != 0,
                "aborting"@,
            ),
            state & 64 != 0,
            "suspending"@,
        ),
        state & 128 != 0,
        "queued"@,
    )
}

/// Which parts of the application information a caller wants; each flag
/// selects one format character of the request.
#[derive(Debug, Clone, Copy, PartialEq, Eq, Structural, Default)]
pub struct ApplicationInfoFlags {
    /// Kernel name (`s`).
    pub kernel_name: bool,
    /// Node name (`n`).
    pub node_name: bool,
    /// Kernel release (`r`).
    pub kernel_release: bool,
    /// Kernel version (`v`).
    pub kernel_version: bool,
    /// Build date and time (`b`).
    pub build_time: bool,
    /// Machine (`m`).
    pub machine: bool,
    /// Processor (`p`).
    pub processor: bool,
    /// Hardware platform (`i`).
    pub hardware_platform: bool,
    /// Operating system (`o`).
    pub operating_system: bool,
    /// All fields (`a`).
    pub all: bool,
}

/// Appends a format character when its flag is set.
pub open spec fn flag_add(acc: Seq<char>, set: bool, c: char) -> Seq<char> {
    if set {
        acc.push(c)
    } else {
        acc
    }
}

/// The format characters the flags select, in a fixed order.
pub open spec fn spec_accumulate(f: ApplicationInfoFlags) -> Seq<char> {
    flag_add(
        flag_add(
            flag_add(
                flag_add(
                    flag_add(
                        flag_add(
                            flag_add(
                                flag_add(
                                    flag_add(
                                        flag_add(Seq::empty(), f.kernel_name, 's'),
                                        f.node_name,
                                        'n',
                                    ),
                                    f.kernel_release,
                                    'r',
                                ),
                                f.kernel_version,
                                'v',
                            ),
                            f.build_time,
                            'b',
                        ),
                        f.machine,
                        'm',
                    ),
                    f.processor,
                    'p',
                ),
                f.hardware_platform,
                'i',
            ),
            f.operating_system,
            'o',
        ),
        f.all,
        'a',
    )
}

impl ApplicationInfoFlags {
    /// Collects the format characters of the set flags, in a fixed order.
    pub fn accumulate(&self) -> (r: Vec<char>)
        ensures
            r@ == spec_accumulate(*self),
    {
        let mut flags: Vec<char> = Vec::new();
        if self.kernel_name {
            flags.push('s');
        }
        if self.node_name {
            flags.push('n');
        }
        if self.kernel_release {
            flags.push('r');
        }
        if self.kernel_version {
            flags.push('v');
        }
        if self.build_time {
            flags.push('b');
        }
        if self.machine {
            flags.push('m');
        }
        if self.processor {
            flags.push('p');
        }
        if self.hardware_platform {
            flags.push('i');
        }
        if self.operating_system {
            flags.push('o');
        }
        if self.all {
            flags.push('a');
        }
        proof {
            assert(flags@ =~= spec_accumulate(*self));
        }
        flags
    }
}


} // verus!
