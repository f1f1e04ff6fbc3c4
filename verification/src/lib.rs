//! Host-side client library for the Simple Management Protocol (SMP) used by
//! Zephyr's MCUmgr subsystem: line-oriented base64+CRC framing, the 8-byte SMP
//! header, CBOR command bodies, sequence-matched request/response exchange, and
//! a firmware update orchestrator.

use vstd::prelude::*;

use crate::numfmt::{spec_dec, u64_to_string};

pub mod b64;
pub mod cbor;
pub mod chunk;
pub mod client;
pub mod commands;
pub mod connection;
pub mod errors;
pub mod framing;
pub mod fwupdate;
pub mod mcuboot;
pub mod crc16;
pub mod header;
pub mod image;
pub mod numfmt;
pub mod os;
pub mod fs;
pub mod shell;
pub mod smp_errors;
pub mod zephyr;
pub mod datetime;

verus! {

/// MCUmgr command group identifiers, as defined by Zephyr's `mcumgr_group_t`.
#[derive(Debug, Copy, Clone, PartialEq, Eq, Structural)]
#[allow(non_camel_case_types)]
pub enum MCUmgrGroup {
    /// Default/OS group.
    MGMT_GROUP_ID_OS,
    /// Image management group.
    MGMT_GROUP_ID_IMAGE,
    /// Statistics group.
    MGMT_GROUP_ID_STAT,
    /// Settings group.
    MGMT_GROUP_ID_SETTINGS,
    /// Log group.
    MGMT_GROUP_ID_LOG,
    /// Crash group.
    MGMT_GROUP_ID_CRASH,
    /// Split image group.
    MGMT_GROUP_ID_SPLIT,
    /// Run group.
    MGMT_GROUP_ID_RUN,
    /// File management group.
    MGMT_GROUP_ID_FS,
    /// Shell group.
    MGMT_GROUP_ID_SHELL,
    /// Group enumeration group.
    MGMT_GROUP_ID_ENUM,
    /// Zephyr basic group.
    ZEPHYR_MGMT_GRP_BASIC,
    /// First group id reserved for per-user groups.
    MGMT_GROUP_ID_PERUSER,
}

impl MCUmgrGroup {
    /// The numeric group id of each group.
    pub open spec fn spec_id(self) -> u16 {
        match self {
            MCUmgrGroup::MGMT_GROUP_ID_OS => 0,
            MCUmgrGroup::MGMT_GROUP_ID_IMAGE => 1,
            MCUmgrGroup::MGMT_GROUP_ID_STAT => 2,
            MCUmgrGroup::MGMT_GROUP_ID_SETTINGS => 3,
            MCUmgrGroup::MGMT_GROUP_ID_LOG => 4,
            MCUmgrGroup::MGMT_GROUP_ID_CRASH => 5,
            MCUmgrGroup::MGMT_GROUP_ID_SPLIT => 6,
            MCUmgrGroup::MGMT_GROUP_ID_RUN => 7,
            MCUmgrGroup::MGMT_GROUP_ID_FS => 8,
            MCUmgrGroup::MGMT_GROUP_ID_SHELL => 9,
            MCUmgrGroup::MGMT_GROUP_ID_ENUM => 10,
            MCUmgrGroup::ZEPHYR_MGMT_GRP_BASIC => 63,
            MCUmgrGroup::MGMT_GROUP_ID_PERUSER => 64,
        }
    }

    /// The numeric group id of each group.
    pub fn id(self) -> (r: u16)
        ensures
            r == self.spec_id(),
    {
        match self {
            MCUmgrGroup::MGMT_GROUP_ID_OS => 0,
            MCUmgrGroup::MGMT_GROUP_ID_IMAGE => 1,
            MCUmgrGroup::MGMT_GROUP_ID_STAT => 2,
            MCUmgrGroup::MGMT_GROUP_ID_SETTINGS => 3,
            MCUmgrGroup::MGMT_GROUP_ID_LOG => 4,
            MCUmgrGroup::MGMT_GROUP_ID_CRASH => 5,
            MCUmgrGroup::MGMT_GROUP_ID_SPLIT => 6,
            MCUmgrGroup::MGMT_GROUP_ID_RUN => 7,
            MCUmgrGroup::MGMT_GROUP_ID_FS => 8,
            MCUmgrGroup::MGMT_GROUP_ID_SHELL => 9,
            MCUmgrGroup::MGMT_GROUP_ID_ENUM => 10,
            MCUmgrGroup::ZEPHYR_MGMT_GRP_BASIC => 63,
            MCUmgrGroup::MGMT_GROUP_ID_PERUSER => 64,
        }
    }

    /// The group a numeric id denotes, if any.
    pub open spec fn spec_from_id(group_id: u16) -> Option<MCUmgrGroup> {
        if group_id == 0 {
            Some(MCUmgrGroup::MGMT_GROUP_ID_OS)
        } else if group_id == 1 {
            Some(MCUmgrGroup::MGMT_GROUP_ID_IMAGE)
        } else if group_id == 2 {
            Some(MCUmgrGroup::MGMT_GROUP_ID_STAT)
        } else if group_id == 3 {
            Some(MCUmgrGroup::MGMT_GROUP_ID_SETTINGS)
        } else if group_id == 4 {
            Some(MCUmgrGroup::MGMT_GROUP_ID_LOG)
        } else if group_id == 5 {
            Some(MCUmgrGroup::MGMT_GROUP_ID_CRASH)
        } else if group_id == 6 {
            Some(MCUmgrGroup::MGMT_GROUP_ID_SPLIT)
        } else if group_id == 7 {
            Some(MCUmgrGroup::MGMT_GROUP_ID_RUN)
        } else if group_id == 8 {
            Some(MCUmgrGroup::MGMT_GROUP_ID_FS)
        } else if group_id == 9 {
            Some(MCUmgrGroup::MGMT_GROUP_ID_SHELL)
        } else if group_id == 10 {
            Some(MCUmgrGroup::MGMT_GROUP_ID_ENUM)
        } else if group_id == 63 {
            Some(MCUmgrGroup::ZEPHYR_MGMT_GRP_BASIC)
        } else if group_id == 64 {
            Some(MCUmgrGroup::MGMT_GROUP_ID_PERUSER)
        } else {
            None
        }
    }

    /// The symbolic name of the group.
    pub open spec fn spec_name(self) -> Seq<char> {
        match self {
            MCUmgrGroup::MGMT_GROUP_ID_OS => "MGMT_GROUP_ID_OS"@,
            MCUmgrGroup::MGMT_GROUP_ID_IMAGE => "MGMT_GROUP_ID_IMAGE"@,
            MCUmgrGroup::MGMT_GROUP_ID_STAT => "MGMT_GROUP_ID_STAT"@,
            MCUmgrGroup::MGMT_GROUP_ID_SETTINGS => "MGMT_GROUP_ID_SETTINGS"@,
            MCUmgrGroup::MGMT_GROUP_ID_LOG => "MGMT_GROUP_ID_LOG"@,
            MCUmgrGroup::MGMT_GROUP_ID_CRASH => "MGMT_GROUP_ID_CRASH"@,
            MCUmgrGroup::MGMT_GROUP_ID_SPLIT => "MGMT_GROUP_ID_SPLIT"@,
            MCUmgrGroup::MGMT_GROUP_ID_RUN => "MGMT_GROUP_ID_RUN"@,
            MCUmgrGroup::MGMT_GROUP_ID_FS => "MGMT_GROUP_ID_FS"@,
            MCUmgrGroup::MGMT_GROUP_ID_SHELL => "MGMT_GROUP_ID_SHELL"@,
            MCUmgrGroup::MGMT_GROUP_ID_ENUM => "MGMT_GROUP_ID_ENUM"@,
            MCUmgrGroup::ZEPHYR_MGMT_GRP_BASIC => "ZEPHYR_MGMT_GRP_BASIC"@,
            MCUmgrGroup::MGMT_GROUP_ID_PERUSER => "MGMT_GROUP_ID_PERUSER"@,
        }
    }

    /// The symbolic name of the group.
    pub fn name(&self) -> (r: String)
        ensures
            r@ == self.spec_name(),
    {
        match self {
            MCUmgrGroup::MGMT_GROUP_ID_OS => String::from_str("MGMT_GROUP_ID_OS"),
            MCUmgrGroup::MGMT_GROUP_ID_IMAGE => String::from_str("MGMT_GROUP_ID_IMAGE"),
            MCUmgrGroup::MGMT_GROUP_ID_STAT => String::from_str("MGMT_GROUP_ID_STAT"),
            MCUmgrGroup::MGMT_GROUP_ID_SETTINGS => String::from_str("MGMT_GROUP_ID_SETTINGS"),
            MCUmgrGroup::MGMT_GROUP_ID_LOG => String::from_str("MGMT_GROUP_ID_LOG"),
            MCUmgrGroup::MGMT_GROUP_ID_CRASH => String::from_str("MGMT_GROUP_ID_CRASH"),
            MCUmgrGroup::MGMT_GROUP_ID_SPLIT => String::from_str("MGMT_GROUP_ID_SPLIT"),
            MCUmgrGroup::MGMT_GROUP_ID_RUN => String::from_str("MGMT_GROUP_ID_RUN"),
            MCUmgrGroup::MGMT_GROUP_ID_FS => String::from_str("MGMT_GROUP_ID_FS"),
            MCUmgrGroup::MGMT_GROUP_ID_SHELL => String::from_str("MGMT_GROUP_ID_SHELL"),
            MCUmgrGroup::MGMT_GROUP_ID_ENUM => String::from_str("MGMT_GROUP_ID_ENUM"),
            MCUmgrGroup::ZEPHYR_MGMT_GRP_BASIC => String::from_str("ZEPHYR_MGMT_GRP_BASIC"),
            MCUmgrGroup::MGMT_GROUP_ID_PERUSER => String::from_str("MGMT_GROUP_ID_PERUSER"),
        }
    }

    /// The text of a raw group id: its symbolic name where one exists, the
    /// per-user marker with the number from 64 on, and an unknown marker
    /// otherwise.
    pub open spec fn spec_group_id_to_string(group_id: int) -> Seq<char> {
        if group_id >= 64 {
            "MGMT_GROUP_ID_PERUSER("@ + spec_dec(group_id) + ")"@
        } else {
            match MCUmgrGroup::spec_from_id(group_id as u16) {
                Some(g) => g.spec_name(),
                None => "MGMT_GROUP_ID_UNKNOWN("@ + spec_dec(group_id) + ")"@,
            }
        }
    }

    /// Renders a raw group id as text.
    pub fn group_id_to_string(group_id: u16) -> (r: String)
        ensures
            r@ == Self::spec_group_id_to_string(group_id as int),
    {
        proof {
            reveal_strlit("MGMT_GROUP_ID_PERUSER(");
            reveal_strlit("MGMT_GROUP_ID_UNKNOWN(");
            reveal_strlit(")");
        }
        if group_id >= 64 {
            let mut s = String::from_str("MGMT_GROUP_ID_PERUSER(");
            s.append(u64_to_string(group_id as u64).as_str());
            s.append(")");
            proof {
                assert(s@ =~= Self::spec_group_id_to_string(group_id as int));
            }
            s
        } else {
            match Self::from_repr(group_id) {
                Some(g) => g.name(),
                None => {
                    let mut s = String::from_str("MGMT_GROUP_ID_UNKNOWN(");
                    s.append(u64_to_string(group_id as u64).as_str());
                    s.append(")");
                    proof {
                        assert(s@ =~= Self::spec_group_id_to_string(group_id as int));
                    }
                    s
                },
            }
        }
    }

    /// The group a numeric id denotes, if any.
    pub fn from_repr(group_id: u16) -> (r: Option<MCUmgrGroup>)
        ensures
            r == Self::spec_from_id(group_id),
    {
        if group_id == 0 {
            Some(MCUmgrGroup::MGMT_GROUP_ID_OS)
        } else if group_id == 1 {
            Some(MCUmgrGroup::MGMT_GROUP_ID_IMAGE)
        } else if group_id == 2 {
            Some(MCUmgrGroup::MGMT_GROUP_ID_STAT)
        } else if group_id == 3 {
            Some(MCUmgrGroup::MGMT_GROUP_ID_SETTINGS)
        } else if group_id == 4 {
            Some(MCUmgrGroup::MGMT_GROUP_ID_LOG)
        } else if group_id == 5 {
            Some(MCUmgrGroup::MGMT_GROUP_ID_CRASH)
        } else if group_id == 6 {
            Some(MCUmgrGroup::MGMT_GROUP_ID_SPLIT)
        } else if group_id == 7 {
            Some(MCUmgrGroup::MGMT_GROUP_ID_RUN)
        } else if group_id == 8 {
            Some(MCUmgrGroup::MGMT_GROUP_ID_FS)
        } else if group_id == 9 {
            Some(MCUmgrGroup::MGMT_GROUP_ID_SHELL)
        } else if group_id == 10 {
            Some(MCUmgrGroup::MGMT_GROUP_ID_ENUM)
        } else if group_id == 63 {
            Some(MCUmgrGroup::ZEPHYR_MGMT_GRP_BASIC)
        } else if group_id == 64 {
            Some(MCUmgrGroup::MGMT_GROUP_ID_PERUSER)
        } else {
            None
        }
    }
}

} // verus!
