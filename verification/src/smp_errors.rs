//! Zephyr's symbolic SMP error codes, group by group, and their rendering
//! as text.

use vstd::prelude::*;

use crate::errors::DeviceError;
use crate::numfmt::{i32_to_string, spec_dec_signed};
use crate::MCUmgrGroup;

verus! {

/// The MCUmgr version 1 error codes.
#[derive(Debug, Copy, Clone, PartialEq, Eq, Structural)]
#[allow(non_camel_case_types)]
pub enum MCUmgrErr {
    /// Code 0.
    MGMT_ERR_EOK,
    /// Code 1.
    MGMT_ERR_EUNKNOWN,
    /// Code 2.
    MGMT_ERR_ENOMEM,
    /// Code 3.
    MGMT_ERR_EINVAL,
    /// Code 4.
    MGMT_ERR_ETIMEOUT,
    /// Code 5.
    MGMT_ERR_ENOENT,
    /// Code 6.
    MGMT_ERR_EBADSTATE,
    /// Code 7.
    MGMT_ERR_EMSGSIZE,
    /// Code 8.
    MGMT_ERR_ENOTSUP,
    /// Code 9.
    MGMT_ERR_ECORRUPT,
    /// Code 10.
    MGMT_ERR_EBUSY,
    /// Code 11.
    MGMT_ERR_EACCESSDENIED,
    /// Code 12.
    MGMT_ERR_UNSUPPORTED_TOO_OLD,
    /// Code 13.
    MGMT_ERR_UNSUPPORTED_TOO_NEW,
    /// Code 256.
    MGMT_ERR_EPERUSER,
}

impl MCUmgrErr {
    /// The symbolic code a numeric value denotes, if any.
    pub open spec fn spec_from_repr(code: int) -> Option<Self> {
        if code == 0 {
            Some(MCUmgrErr::MGMT_ERR_EOK)
        } else if code == 1 {
            Some(MCUmgrErr::MGMT_ERR_EUNKNOWN)
        } else if code == 2 {
            Some(MCUmgrErr::MGMT_ERR_ENOMEM)
        } else if code == 3 {
            Some(MCUmgrErr::MGMT_ERR_EINVAL)
        } else if code == 4 {
            Some(MCUmgrErr::MGMT_ERR_ETIMEOUT)
        } else if code == 5 {
            Some(MCUmgrErr::MGMT_ERR_ENOENT)
        } else if code == 6 {
            Some(MCUmgrErr::MGMT_ERR_EBADSTATE)
        } else if code == 7 {
            Some(MCUmgrErr::MGMT_ERR_EMSGSIZE)
        } else if code == 8 {
            Some(MCUmgrErr::MGMT_ERR_ENOTSUP)
        } else if code == 9 {
            Some(MCUmgrErr::MGMT_ERR_ECORRUPT)
        } else if code == 10 {
            Some(MCUmgrErr::MGMT_ERR_EBUSY)
        } else if code == 11 {
            Some(MCUmgrErr::MGMT_ERR_EACCESSDENIED)
        } else if code == 12 {
            Some(MCUmgrErr::MGMT_ERR_UNSUPPORTED_TOO_OLD)
        } else if code == 13 {
            Some(MCUmgrErr::MGMT_ERR_UNSUPPORTED_TOO_NEW)
        } else if code == 256 {
            Some(MCUmgrErr::MGMT_ERR_EPERUSER)
        } else {
            None
        }
    }

    /// The symbolic code a numeric value denotes, if any.
    pub fn from_repr(code: i32) -> (r: Option<Self>)
        ensures
            r == Self::spec_from_repr(code as int),
    {
        if code == 0 {
            Some(MCUmgrErr::MGMT_ERR_EOK)
        } else if code == 1 {
            Some(MCUmgrErr::MGMT_ERR_EUNKNOWN)
        } else if code == 2 {
            Some(MCUmgrErr::MGMT_ERR_ENOMEM)
        } else if code == 3 {
            Some(MCUmgrErr::MGMT_ERR_EINVAL)
        } else if code == 4 {
            Some(MCUmgrErr::MGMT_ERR_ETIMEOUT)
        } else if code == 5 {
            Some(MCUmgrErr::MGMT_ERR_ENOENT)
        } else if code == 6 {
            Some(MCUmgrErr::MGMT_ERR_EBADSTATE)
        } else if code == 7 {
            Some(MCUmgrErr::MGMT_ERR_EMSGSIZE)
        } else if code == 8 {
            Some(MCUmgrErr::MGMT_ERR_ENOTSUP)
        } else if code == 9 {
            Some(MCUmgrErr::MGMT_ERR_ECORRUPT)
        } else if code == 10 {
            Some(MCUmgrErr::MGMT_ERR_EBUSY)
        } else if code == 11 {
            Some(MCUmgrErr::MGMT_ERR_EACCESSDENIED)
        } else if code == 12 {
            Some(MCUmgrErr::MGMT_ERR_UNSUPPORTED_TOO_OLD)
        } else if code == 13 {
            Some(MCUmgrErr::MGMT_ERR_UNSUPPORTED_TOO_NEW)
        } else if code == 256 {
            Some(MCUmgrErr::MGMT_ERR_EPERUSER)
        } else {
            None
        }
    }

    /// The symbolic name of the code.
    pub open spec fn spec_name(self) -> Seq<char> {
        match self {
            MCUmgrErr::MGMT_ERR_EOK => "MGMT_ERR_EOK"@,
            MCUmgrErr::MGMT_ERR_EUNKNOWN => "MGMT_ERR_EUNKNOWN"@,
            MCUmgrErr::MGMT_ERR_ENOMEM => "MGMT_ERR_ENOMEM"@,
            MCUmgrErr::MGMT_ERR_EINVAL => "MGMT_ERR_EINVAL"@,
            MCUmgrErr::MGMT_ERR_ETIMEOUT => "MGMT_ERR_ETIMEOUT"@,
            MCUmgrErr::MGMT_ERR_ENOENT => "MGMT_ERR_ENOENT"@,
            MCUmgrErr::MGMT_ERR_EBADSTATE => "MGMT_ERR_EBADSTATE"@,
            MCUmgrErr::MGMT_ERR_EMSGSIZE => "MGMT_ERR_EMSGSIZE"@,
            MCUmgrErr::MGMT_ERR_ENOTSUP => "MGMT_ERR_ENOTSUP"@,
            MCUmgrErr::MGMT_ERR_ECORRUPT => "MGMT_ERR_ECORRUPT"@,
            MCUmgrErr::MGMT_ERR_EBUSY => "MGMT_ERR_EBUSY"@,
            MCUmgrErr::MGMT_ERR_EACCESSDENIED => "MGMT_ERR_EACCESSDENIED"@,
            MCUmgrErr::MGMT_ERR_UNSUPPORTED_TOO_OLD => "MGMT_ERR_UNSUPPORTED_TOO_OLD"@,
            MCUmgrErr::MGMT_ERR_UNSUPPORTED_TOO_NEW => "MGMT_ERR_UNSUPPORTED_TOO_NEW"@,
            MCUmgrErr::MGMT_ERR_EPERUSER => "MGMT_ERR_EPERUSER"@,
        }
    }

    /// The symbolic name of the code.
    pub fn name(&self) -> (r: String)
        ensures
            r@ == self.spec_name(),
    {
        match self {
            MCUmgrErr::MGMT_ERR_EOK => String::from_str("MGMT_ERR_EOK"),
            MCUmgrErr::MGMT_ERR_EUNKNOWN => String::from_str("MGMT_ERR_EUNKNOWN"),
            MCUmgrErr::MGMT_ERR_ENOMEM => String::from_str("MGMT_ERR_ENOMEM"),
            MCUmgrErr::MGMT_ERR_EINVAL => String::from_str("MGMT_ERR_EINVAL"),
            MCUmgrErr::MGMT_ERR_ETIMEOUT => String::from_str("MGMT_ERR_ETIMEOUT"),
            MCUmgrErr::MGMT_ERR_ENOENT => String::from_str("MGMT_ERR_ENOENT"),
            MCUmgrErr::MGMT_ERR_EBADSTATE => String::from_str("MGMT_ERR_EBADSTATE"),
            MCUmgrErr::MGMT_ERR_EMSGSIZE => String::from_str("MGMT_ERR_EMSGSIZE"),
            MCUmgrErr::MGMT_ERR_ENOTSUP => String::from_str("MGMT_ERR_ENOTSUP"),
            MCUmgrErr::MGMT_ERR_ECORRUPT => String::from_str("MGMT_ERR_ECORRUPT"),
            MCUmgrErr::MGMT_ERR_EBUSY => String::from_str("MGMT_ERR_EBUSY"),
            MCUmgrErr::MGMT_ERR_EACCESSDENIED => String::from_str("MGMT_ERR_EACCESSDENIED"),
            MCUmgrErr::MGMT_ERR_UNSUPPORTED_TOO_OLD => String::from_str("MGMT_ERR_UNSUPPORTED_TOO_OLD"),
            MCUmgrErr::MGMT_ERR_UNSUPPORTED_TOO_NEW => String::from_str("MGMT_ERR_UNSUPPORTED_TOO_NEW"),
            MCUmgrErr::MGMT_ERR_EPERUSER => String::from_str("MGMT_ERR_EPERUSER"),
        }
    }
}

/// The settings group error codes.
#[derive(Debug, Copy, Clone, PartialEq, Eq, Structural)]
#[allow(non_camel_case_types)]
pub enum SettingsMgmtRetCode {
    /// Code 0.
    SETTINGS_MGMT_ERR_OK,
    /// Code 1.
    SETTINGS_MGMT_ERR_UNKNOWN,
    /// Code 2.
    SETTINGS_MGMT_ERR_KEY_TOO_LONG,
    /// Code 3.
    SETTINGS_MGMT_ERR_KEY_NOT_FOUND,
    /// Code 4.
    SETTINGS_MGMT_ERR_READ_NOT_SUPPORTED,
    /// Code 5.
    SETTINGS_MGMT_ERR_ROOT_KEY_NOT_FOUND,
    /// Code 6.
    SETTINGS_MGMT_ERR_WRITE_NOT_SUPPORTED,
    /// Code 7.
    SETTINGS_MGMT_ERR_DELETE_NOT_SUPPORTED,
    /// Code 8.
    SETTINGS_MGMT_ERR_SAVE_NOT_SUPPORTED,
}

impl SettingsMgmtRetCode {
    /// The symbolic code a numeric value denotes, if any.
    pub open spec fn spec_from_repr(code: int) -> Option<Self> {
        if code == 0 {
            Some(SettingsMgmtRetCode::SETTINGS_MGMT_ERR_OK)
        } else if code == 1 {
            Some(SettingsMgmtRetCode::SETTINGS_MGMT_ERR_UNKNOWN)
        } else if code == 2 {
            Some(SettingsMgmtRetCode::SETTINGS_MGMT_ERR_KEY_TOO_LONG)
        } else if code == 3 {
            Some(SettingsMgmtRetCode::SETTINGS_MGMT_ERR_KEY_NOT_FOUND)
        } else if code == 4 {
            Some(SettingsMgmtRetCode::SETTINGS_MGMT_ERR_READ_NOT_SUPPORTED)
        } else if code == 5 {
            Some(SettingsMgmtRetCode::SETTINGS_MGMT_ERR_ROOT_KEY_NOT_FOUND)
        } else if code == 6 {
            Some(SettingsMgmtRetCode::SETTINGS_MGMT_ERR_WRITE_NOT_SUPPORTED)
        } else if code == 7 {
            Some(SettingsMgmtRetCode::SETTINGS_MGMT_ERR_DELETE_NOT_SUPPORTED)
        } else if code == 8 {
            Some(SettingsMgmtRetCode::SETTINGS_MGMT_ERR_SAVE_NOT_SUPPORTED)
        } else {
            None
        }
    }

    /// The symbolic code a numeric value denotes, if any.
    pub fn from_repr(code: i32) -> (r: Option<Self>)
        ensures
            r == Self::spec_from_repr(code as int),
    {
        if code == 0 {
            Some(SettingsMgmtRetCode::SETTINGS_MGMT_ERR_OK)
        } else if code == 1 {
            Some(SettingsMgmtRetCode::SETTINGS_MGMT_ERR_UNKNOWN)
        } else if code == 2 {
            Some(SettingsMgmtRetCode::SETTINGS_MGMT_ERR_KEY_TOO_LONG)
        } else if code == 3 {
            Some(SettingsMgmtRetCode::SETTINGS_MGMT_ERR_KEY_NOT_FOUND)
        } else if code == 4 {
            Some(SettingsMgmtRetCode::SETTINGS_MGMT_ERR_READ_NOT_SUPPORTED)
        } else if code == 5 {
            Some(SettingsMgmtRetCode::SETTINGS_MGMT_ERR_ROOT_KEY_NOT_FOUND)
        } else if code == 6 {
            Some(SettingsMgmtRetCode::SETTINGS_MGMT_ERR_WRITE_NOT_SUPPORTED)
        } else if code == 7 {
            Some(SettingsMgmtRetCode::SETTINGS_MGMT_ERR_DELETE_NOT_SUPPORTED)
        } else if code == 8 {
            Some(SettingsMgmtRetCode::SETTINGS_MGMT_ERR_SAVE_NOT_SUPPORTED)
        } else {
            None
        }
    }

    /// The symbolic name of the code.
    pub open spec fn spec_name(self) -> Seq<char> {
        match self {
            SettingsMgmtRetCode::SETTINGS_MGMT_ERR_OK => "SETTINGS_MGMT_ERR_OK"@,
            SettingsMgmtRetCode::SETTINGS_MGMT_ERR_UNKNOWN => "SETTINGS_MGMT_ERR_UNKNOWN"@,
            SettingsMgmtRetCode::SETTINGS_MGMT_ERR_KEY_TOO_LONG => "SETTINGS_MGMT_ERR_KEY_TOO_LONG"@,
            SettingsMgmtRetCode::SETTINGS_MGMT_ERR_KEY_NOT_FOUND => "SETTINGS_MGMT_ERR_KEY_NOT_FOUND"@,
            SettingsMgmtRetCode::SETTINGS_MGMT_ERR_READ_NOT_SUPPORTED => "SETTINGS_MGMT_ERR_READ_NOT_SUPPORTED"@,
            SettingsMgmtRetCode::SETTINGS_MGMT_ERR_ROOT_KEY_NOT_FOUND => "SETTINGS_MGMT_ERR_ROOT_KEY_NOT_FOUND"@,
            SettingsMgmtRetCode::SETTINGS_MGMT_ERR_WRITE_NOT_SUPPORTED => "SETTINGS_MGMT_ERR_WRITE_NOT_SUPPORTED"@,
            SettingsMgmtRetCode::SETTINGS_MGMT_ERR_DELETE_NOT_SUPPORTED => "SETTINGS_MGMT_ERR_DELETE_NOT_SUPPORTED"@,
            SettingsMgmtRetCode::SETTINGS_MGMT_ERR_SAVE_NOT_SUPPORTED => "SETTINGS_MGMT_ERR_SAVE_NOT_SUPPORTED"@,
        }
    }

    /// The symbolic name of the code.
    pub fn name(&self) -> (r: String)
        ensures
            r@ == self.spec_name(),
    {
        match self {
            SettingsMgmtRetCode::SETTINGS_MGMT_ERR_OK => String::from_str("SETTINGS_MGMT_ERR_OK"),
            SettingsMgmtRetCode::SETTINGS_MGMT_ERR_UNKNOWN => String::from_str("SETTINGS_MGMT_ERR_UNKNOWN"),
            SettingsMgmtRetCode::SETTINGS_MGMT_ERR_KEY_TOO_LONG => String::from_str("SETTINGS_MGMT_ERR_KEY_TOO_LONG"),
            SettingsMgmtRetCode::SETTINGS_MGMT_ERR_KEY_NOT_FOUND => String::from_str("SETTINGS_MGMT_ERR_KEY_NOT_FOUND"),
            SettingsMgmtRetCode::SETTINGS_MGMT_ERR_READ_NOT_SUPPORTED => String::from_str("SETTINGS_MGMT_ERR_READ_NOT_SUPPORTED"),
            SettingsMgmtRetCode::SETTINGS_MGMT_ERR_ROOT_KEY_NOT_FOUND => String::from_str("SETTINGS_MGMT_ERR_ROOT_KEY_NOT_FOUND"),
            SettingsMgmtRetCode::SETTINGS_MGMT_ERR_WRITE_NOT_SUPPORTED => String::from_str("SETTINGS_MGMT_ERR_WRITE_NOT_SUPPORTED"),
            SettingsMgmtRetCode::SETTINGS_MGMT_ERR_DELETE_NOT_SUPPORTED => String::from_str("SETTINGS_MGMT_ERR_DELETE_NOT_SUPPORTED"),
            SettingsMgmtRetCode::SETTINGS_MGMT_ERR_SAVE_NOT_SUPPORTED => String::from_str("SETTINGS_MGMT_ERR_SAVE_NOT_SUPPORTED"),
        }
    }
}

/// The file management group error codes.
#[derive(Debug, Copy, Clone, PartialEq, Eq, Structural)]
#[allow(non_camel_case_types)]
pub enum FsMgmtErrCode {
    /// Code 0.
    FS_MGMT_ERR_OK,
    /// Code 1.
    FS_MGMT_ERR_UNKNOWN,
    /// Code 2.
    FS_MGMT_ERR_FILE_INVALID_NAME,
    /// Code 3.
    FS_MGMT_ERR_FILE_NOT_FOUND,
    /// Code 4.
    FS_MGMT_ERR_FILE_IS_DIRECTORY,
    /// Code 5.
    FS_MGMT_ERR_FILE_OPEN_FAILED,
    /// Code 6.
    FS_MGMT_ERR_FILE_SEEK_FAILED,
    /// Code 7.
    FS_MGMT_ERR_FILE_READ_FAILED,
    /// Code 8.
    FS_MGMT_ERR_FILE_TRUNCATE_FAILED,
    /// Code 9.
    FS_MGMT_ERR_FILE_DELETE_FAILED,
    /// Code 10.
    FS_MGMT_ERR_FILE_WRITE_FAILED,
    /// Code 11.
    FS_MGMT_ERR_FILE_OFFSET_NOT_VALID,
    /// Code 12.
    FS_MGMT_ERR_FILE_OFFSET_LARGER_THAN_FILE,
    /// Code 13.
    FS_MGMT_ERR_CHECKSUM_HASH_NOT_FOUND,
    /// Code 14.
    FS_MGMT_ERR_MOUNT_POINT_NOT_FOUND,
    /// Code 15.
    FS_MGMT_ERR_READ_ONLY_FILESYSTEM,
    /// Code 16.
    FS_MGMT_ERR_FILE_EMPTY,
}

impl FsMgmtErrCode {
    /// The symbolic code a numeric value denotes, if any.
    pub open spec fn spec_from_repr(code: int) -> Option<Self> {
        if code == 0 {
            Some(FsMgmtErrCode::FS_MGMT_ERR_OK)
        } else if code == 1 {
            Some(FsMgmtErrCode::FS_MGMT_ERR_UNKNOWN)
        } else if code == 2 {
            Some(FsMgmtErrCode::FS_MGMT_ERR_FILE_INVALID_NAME)
        } else if code == 3 {
            Some(FsMgmtErrCode::FS_MGMT_ERR_FILE_NOT_FOUND)
        } else if code == 4 {
            Some(FsMgmtErrCode::FS_MGMT_ERR_FILE_IS_DIRECTORY)
        } else if code == 5 {
            Some(FsMgmtErrCode::FS_MGMT_ERR_FILE_OPEN_FAILED)
        } else if code == 6 {
            Some(FsMgmtErrCode::FS_MGMT_ERR_FILE_SEEK_FAILED)
        } else if code == 7 {
            Some(FsMgmtErrCode::FS_MGMT_ERR_FILE_READ_FAILED)
        } else if code == 8 {
            Some(FsMgmtErrCode::FS_MGMT_ERR_FILE_TRUNCATE_FAILED)
        } else if code == 9 {
            Some(FsMgmtErrCode::FS_MGMT_ERR_FILE_DELETE_FAILED)
        } else if code == 10 {
            Some(FsMgmtErrCode::FS_MGMT_ERR_FILE_WRITE_FAILED)
        } else if code == 11 {
            Some(FsMgmtErrCode::FS_MGMT_ERR_FILE_OFFSET_NOT_VALID)
        } else if code == 12 {
            Some(FsMgmtErrCode::FS_MGMT_ERR_FILE_OFFSET_LARGER_THAN_FILE)
        } else if code == 13 {
            Some(FsMgmtErrCode::FS_MGMT_ERR_CHECKSUM_HASH_NOT_FOUND)
        } else if code == 14 {
            Some(FsMgmtErrCode::FS_MGMT_ERR_MOUNT_POINT_NOT_FOUND)
        } else if code == 15 {
            Some(FsMgmtErrCode::FS_MGMT_ERR_READ_ONLY_FILESYSTEM)
        } else if code == 16 {
            Some(FsMgmtErrCode::FS_MGMT_ERR_FILE_EMPTY)
        } else {
            None
        }
    }

    /// The symbolic code a numeric value denotes, if any.
    pub fn from_repr(code: i32) -> (r: Option<Self>)
        ensures
            r == Self::spec_from_repr(code as int),
    {
        if code == 0 {
            Some(FsMgmtErrCode::FS_MGMT_ERR_OK)
        } else if code == 1 {
            Some(FsMgmtErrCode::FS_MGMT_ERR_UNKNOWN)
        } else if code == 2 {
            Some(FsMgmtErrCode::FS_MGMT_ERR_FILE_INVALID_NAME)
        } else if code == 3 {
            Some(FsMgmtErrCode::FS_MGMT_ERR_FILE_NOT_FOUND)
        } else if code == 4 {
            Some(FsMgmtErrCode::FS_MGMT_ERR_FILE_IS_DIRECTORY)
        } else if code == 5 {
            Some(FsMgmtErrCode::FS_MGMT_ERR_FILE_OPEN_FAILED)
        } else if code == 6 {
            Some(FsMgmtErrCode::FS_MGMT_ERR_FILE_SEEK_FAILED)
        } else if code == 7 {
            Some(FsMgmtErrCode::FS_MGMT_ERR_FILE_READ_FAILED)
        } else if code == 8 {
            Some(FsMgmtErrCode::FS_MGMT_ERR_FILE_TRUNCATE_FAILED)
        } else if code == 9 {
            Some(FsMgmtErrCode::FS_MGMT_ERR_FILE_DELETE_FAILED)
        } else if code == 10 {
            Some(FsMgmtErrCode::FS_MGMT_ERR_FILE_WRITE_FAILED)
        } else if code == 11 {
            Some(FsMgmtErrCode::FS_MGMT_ERR_FILE_OFFSET_NOT_VALID)
        } else if code == 12 {
            Some(FsMgmtErrCode::FS_MGMT_ERR_FILE_OFFSET_LARGER_THAN_FILE)
        } else if code == 13 {
            Some(FsMgmtErrCode::FS_MGMT_ERR_CHECKSUM_HASH_NOT_FOUND)
        } else if code == 14 {
            Some(FsMgmtErrCode::FS_MGMT_ERR_MOUNT_POINT_NOT_FOUND)
        } else if code == 15 {
            Some(FsMgmtErrCode::FS_MGMT_ERR_READ_ONLY_FILESYSTEM)
        } else if code == 16 {
            Some(FsMgmtErrCode::FS_MGMT_ERR_FILE_EMPTY)
        } else {
            None
        }
    }

    /// The symbolic name of the code.
    pub open spec fn spec_name(self) -> Seq<char> {
        match self {
            FsMgmtErrCode::FS_MGMT_ERR_OK => "FS_MGMT_ERR_OK"@,
            FsMgmtErrCode::FS_MGMT_ERR_UNKNOWN => "FS_MGMT_ERR_UNKNOWN"@,
            FsMgmtErrCode::FS_MGMT_ERR_FILE_INVALID_NAME => "FS_MGMT_ERR_FILE_INVALID_NAME"@,
            FsMgmtErrCode::FS_MGMT_ERR_FILE_NOT_FOUND => "FS_MGMT_ERR_FILE_NOT_FOUND"@,
            FsMgmtErrCode::FS_MGMT_ERR_FILE_IS_DIRECTORY => "FS_MGMT_ERR_FILE_IS_DIRECTORY"@,
            FsMgmtErrCode::FS_MGMT_ERR_FILE_OPEN_FAILED => "FS_MGMT_ERR_FILE_OPEN_FAILED"@,
            FsMgmtErrCode::FS_MGMT_ERR_FILE_SEEK_FAILED => "FS_MGMT_ERR_FILE_SEEK_FAILED"@,
            FsMgmtErrCode::FS_MGMT_ERR_FILE_READ_FAILED => "FS_MGMT_ERR_FILE_READ_FAILED"@,
            FsMgmtErrCode::FS_MGMT_ERR_FILE_TRUNCATE_FAILED => "FS_MGMT_ERR_FILE_TRUNCATE_FAILED"@,
            FsMgmtErrCode::FS_MGMT_ERR_FILE_DELETE_FAILED => "FS_MGMT_ERR_FILE_DELETE_FAILED"@,
            FsMgmtErrCode::FS_MGMT_ERR_FILE_WRITE_FAILED => "FS_MGMT_ERR_FILE_WRITE_FAILED"@,
            FsMgmtErrCode::FS_MGMT_ERR_FILE_OFFSET_NOT_VALID => "FS_MGMT_ERR_FILE_OFFSET_NOT_VALID"@,
            FsMgmtErrCode::FS_MGMT_ERR_FILE_OFFSET_LARGER_THAN_FILE => "FS_MGMT_ERR_FILE_OFFSET_LARGER_THAN_FILE"@,
            FsMgmtErrCode::FS_MGMT_ERR_CHECKSUM_HASH_NOT_FOUND => "FS_MGMT_ERR_CHECKSUM_HASH_NOT_FOUND"@,
            FsMgmtErrCode::FS_MGMT_ERR_MOUNT_POINT_NOT_FOUND => "FS_MGMT_ERR_MOUNT_POINT_NOT_FOUND"@,
            FsMgmtErrCode::FS_MGMT_ERR_READ_ONLY_FILESYSTEM => "FS_MGMT_ERR_READ_ONLY_FILESYSTEM"@,
            FsMgmtErrCode::FS_MGMT_ERR_FILE_EMPTY => "FS_MGMT_ERR_FILE_EMPTY"@,
        }
    }

    /// The symbolic name of the code.
    pub fn name(&self) -> (r: String)
        ensures
            r@ == self.spec_name(),
    {
        match self {
            FsMgmtErrCode::FS_MGMT_ERR_OK => String::from_str("FS_MGMT_ERR_OK"),
            FsMgmtErrCode::FS_MGMT_ERR_UNKNOWN => String::from_str("FS_MGMT_ERR_UNKNOWN"),
            FsMgmtErrCode::FS_MGMT_ERR_FILE_INVALID_NAME => String::from_str("FS_MGMT_ERR_FILE_INVALID_NAME"),
            FsMgmtErrCode::FS_MGMT_ERR_FILE_NOT_FOUND => String::from_str("FS_MGMT_ERR_FILE_NOT_FOUND"),
            FsMgmtErrCode::FS_MGMT_ERR_FILE_IS_DIRECTORY => String::from_str("FS_MGMT_ERR_FILE_IS_DIRECTORY"),
            FsMgmtErrCode::FS_MGMT_ERR_FILE_OPEN_FAILED => String::from_str("FS_MGMT_ERR_FILE_OPEN_FAILED"),
            FsMgmtErrCode::FS_MGMT_ERR_FILE_SEEK_FAILED => String::from_str("FS_MGMT_ERR_FILE_SEEK_FAILED"),
            FsMgmtErrCode::FS_MGMT_ERR_FILE_READ_FAILED => String::from_str("FS_MGMT_ERR_FILE_READ_FAILED"),
            FsMgmtErrCode::FS_MGMT_ERR_FILE_TRUNCATE_FAILED => String::from_str("FS_MGMT_ERR_FILE_TRUNCATE_FAILED"),
            FsMgmtErrCode::FS_MGMT_ERR_FILE_DELETE_FAILED => String::from_str("FS_MGMT_ERR_FILE_DELETE_FAILED"),
            FsMgmtErrCode::FS_MGMT_ERR_FILE_WRITE_FAILED => String::from_str("FS_MGMT_ERR_FILE_WRITE_FAILED"),
            FsMgmtErrCode::FS_MGMT_ERR_FILE_OFFSET_NOT_VALID => String::from_str("FS_MGMT_ERR_FILE_OFFSET_NOT_VALID"),
            FsMgmtErrCode::FS_MGMT_ERR_FILE_OFFSET_LARGER_THAN_FILE => String::from_str("FS_MGMT_ERR_FILE_OFFSET_LARGER_THAN_FILE"),
            FsMgmtErrCode::FS_MGMT_ERR_CHECKSUM_HASH_NOT_FOUND => String::from_str("FS_MGMT_ERR_CHECKSUM_HASH_NOT_FOUND"),
            FsMgmtErrCode::FS_MGMT_ERR_MOUNT_POINT_NOT_FOUND => String::from_str("FS_MGMT_ERR_MOUNT_POINT_NOT_FOUND"),
            FsMgmtErrCode::FS_MGMT_ERR_READ_ONLY_FILESYSTEM => String::from_str("FS_MGMT_ERR_READ_ONLY_FILESYSTEM"),
            FsMgmtErrCode::FS_MGMT_ERR_FILE_EMPTY => String::from_str("FS_MGMT_ERR_FILE_EMPTY"),
        }
    }
}

/// The image management group error codes.
#[derive(Debug, Copy, Clone, PartialEq, Eq, Structural)]
#[allow(non_camel_case_types)]
pub enum ImgMgmtErrCode {
    /// Code 0.
    IMG_MGMT_ERR_OK,
    /// Code 1.
    IMG_MGMT_ERR_UNKNOWN,
    /// Code 2.
    IMG_MGMT_ERR_FLASH_CONFIG_QUERY_FAIL,
    /// Code 3.
    IMG_MGMT_ERR_NO_IMAGE,
    /// Code 4.
    IMG_MGMT_ERR_NO_TLVS,
    /// Code 5.
    IMG_MGMT_ERR_INVALID_TLV,
    /// Code 6.
    IMG_MGMT_ERR_TLV_MULTIPLE_HASHES_FOUND,
    /// Code 7.
    IMG_MGMT_ERR_TLV_INVALID_SIZE,
    /// Code 8.
    IMG_MGMT_ERR_HASH_NOT_FOUND,
    /// Code 9.
    IMG_MGMT_ERR_NO_FREE_SLOT,
    /// Code 10.
    IMG_MGMT_ERR_FLASH_OPEN_FAILED,
    /// Code 11.
    IMG_MGMT_ERR_FLASH_READ_FAILED,
    /// Code 12.
    IMG_MGMT_ERR_FLASH_WRITE_FAILED,
    /// Code 13.
    IMG_MGMT_ERR_FLASH_ERASE_FAILED,
    /// Code 14.
    IMG_MGMT_ERR_INVALID_SLOT,
    /// Code 15.
    IMG_MGMT_ERR_NO_FREE_MEMORY,
    /// Code 16.
    IMG_MGMT_ERR_FLASH_CONTEXT_ALREADY_SET,
    /// Code 17.
    IMG_MGMT_ERR_FLASH_CONTEXT_NOT_SET,
    /// Code 18.
    IMG_MGMT_ERR_FLASH_AREA_DEVICE_NULL,
    /// Code 19.
    IMG_MGMT_ERR_INVALID_PAGE_OFFSET,
    /// Code 20.
    IMG_MGMT_ERR_INVALID_OFFSET,
    /// Code 21.
    IMG_MGMT_ERR_INVALID_LENGTH,
    /// Code 22.
    IMG_MGMT_ERR_INVALID_IMAGE_HEADER,
    /// Code 23.
    IMG_MGMT_ERR_INVALID_IMAGE_HEADER_MAGIC,
    /// Code 24.
    IMG_MGMT_ERR_INVALID_HASH,
    /// Code 25.
    IMG_MGMT_ERR_INVALID_FLASH_ADDRESS,
    /// Code 26.
    IMG_MGMT_ERR_VERSION_GET_FAILED,
    /// Code 27.
    IMG_MGMT_ERR_CURRENT_VERSION_IS_NEWER,
    /// Code 28.
    IMG_MGMT_ERR_IMAGE_ALREADY_PENDING,
    /// Code 29.
    IMG_MGMT_ERR_INVALID_IMAGE_VECTOR_TABLE,
    /// Code 30.
    IMG_MGMT_ERR_INVALID_IMAGE_TOO_LARGE,
    /// Code 31.
    IMG_MGMT_ERR_INVALID_IMAGE_DATA_OVERRUN,
    /// Code 32.
    IMG_MGMT_ERR_IMAGE_CONFIRMATION_DENIED,
    /// Code 33.
    IMG_MGMT_ERR_IMAGE_SETTING_TEST_TO_ACTIVE_DENIED,
    /// Code 34.
    IMG_MGMT_ERR_ACTIVE_SLOT_NOT_KNOWN,
}

impl ImgMgmtErrCode {
    /// The symbolic code a numeric value denotes, if any.
    pub open spec fn spec_from_repr(code: int) -> Option<Self> {
        if code == 0 {
            Some(ImgMgmtErrCode::IMG_MGMT_ERR_OK)
        } else if code == 1 {
            Some(ImgMgmtErrCode::IMG_MGMT_ERR_UNKNOWN)
        } else if code == 2 {
            Some(ImgMgmtErrCode::IMG_MGMT_ERR_FLASH_CONFIG_QUERY_FAIL)
        } else if code == 3 {
            Some(ImgMgmtErrCode::IMG_MGMT_ERR_NO_IMAGE)
        } else if code == 4 {
            Some(ImgMgmtErrCode::IMG_MGMT_ERR_NO_TLVS)
        } else if code == 5 {
            Some(ImgMgmtErrCode::IMG_MGMT_ERR_INVALID_TLV)
        } else if code == 6 {
            Some(ImgMgmtErrCode::IMG_MGMT_ERR_TLV_MULTIPLE_HASHES_FOUND)
        } else if code == 7 {
            Some(ImgMgmtErrCode::IMG_MGMT_ERR_TLV_INVALID_SIZE)
        } else if code == 8 {
            Some(ImgMgmtErrCode::IMG_MGMT_ERR_HASH_NOT_FOUND)
        } else if code == 9 {
            Some(ImgMgmtErrCode::IMG_MGMT_ERR_NO_FREE_SLOT)
        } else if code == 10 {
            Some(ImgMgmtErrCode::IMG_MGMT_ERR_FLASH_OPEN_FAILED)
        } else if code == 11 {
            Some(ImgMgmtErrCode::IMG_MGMT_ERR_FLASH_READ_FAILED)
        } else if code == 12 {
            Some(ImgMgmtErrCode::IMG_MGMT_ERR_FLASH_WRITE_FAILED)
        } else if code == 13 {
            Some(ImgMgmtErrCode::IMG_MGMT_ERR_FLASH_ERASE_FAILED)
        } else if code == 14 {
            Some(ImgMgmtErrCode::IMG_MGMT_ERR_INVALID_SLOT)
        } else if code == 15 {
            Some(ImgMgmtErrCode::IMG_MGMT_ERR_NO_FREE_MEMORY)
        } else if code == 16 {
            Some(ImgMgmtErrCode::IMG_MGMT_ERR_FLASH_CONTEXT_ALREADY_SET)
        } else if code == 17 {
            Some(ImgMgmtErrCode::IMG_MGMT_ERR_FLASH_CONTEXT_NOT_SET)
        } else if code == 18 {
            Some(ImgMgmtErrCode::IMG_MGMT_ERR_FLASH_AREA_DEVICE_NULL)
        } else if code == 19 {
            Some(ImgMgmtErrCode::IMG_MGMT_ERR_INVALID_PAGE_OFFSET)
        } else if code == 20 {
            Some(ImgMgmtErrCode::IMG_MGMT_ERR_INVALID_OFFSET)
        } else if code == 21 {
            Some(ImgMgmtErrCode::IMG_MGMT_ERR_INVALID_LENGTH)
        } else if code == 22 {
            Some(ImgMgmtErrCode::IMG_MGMT_ERR_INVALID_IMAGE_HEADER)
        } else if code == 23 {
            Some(ImgMgmtErrCode::IMG_MGMT_ERR_INVALID_IMAGE_HEADER_MAGIC)
        } else if code == 24 {
            Some(ImgMgmtErrCode::IMG_MGMT_ERR_INVALID_HASH)
        } else if code == 25 {
            Some(ImgMgmtErrCode::IMG_MGMT_ERR_INVALID_FLASH_ADDRESS)
        } else if code == 26 {
            Some(ImgMgmtErrCode::IMG_MGMT_ERR_VERSION_GET_FAILED)
        } else if code == 27 {
            Some(ImgMgmtErrCode::IMG_MGMT_ERR_CURRENT_VERSION_IS_NEWER)
        } else if code == 28 {
            Some(ImgMgmtErrCode::IMG_MGMT_ERR_IMAGE_ALREADY_PENDING)
        } else if code == 29 {
            Some(ImgMgmtErrCode::IMG_MGMT_ERR_INVALID_IMAGE_VECTOR_TABLE)
        } else if code == 30 {
            Some(ImgMgmtErrCode::IMG_MGMT_ERR_INVALID_IMAGE_TOO_LARGE)
        } else if code == 31 {
            Some(ImgMgmtErrCode::IMG_MGMT_ERR_INVALID_IMAGE_DATA_OVERRUN)
        } else if code == 32 {
            Some(ImgMgmtErrCode::IMG_MGMT_ERR_IMAGE_CONFIRMATION_DENIED)
        } else if code == 33 {
            Some(ImgMgmtErrCode::IMG_MGMT_ERR_IMAGE_SETTING_TEST_TO_ACTIVE_DENIED)
        } else if code == 34 {
            Some(ImgMgmtErrCode::IMG_MGMT_ERR_ACTIVE_SLOT_NOT_KNOWN)
        } else {
            None
        }
    }

    /// The symbolic code a numeric value denotes, if any.
    pub fn from_repr(code: i32) -> (r: Option<Self>)
        ensures
            r == Self::spec_from_repr(code as int),
    {
        if code == 0 {
            Some(ImgMgmtErrCode::IMG_MGMT_ERR_OK)
        } else if code == 1 {
            Some(ImgMgmtErrCode::IMG_MGMT_ERR_UNKNOWN)
        } else if code == 2 {
            Some(ImgMgmtErrCode::IMG_MGMT_ERR_FLASH_CONFIG_QUERY_FAIL)
        } else if code == 3 {
            Some(ImgMgmtErrCode::IMG_MGMT_ERR_NO_IMAGE)
        } else if code == 4 {
            Some(ImgMgmtErrCode::IMG_MGMT_ERR_NO_TLVS)
        } else if code == 5 {
            Some(ImgMgmtErrCode::IMG_MGMT_ERR_INVALID_TLV)
        } else if code == 6 {
            Some(ImgMgmtErrCode::IMG_MGMT_ERR_TLV_MULTIPLE_HASHES_FOUND)
        } else if code == 7 {
            Some(ImgMgmtErrCode::IMG_MGMT_ERR_TLV_INVALID_SIZE)
        } else if code == 8 {
            Some(ImgMgmtErrCode::IMG_MGMT_ERR_HASH_NOT_FOUND)
        } else if code == 9 {
            Some(ImgMgmtErrCode::IMG_MGMT_ERR_NO_FREE_SLOT)
        } else if code == 10 {
            Some(ImgMgmtErrCode::IMG_MGMT_ERR_FLASH_OPEN_FAILED)
        } else if code == 11 {
            Some(ImgMgmtErrCode::IMG_MGMT_ERR_FLASH_READ_FAILED)
        } else if code == 12 {
            Some(ImgMgmtErrCode::IMG_MGMT_ERR_FLASH_WRITE_FAILED)
        } else if code == 13 {
            Some(ImgMgmtErrCode::IMG_MGMT_ERR_FLASH_ERASE_FAILED)
        } else if code == 14 {
            Some(ImgMgmtErrCode::IMG_MGMT_ERR_INVALID_SLOT)
        } else if code == 15 {
            Some(ImgMgmtErrCode::IMG_MGMT_ERR_NO_FREE_MEMORY)
        } else if code == 16 {
            Some(ImgMgmtErrCode::IMG_MGMT_ERR_FLASH_CONTEXT_ALREADY_SET)
        } else if code == 17 {
            Some(ImgMgmtErrCode::IMG_MGMT_ERR_FLASH_CONTEXT_NOT_SET)
        } else if code == 18 {
            Some(ImgMgmtErrCode::IMG_MGMT_ERR_FLASH_AREA_DEVICE_NULL)
        } else if code == 19 {
            Some(ImgMgmtErrCode::IMG_MGMT_ERR_INVALID_PAGE_OFFSET)
        } else if code == 20 {
            Some(ImgMgmtErrCode::IMG_MGMT_ERR_INVALID_OFFSET)
        } else if code == 21 {
            Some(ImgMgmtErrCode::IMG_MGMT_ERR_INVALID_LENGTH)
        } else if code == 22 {
            Some(ImgMgmtErrCode::IMG_MGMT_ERR_INVALID_IMAGE_HEADER)
        } else if code == 23 {
            Some(ImgMgmtErrCode::IMG_MGMT_ERR_INVALID_IMAGE_HEADER_MAGIC)
        } else if code == 24 {
            Some(ImgMgmtErrCode::IMG_MGMT_ERR_INVALID_HASH)
        } else if code == 25 {
            Some(ImgMgmtErrCode::IMG_MGMT_ERR_INVALID_FLASH_ADDRESS)
        } else if code == 26 {
            Some(ImgMgmtErrCode::IMG_MGMT_ERR_VERSION_GET_FAILED)
        } else if code == 27 {
            Some(ImgMgmtErrCode::IMG_MGMT_ERR_CURRENT_VERSION_IS_NEWER)
        } else if code == 28 {
            Some(ImgMgmtErrCode::IMG_MGMT_ERR_IMAGE_ALREADY_PENDING)
        } else if code == 29 {
            Some(ImgMgmtErrCode::IMG_MGMT_ERR_INVALID_IMAGE_VECTOR_TABLE)
        } else if code == 30 {
            Some(ImgMgmtErrCode::IMG_MGMT_ERR_INVALID_IMAGE_TOO_LARGE)
        } else if code == 31 {
            Some(ImgMgmtErrCode::IMG_MGMT_ERR_INVALID_IMAGE_DATA_OVERRUN)
        } else if code == 32 {
            Some(ImgMgmtErrCode::IMG_MGMT_ERR_IMAGE_CONFIRMATION_DENIED)
        } else if code == 33 {
            Some(ImgMgmtErrCode::IMG_MGMT_ERR_IMAGE_SETTING_TEST_TO_ACTIVE_DENIED)
        } else if code == 34 {
            Some(ImgMgmtErrCode::IMG_MGMT_ERR_ACTIVE_SLOT_NOT_KNOWN)
        } else {
            None
        }
    }

    /// The symbolic name of the code.
    pub open spec fn spec_name(self) -> Seq<char> {
        match self {
            ImgMgmtErrCode::IMG_MGMT_ERR_OK => "IMG_MGMT_ERR_OK"@,
            ImgMgmtErrCode::IMG_MGMT_ERR_UNKNOWN => "IMG_MGMT_ERR_UNKNOWN"@,
            ImgMgmtErrCode::IMG_MGMT_ERR_FLASH_CONFIG_QUERY_FAIL => "IMG_MGMT_ERR_FLASH_CONFIG_QUERY_FAIL"@,
            ImgMgmtErrCode::IMG_MGMT_ERR_NO_IMAGE => "IMG_MGMT_ERR_NO_IMAGE"@,
            ImgMgmtErrCode::IMG_MGMT_ERR_NO_TLVS => "IMG_MGMT_ERR_NO_TLVS"@,
            ImgMgmtErrCode::IMG_MGMT_ERR_INVALID_TLV => "IMG_MGMT_ERR_INVALID_TLV"@,
            ImgMgmtErrCode::IMG_MGMT_ERR_TLV_MULTIPLE_HASHES_FOUND => "IMG_MGMT_ERR_TLV_MULTIPLE_HASHES_FOUND"@,
            ImgMgmtErrCode::IMG_MGMT_ERR_TLV_INVALID_SIZE => "IMG_MGMT_ERR_TLV_INVALID_SIZE"@,
            ImgMgmtErrCode::IMG_MGMT_ERR_HASH_NOT_FOUND => "IMG_MGMT_ERR_HASH_NOT_FOUND"@,
            ImgMgmtErrCode::IMG_MGMT_ERR_NO_FREE_SLOT => "IMG_MGMT_ERR_NO_FREE_SLOT"@,
            ImgMgmtErrCode::IMG_MGMT_ERR_FLASH_OPEN_FAILED => "IMG_MGMT_ERR_FLASH_OPEN_FAILED"@,
            ImgMgmtErrCode::IMG_MGMT_ERR_FLASH_READ_FAILED => "IMG_MGMT_ERR_FLASH_READ_FAILED"@,
            ImgMgmtErrCode::IMG_MGMT_ERR_FLASH_WRITE_FAILED => "IMG_MGMT_ERR_FLASH_WRITE_FAILED"@,
            ImgMgmtErrCode::IMG_MGMT_ERR_FLASH_ERASE_FAILED => "IMG_MGMT_ERR_FLASH_ERASE_FAILED"@,
            ImgMgmtErrCode::IMG_MGMT_ERR_INVALID_SLOT => "IMG_MGMT_ERR_INVALID_SLOT"@,
            ImgMgmtErrCode::IMG_MGMT_ERR_NO_FREE_MEMORY => "IMG_MGMT_ERR_NO_FREE_MEMORY"@,
            ImgMgmtErrCode::IMG_MGMT_ERR_FLASH_CONTEXT_ALREADY_SET => "IMG_MGMT_ERR_FLASH_CONTEXT_ALREADY_SET"@,
            ImgMgmtErrCode::IMG_MGMT_ERR_FLASH_CONTEXT_NOT_SET => "IMG_MGMT_ERR_FLASH_CONTEXT_NOT_SET"@,
            ImgMgmtErrCode::IMG_MGMT_ERR_FLASH_AREA_DEVICE_NULL => "IMG_MGMT_ERR_FLASH_AREA_DEVICE_NULL"@,
            ImgMgmtErrCode::IMG_MGMT_ERR_INVALID_PAGE_OFFSET => "IMG_MGMT_ERR_INVALID_PAGE_OFFSET"@,
            ImgMgmtErrCode::IMG_MGMT_ERR_INVALID_OFFSET => "IMG_MGMT_ERR_INVALID_OFFSET"@,
            ImgMgmtErrCode::IMG_MGMT_ERR_INVALID_LENGTH => "IMG_MGMT_ERR_INVALID_LENGTH"@,
            ImgMgmtErrCode::IMG_MGMT_ERR_INVALID_IMAGE_HEADER => "IMG_MGMT_ERR_INVALID_IMAGE_HEADER"@,
            ImgMgmtErrCode::IMG_MGMT_ERR_INVALID_IMAGE_HEADER_MAGIC => "IMG_MGMT_ERR_INVALID_IMAGE_HEADER_MAGIC"@,
            ImgMgmtErrCode::IMG_MGMT_ERR_INVALID_HASH => "IMG_MGMT_ERR_INVALID_HASH"@,
            ImgMgmtErrCode::IMG_MGMT_ERR_INVALID_FLASH_ADDRESS => "IMG_MGMT_ERR_INVALID_FLASH_ADDRESS"@,
            ImgMgmtErrCode::IMG_MGMT_ERR_VERSION_GET_FAILED => "IMG_MGMT_ERR_VERSION_GET_FAILED"@,
            ImgMgmtErrCode::IMG_MGMT_ERR_CURRENT_VERSION_IS_NEWER => "IMG_MGMT_ERR_CURRENT_VERSION_IS_NEWER"@,
            ImgMgmtErrCode::IMG_MGMT_ERR_IMAGE_ALREADY_PENDING => "IMG_MGMT_ERR_IMAGE_ALREADY_PENDING"@,
            ImgMgmtErrCode::IMG_MGMT_ERR_INVALID_IMAGE_VECTOR_TABLE => "IMG_MGMT_ERR_INVALID_IMAGE_VECTOR_TABLE"@,
            ImgMgmtErrCode::IMG_MGMT_ERR_INVALID_IMAGE_TOO_LARGE => "IMG_MGMT_ERR_INVALID_IMAGE_TOO_LARGE"@,
            ImgMgmtErrCode::IMG_MGMT_ERR_INVALID_IMAGE_DATA_OVERRUN => "IMG_MGMT_ERR_INVALID_IMAGE_DATA_OVERRUN"@,
            ImgMgmtErrCode::IMG_MGMT_ERR_IMAGE_CONFIRMATION_DENIED => "IMG_MGMT_ERR_IMAGE_CONFIRMATION_DENIED"@,
            ImgMgmtErrCode::IMG_MGMT_ERR_IMAGE_SETTING_TEST_TO_ACTIVE_DENIED => "IMG_MGMT_ERR_IMAGE_SETTING_TEST_TO_ACTIVE_DENIED"@,
            ImgMgmtErrCode::IMG_MGMT_ERR_ACTIVE_SLOT_NOT_KNOWN => "IMG_MGMT_ERR_ACTIVE_SLOT_NOT_KNOWN"@,
        }
    }

    /// The symbolic name of the code.
    pub fn name(&self) -> (r: String)
        ensures
            r@ == self.spec_name(),
    {
        match self {
            ImgMgmtErrCode::IMG_MGMT_ERR_OK => String::from_str("IMG_MGMT_ERR_OK"),
            ImgMgmtErrCode::IMG_MGMT_ERR_UNKNOWN => String::from_str("IMG_MGMT_ERR_UNKNOWN"),
            ImgMgmtErrCode::IMG_MGMT_ERR_FLASH_CONFIG_QUERY_FAIL => String::from_str("IMG_MGMT_ERR_FLASH_CONFIG_QUERY_FAIL"),
            ImgMgmtErrCode::IMG_MGMT_ERR_NO_IMAGE => String::from_str("IMG_MGMT_ERR_NO_IMAGE"),
            ImgMgmtErrCode::IMG_MGMT_ERR_NO_TLVS => String::from_str("IMG_MGMT_ERR_NO_TLVS"),
            ImgMgmtErrCode::IMG_MGMT_ERR_INVALID_TLV => String::from_str("IMG_MGMT_ERR_INVALID_TLV"),
            ImgMgmtErrCode::IMG_MGMT_ERR_TLV_MULTIPLE_HASHES_FOUND => String::from_str("IMG_MGMT_ERR_TLV_MULTIPLE_HASHES_FOUND"),
            ImgMgmtErrCode::IMG_MGMT_ERR_TLV_INVALID_SIZE => String::from_str("IMG_MGMT_ERR_TLV_INVALID_SIZE"),
            ImgMgmtErrCode::IMG_MGMT_ERR_HASH_NOT_FOUND => String::from_str("IMG_MGMT_ERR_HASH_NOT_FOUND"),
            ImgMgmtErrCode::IMG_MGMT_ERR_NO_FREE_SLOT => String::from_str("IMG_MGMT_ERR_NO_FREE_SLOT"),
            ImgMgmtErrCode::IMG_MGMT_ERR_FLASH_OPEN_FAILED => String::from_str("IMG_MGMT_ERR_FLASH_OPEN_FAILED"),
            ImgMgmtErrCode::IMG_MGMT_ERR_FLASH_READ_FAILED => String::from_str("IMG_MGMT_ERR_FLASH_READ_FAILED"),
            ImgMgmtErrCode::IMG_MGMT_ERR_FLASH_WRITE_FAILED => String::from_str("IMG_MGMT_ERR_FLASH_WRITE_FAILED"),
            ImgMgmtErrCode::IMG_MGMT_ERR_FLASH_ERASE_FAILED => String::from_str("IMG_MGMT_ERR_FLASH_ERASE_FAILED"),
            ImgMgmtErrCode::IMG_MGMT_ERR_INVALID_SLOT => String::from_str("IMG_MGMT_ERR_INVALID_SLOT"),
            ImgMgmtErrCode::IMG_MGMT_ERR_NO_FREE_MEMORY => String::from_str("IMG_MGMT_ERR_NO_FREE_MEMORY"),
            ImgMgmtErrCode::IMG_MGMT_ERR_FLASH_CONTEXT_ALREADY_SET => String::from_str("IMG_MGMT_ERR_FLASH_CONTEXT_ALREADY_SET"),
            ImgMgmtErrCode::IMG_MGMT_ERR_FLASH_CONTEXT_NOT_SET => String::from_str("IMG_MGMT_ERR_FLASH_CONTEXT_NOT_SET"),
            ImgMgmtErrCode::IMG_MGMT_ERR_FLASH_AREA_DEVICE_NULL => String::from_str("IMG_MGMT_ERR_FLASH_AREA_DEVICE_NULL"),
            ImgMgmtErrCode::IMG_MGMT_ERR_INVALID_PAGE_OFFSET => String::from_str("IMG_MGMT_ERR_INVALID_PAGE_OFFSET"),
            ImgMgmtErrCode::IMG_MGMT_ERR_INVALID_OFFSET => String::from_str("IMG_MGMT_ERR_INVALID_OFFSET"),
            ImgMgmtErrCode::IMG_MGMT_ERR_INVALID_LENGTH => String::from_str("IMG_MGMT_ERR_INVALID_LENGTH"),
            ImgMgmtErrCode::IMG_MGMT_ERR_INVALID_IMAGE_HEADER => String::from_str("IMG_MGMT_ERR_INVALID_IMAGE_HEADER"),
            ImgMgmtErrCode::IMG_MGMT_ERR_INVALID_IMAGE_HEADER_MAGIC => String::from_str("IMG_MGMT_ERR_INVALID_IMAGE_HEADER_MAGIC"),
            ImgMgmtErrCode::IMG_MGMT_ERR_INVALID_HASH => String::from_str("IMG_MGMT_ERR_INVALID_HASH"),
            ImgMgmtErrCode::IMG_MGMT_ERR_INVALID_FLASH_ADDRESS => String::from_str("IMG_MGMT_ERR_INVALID_FLASH_ADDRESS"),
            ImgMgmtErrCode::IMG_MGMT_ERR_VERSION_GET_FAILED => String::from_str("IMG_MGMT_ERR_VERSION_GET_FAILED"),
            ImgMgmtErrCode::IMG_MGMT_ERR_CURRENT_VERSION_IS_NEWER => String::from_str("IMG_MGMT_ERR_CURRENT_VERSION_IS_NEWER"),
            ImgMgmtErrCode::IMG_MGMT_ERR_IMAGE_ALREADY_PENDING => String::from_str("IMG_MGMT_ERR_IMAGE_ALREADY_PENDING"),
            ImgMgmtErrCode::IMG_MGMT_ERR_INVALID_IMAGE_VECTOR_TABLE => String::from_str("IMG_MGMT_ERR_INVALID_IMAGE_VECTOR_TABLE"),
            ImgMgmtErrCode::IMG_MGMT_ERR_INVALID_IMAGE_TOO_LARGE => String::from_str("IMG_MGMT_ERR_INVALID_IMAGE_TOO_LARGE"),
            ImgMgmtErrCode::IMG_MGMT_ERR_INVALID_IMAGE_DATA_OVERRUN => String::from_str("IMG_MGMT_ERR_INVALID_IMAGE_DATA_OVERRUN"),
            ImgMgmtErrCode::IMG_MGMT_ERR_IMAGE_CONFIRMATION_DENIED => String::from_str("IMG_MGMT_ERR_IMAGE_CONFIRMATION_DENIED"),
            ImgMgmtErrCode::IMG_MGMT_ERR_IMAGE_SETTING_TEST_TO_ACTIVE_DENIED => String::from_str("IMG_MGMT_ERR_IMAGE_SETTING_TEST_TO_ACTIVE_DENIED"),
            ImgMgmtErrCode::IMG_MGMT_ERR_ACTIVE_SLOT_NOT_KNOWN => String::from_str("IMG_MGMT_ERR_ACTIVE_SLOT_NOT_KNOWN"),
        }
    }
}

/// The OS group error codes.
#[derive(Debug, Copy, Clone, PartialEq, Eq, Structural)]
#[allow(non_camel_case_types)]
pub enum OsMgmtErrCode {
    /// Code 0.
    OS_MGMT_ERR_OK,
    /// Code 1.
    OS_MGMT_ERR_UNKNOWN,
    /// Code 2.
    OS_MGMT_ERR_INVALID_FORMAT,
    /// Code 3.
    OS_MGMT_ERR_QUERY_YIELDS_NO_ANSWER,
    /// Code 4.
    OS_MGMT_ERR_RTC_NOT_SET,
    /// Code 5.
    OS_MGMT_ERR_RTC_COMMAND_FAILED,
    /// Code 6.
    OS_MGMT_ERR_QUERY_RESPONSE_VALUE_NOT_VALID,
}

impl OsMgmtErrCode {
    /// The symbolic code a numeric value denotes, if any.
    pub open spec fn spec_from_repr(code: int) -> Option<Self> {
        if code == 0 {
            Some(OsMgmtErrCode::OS_MGMT_ERR_OK)
        } else if code == 1 {
            Some(OsMgmtErrCode::OS_MGMT_ERR_UNKNOWN)
        } else if code == 2 {
            Some(OsMgmtErrCode::OS_MGMT_ERR_INVALID_FORMAT)
        } else if code == 3 {
            Some(OsMgmtErrCode::OS_MGMT_ERR_QUERY_YIELDS_NO_ANSWER)
        } else if code == 4 {
            Some(OsMgmtErrCode::OS_MGMT_ERR_RTC_NOT_SET)
        } else if code == 5 {
            Some(OsMgmtErrCode::OS_MGMT_ERR_RTC_COMMAND_FAILED)
        } else if code == 6 {
            Some(OsMgmtErrCode::OS_MGMT_ERR_QUERY_RESPONSE_VALUE_NOT_VALID)
        } else {
            None
        }
    }

    /// The symbolic code a numeric value denotes, if any.
    pub fn from_repr(code: i32) -> (r: Option<Self>)
        ensures
            r == Self::spec_from_repr(code as int),
    {
        if code == 0 {
            Some(OsMgmtErrCode::OS_MGMT_ERR_OK)
        } else if code == 1 {
            Some(OsMgmtErrCode::OS_MGMT_ERR_UNKNOWN)
        } else if code == 2 {
            Some(OsMgmtErrCode::OS_MGMT_ERR_INVALID_FORMAT)
        } else if code == 3 {
            Some(OsMgmtErrCode::OS_MGMT_ERR_QUERY_YIELDS_NO_ANSWER)
        } else if code == 4 {
            Some(OsMgmtErrCode::OS_MGMT_ERR_RTC_NOT_SET)
        } else if code == 5 {
            Some(OsMgmtErrCode::OS_MGMT_ERR_RTC_COMMAND_FAILED)
        } else if code == 6 {
            Some(OsMgmtErrCode::OS_MGMT_ERR_QUERY_RESPONSE_VALUE_NOT_VALID)
        } else {
            None
        }
    }

    /// The symbolic name of the code.
    pub open spec fn spec_name(self) -> Seq<char> {
        match self {
            OsMgmtErrCode::OS_MGMT_ERR_OK => "OS_MGMT_ERR_OK"@,
            OsMgmtErrCode::OS_MGMT_ERR_UNKNOWN => "OS_MGMT_ERR_UNKNOWN"@,
            OsMgmtErrCode::OS_MGMT_ERR_INVALID_FORMAT => "OS_MGMT_ERR_INVALID_FORMAT"@,
            OsMgmtErrCode::OS_MGMT_ERR_QUERY_YIELDS_NO_ANSWER => "OS_MGMT_ERR_QUERY_YIELDS_NO_ANSWER"@,
            OsMgmtErrCode::OS_MGMT_ERR_RTC_NOT_SET => "OS_MGMT_ERR_RTC_NOT_SET"@,
            OsMgmtErrCode::OS_MGMT_ERR_RTC_COMMAND_FAILED => "OS_MGMT_ERR_RTC_COMMAND_FAILED"@,
            OsMgmtErrCode::OS_MGMT_ERR_QUERY_RESPONSE_VALUE_NOT_VALID => "OS_MGMT_ERR_QUERY_RESPONSE_VALUE_NOT_VALID"@,
        }
    }

    /// The symbolic name of the code.
    pub fn name(&self) -> (r: String)
        ensures
            r@ == self.spec_name(),
    {
        match self {
            OsMgmtErrCode::OS_MGMT_ERR_OK => String::from_str("OS_MGMT_ERR_OK"),
            OsMgmtErrCode::OS_MGMT_ERR_UNKNOWN => String::from_str("OS_MGMT_ERR_UNKNOWN"),
            OsMgmtErrCode::OS_MGMT_ERR_INVALID_FORMAT => String::from_str("OS_MGMT_ERR_INVALID_FORMAT"),
            OsMgmtErrCode::OS_MGMT_ERR_QUERY_YIELDS_NO_ANSWER => String::from_str("OS_MGMT_ERR_QUERY_YIELDS_NO_ANSWER"),
            OsMgmtErrCode::OS_MGMT_ERR_RTC_NOT_SET => String::from_str("OS_MGMT_ERR_RTC_NOT_SET"),
            OsMgmtErrCode::OS_MGMT_ERR_RTC_COMMAND_FAILED => String::from_str("OS_MGMT_ERR_RTC_COMMAND_FAILED"),
            OsMgmtErrCode::OS_MGMT_ERR_QUERY_RESPONSE_VALUE_NOT_VALID => String::from_str("OS_MGMT_ERR_QUERY_RESPONSE_VALUE_NOT_VALID"),
        }
    }
}

/// The shell group error codes.
#[derive(Debug, Copy, Clone, PartialEq, Eq, Structural)]
#[allow(non_camel_case_types)]
pub enum ShellMgmtErrCode {
    /// Code 0.
    SHELL_MGMT_ERR_OK,
    /// Code 1.
    SHELL_MGMT_ERR_UNKNOWN,
    /// Code 2.
    SHELL_MGMT_ERR_COMMAND_TOO_LONG,
    /// Code 3.
    SHELL_MGMT_ERR_EMPTY_COMMAND,
}

impl ShellMgmtErrCode {
    /// The symbolic code a numeric value denotes, if any.
    pub open spec fn spec_from_repr(code: int) -> Option<Self> {
        if code == 0 {
            Some(ShellMgmtErrCode::SHELL_MGMT_ERR_OK)
        } else if code == 1 {
            Some(ShellMgmtErrCode::SHELL_MGMT_ERR_UNKNOWN)
        } else if code == 2 {
            Some(ShellMgmtErrCode::SHELL_MGMT_ERR_COMMAND_TOO_LONG)
        } else if code == 3 {
            Some(ShellMgmtErrCode::SHELL_MGMT_ERR_EMPTY_COMMAND)
        } else {
            None
        }
    }

    /// The symbolic code a numeric value denotes, if any.
    pub fn from_repr(code: i32) -> (r: Option<Self>)
        ensures
            r == Self::spec_from_repr(code as int),
    {
        if code == 0 {
            Some(ShellMgmtErrCode::SHELL_MGMT_ERR_OK)
        } else if code == 1 {
            Some(ShellMgmtErrCode::SHELL_MGMT_ERR_UNKNOWN)
        } else if code == 2 {
            Some(ShellMgmtErrCode::SHELL_MGMT_ERR_COMMAND_TOO_LONG)
        } else if code == 3 {
            Some(ShellMgmtErrCode::SHELL_MGMT_ERR_EMPTY_COMMAND)
        } else {
            None
        }
    }

    /// The symbolic name of the code.
    pub open spec fn spec_name(self) -> Seq<char> {
        match self {
            ShellMgmtErrCode::SHELL_MGMT_ERR_OK => "SHELL_MGMT_ERR_OK"@,
            ShellMgmtErrCode::SHELL_MGMT_ERR_UNKNOWN => "SHELL_MGMT_ERR_UNKNOWN"@,
            ShellMgmtErrCode::SHELL_MGMT_ERR_COMMAND_TOO_LONG => "SHELL_MGMT_ERR_COMMAND_TOO_LONG"@,
            ShellMgmtErrCode::SHELL_MGMT_ERR_EMPTY_COMMAND => "SHELL_MGMT_ERR_EMPTY_COMMAND"@,
        }
    }

    /// The symbolic name of the code.
    pub fn name(&self) -> (r: String)
        ensures
            r@ == self.spec_name(),
    {
        match self {
            ShellMgmtErrCode::SHELL_MGMT_ERR_OK => String::from_str("SHELL_MGMT_ERR_OK"),
            ShellMgmtErrCode::SHELL_MGMT_ERR_UNKNOWN => String::from_str("SHELL_MGMT_ERR_UNKNOWN"),
            ShellMgmtErrCode::SHELL_MGMT_ERR_COMMAND_TOO_LONG => String::from_str("SHELL_MGMT_ERR_COMMAND_TOO_LONG"),
            ShellMgmtErrCode::SHELL_MGMT_ERR_EMPTY_COMMAND => String::from_str("SHELL_MGMT_ERR_EMPTY_COMMAND"),
        }
    }
}

/// The statistics group error codes.
#[derive(Debug, Copy, Clone, PartialEq, Eq, Structural)]
#[allow(non_camel_case_types)]
pub enum StatMgmtErrCode {
    /// Code 0.
    STAT_MGMT_ERR_OK,
    /// Code 1.
    STAT_MGMT_ERR_UNKNOWN,
    /// Code 2.
    STAT_MGMT_ERR_INVALID_GROUP,
    /// Code 3.
    STAT_MGMT_ERR_INVALID_STAT_NAME,
    /// Code 4.
    STAT_MGMT_ERR_INVALID_STAT_SIZE,
    /// Code 5.
    STAT_MGMT_ERR_WALK_ABORTED,
}

impl StatMgmtErrCode {
    /// The symbolic code a numeric value denotes, if any.
    pub open spec fn spec_from_repr(code: int) -> Option<Self> {
        if code == 0 {
            Some(StatMgmtErrCode::STAT_MGMT_ERR_OK)
        } else if code == 1 {
            Some(StatMgmtErrCode::STAT_MGMT_ERR_UNKNOWN)
        } else if code == 2 {
            Some(StatMgmtErrCode::STAT_MGMT_ERR_INVALID_GROUP)
        } else if code == 3 {
            Some(StatMgmtErrCode::STAT_MGMT_ERR_INVALID_STAT_NAME)
        } else if code == 4 {
            Some(StatMgmtErrCode::STAT_MGMT_ERR_INVALID_STAT_SIZE)
        } else if code == 5 {
            Some(StatMgmtErrCode::STAT_MGMT_ERR_WALK_ABORTED)
        } else {
            None
        }
    }

    /// The symbolic code a numeric value denotes, if any.
    pub fn from_repr(code: i32) -> (r: Option<Self>)
        ensures
            r == Self::spec_from_repr(code as int),
    {
        if code == 0 {
            Some(StatMgmtErrCode::STAT_MGMT_ERR_OK)
        } else if code == 1 {
            Some(StatMgmtErrCode::STAT_MGMT_ERR_UNKNOWN)
        } else if code == 2 {
            Some(StatMgmtErrCode::STAT_MGMT_ERR_INVALID_GROUP)
        } else if code == 3 {
            Some(StatMgmtErrCode::STAT_MGMT_ERR_INVALID_STAT_NAME)
        } else if code == 4 {
            Some(StatMgmtErrCode::STAT_MGMT_ERR_INVALID_STAT_SIZE)
        } else if code == 5 {
            Some(StatMgmtErrCode::STAT_MGMT_ERR_WALK_ABORTED)
        } else {
            None
        }
    }

    /// The symbolic name of the code.
    pub open spec fn spec_name(self) -> Seq<char> {
        match self {
            StatMgmtErrCode::STAT_MGMT_ERR_OK => "STAT_MGMT_ERR_OK"@,
            StatMgmtErrCode::STAT_MGMT_ERR_UNKNOWN => "STAT_MGMT_ERR_UNKNOWN"@,
            StatMgmtErrCode::STAT_MGMT_ERR_INVALID_GROUP => "STAT_MGMT_ERR_INVALID_GROUP"@,
            StatMgmtErrCode::STAT_MGMT_ERR_INVALID_STAT_NAME => "STAT_MGMT_ERR_INVALID_STAT_NAME"@,
            StatMgmtErrCode::STAT_MGMT_ERR_INVALID_STAT_SIZE => "STAT_MGMT_ERR_INVALID_STAT_SIZE"@,
            StatMgmtErrCode::STAT_MGMT_ERR_WALK_ABORTED => "STAT_MGMT_ERR_WALK_ABORTED"@,
        }
    }

    /// The symbolic name of the code.
    pub fn name(&self) -> (r: String)
        ensures
            r@ == self.spec_name(),
    {
        match self {
            StatMgmtErrCode::STAT_MGMT_ERR_OK => String::from_str("STAT_MGMT_ERR_OK"),
            StatMgmtErrCode::STAT_MGMT_ERR_UNKNOWN => String::from_str("STAT_MGMT_ERR_UNKNOWN"),
            StatMgmtErrCode::STAT_MGMT_ERR_INVALID_GROUP => String::from_str("STAT_MGMT_ERR_INVALID_GROUP"),
            StatMgmtErrCode::STAT_MGMT_ERR_INVALID_STAT_NAME => String::from_str("STAT_MGMT_ERR_INVALID_STAT_NAME"),
            StatMgmtErrCode::STAT_MGMT_ERR_INVALID_STAT_SIZE => String::from_str("STAT_MGMT_ERR_INVALID_STAT_SIZE"),
            StatMgmtErrCode::STAT_MGMT_ERR_WALK_ABORTED => String::from_str("STAT_MGMT_ERR_WALK_ABORTED"),
        }
    }
}

/// The group enumeration error codes.
#[derive(Debug, Copy, Clone, PartialEq, Eq, Structural)]
#[allow(non_camel_case_types)]
pub enum EnumMgmtErrCode {
    /// Code 0.
    ENUM_MGMT_ERR_OK,
    /// Code 1.
    ENUM_MGMT_ERR_UNKNOWN,
    /// Code 2.
    ENUM_MGMT_ERR_TOO_MANY_GROUP_ENTRIES,
    /// Code 3.
    ENUM_MGMT_ERR_INSUFFICIENT_HEAP_FOR_ENTRIES,
    /// Code 4.
    ENUM_MGMT_ERR_INDEX_TOO_LARGE,
}

impl EnumMgmtErrCode {
    /// The symbolic code a numeric value denotes, if any.
    pub open spec fn spec_from_repr(code: int) -> Option<Self> {
        if code == 0 {
            Some(EnumMgmtErrCode::ENUM_MGMT_ERR_OK)
        } else if code == 1 {
            Some(EnumMgmtErrCode::ENUM_MGMT_ERR_UNKNOWN)
        } else if code == 2 {
            Some(EnumMgmtErrCode::ENUM_MGMT_ERR_TOO_MANY_GROUP_ENTRIES)
        } else if code == 3 {
            Some(EnumMgmtErrCode::ENUM_MGMT_ERR_INSUFFICIENT_HEAP_FOR_ENTRIES)
        } else if code == 4 {
            Some(EnumMgmtErrCode::ENUM_MGMT_ERR_INDEX_TOO_LARGE)
        } else {
            None
        }
    }

    /// The symbolic code a numeric value denotes, if any.
    pub fn from_repr(code: i32) -> (r: Option<Self>)
        ensures
            r == Self::spec_from_repr(code as int),
    {
        if code == 0 {
            Some(EnumMgmtErrCode::ENUM_MGMT_ERR_OK)
        } else if code == 1 {
            Some(EnumMgmtErrCode::ENUM_MGMT_ERR_UNKNOWN)
        } else if code == 2 {
            Some(EnumMgmtErrCode::ENUM_MGMT_ERR_TOO_MANY_GROUP_ENTRIES)
        } else if code == 3 {
            Some(EnumMgmtErrCode::ENUM_MGMT_ERR_INSUFFICIENT_HEAP_FOR_ENTRIES)
        } else if code == 4 {
            Some(EnumMgmtErrCode::ENUM_MGMT_ERR_INDEX_TOO_LARGE)
        } else {
            None
        }
    }

    /// The symbolic name of the code.
    pub open spec fn spec_name(self) -> Seq<char> {
        match self {
            EnumMgmtErrCode::ENUM_MGMT_ERR_OK => "ENUM_MGMT_ERR_OK"@,
            EnumMgmtErrCode::ENUM_MGMT_ERR_UNKNOWN => "ENUM_MGMT_ERR_UNKNOWN"@,
            EnumMgmtErrCode::ENUM_MGMT_ERR_TOO_MANY_GROUP_ENTRIES => "ENUM_MGMT_ERR_TOO_MANY_GROUP_ENTRIES"@,
            EnumMgmtErrCode::ENUM_MGMT_ERR_INSUFFICIENT_HEAP_FOR_ENTRIES => "ENUM_MGMT_ERR_INSUFFICIENT_HEAP_FOR_ENTRIES"@,
            EnumMgmtErrCode::ENUM_MGMT_ERR_INDEX_TOO_LARGE => "ENUM_MGMT_ERR_INDEX_TOO_LARGE"@,
        }
    }

    /// The symbolic name of the code.
    pub fn name(&self) -> (r: String)
        ensures
            r@ == self.spec_name(),
    {
        match self {
            EnumMgmtErrCode::ENUM_MGMT_ERR_OK => String::from_str("ENUM_MGMT_ERR_OK"),
            EnumMgmtErrCode::ENUM_MGMT_ERR_UNKNOWN => String::from_str("ENUM_MGMT_ERR_UNKNOWN"),
            EnumMgmtErrCode::ENUM_MGMT_ERR_TOO_MANY_GROUP_ENTRIES => String::from_str("ENUM_MGMT_ERR_TOO_MANY_GROUP_ENTRIES"),
            EnumMgmtErrCode::ENUM_MGMT_ERR_INSUFFICIENT_HEAP_FOR_ENTRIES => String::from_str("ENUM_MGMT_ERR_INSUFFICIENT_HEAP_FOR_ENTRIES"),
            EnumMgmtErrCode::ENUM_MGMT_ERR_INDEX_TOO_LARGE => String::from_str("ENUM_MGMT_ERR_INDEX_TOO_LARGE"),
        }
    }
}

/// The Zephyr basic group error codes.
#[derive(Debug, Copy, Clone, PartialEq, Eq, Structural)]
#[allow(non_camel_case_types)]
pub enum ZephyrBasicGroupErrCode {
    /// Code 0.
    ZEPHYRBASIC_MGMT_ERR_OK,
    /// Code 1.
    ZEPHYRBASIC_MGMT_ERR_UNKNOWN,
    /// Code 2.
    ZEPHYRBASIC_MGMT_ERR_FLASH_OPEN_FAILED,
    /// Code 3.
    ZEPHYRBASIC_MGMT_ERR_FLASH_CONFIG_QUERY_FAIL,
    /// Code 4.
    ZEPHYRBASIC_MGMT_ERR_FLASH_ERASE_FAILED,
}

impl ZephyrBasicGroupErrCode {
    /// The symbolic code a numeric value denotes, if any.
    pub open spec fn spec_from_repr(code: int) -> Option<Self> {
        if code == 0 {
            Some(ZephyrBasicGroupErrCode::ZEPHYRBASIC_MGMT_ERR_OK)
        } else if code == 1 {
            Some(ZephyrBasicGroupErrCode::ZEPHYRBASIC_MGMT_ERR_UNKNOWN)
        } else if code == 2 {
            Some(ZephyrBasicGroupErrCode::ZEPHYRBASIC_MGMT_ERR_FLASH_OPEN_FAILED)
        } else if code == 3 {
            Some(ZephyrBasicGroupErrCode::ZEPHYRBASIC_MGMT_ERR_FLASH_CONFIG_QUERY_FAIL)
        } else if code == 4 {
            Some(ZephyrBasicGroupErrCode::ZEPHYRBASIC_MGMT_ERR_FLASH_ERASE_FAILED)
        } else {
            None
        }
    }

    /// The symbolic code a numeric value denotes, if any.
    pub fn from_repr(code: i32) -> (r: Option<Self>)
        ensures
            r == Self::spec_from_repr(code as int),
    {
        if code == 0 {
            Some(ZephyrBasicGroupErrCode::ZEPHYRBASIC_MGMT_ERR_OK)
        } else if code == 1 {
            Some(ZephyrBasicGroupErrCode::ZEPHYRBASIC_MGMT_ERR_UNKNOWN)
        } else if code == 2 {
            Some(ZephyrBasicGroupErrCode::ZEPHYRBASIC_MGMT_ERR_FLASH_OPEN_FAILED)
        } else if code == 3 {
            Some(ZephyrBasicGroupErrCode::ZEPHYRBASIC_MGMT_ERR_FLASH_CONFIG_QUERY_FAIL)
        } else if code == 4 {
            Some(ZephyrBasicGroupErrCode::ZEPHYRBASIC_MGMT_ERR_FLASH_ERASE_FAILED)
        } else {
            None
        }
    }

    /// The symbolic name of the code.
    pub open spec fn spec_name(self) -> Seq<char> {
        match self {
            ZephyrBasicGroupErrCode::ZEPHYRBASIC_MGMT_ERR_OK => "ZEPHYRBASIC_MGMT_ERR_OK"@,
            ZephyrBasicGroupErrCode::ZEPHYRBASIC_MGMT_ERR_UNKNOWN => "ZEPHYRBASIC_MGMT_ERR_UNKNOWN"@,
            ZephyrBasicGroupErrCode::ZEPHYRBASIC_MGMT_ERR_FLASH_OPEN_FAILED => "ZEPHYRBASIC_MGMT_ERR_FLASH_OPEN_FAILED"@,
            ZephyrBasicGroupErrCode::ZEPHYRBASIC_MGMT_ERR_FLASH_CONFIG_QUERY_FAIL => "ZEPHYRBASIC_MGMT_ERR_FLASH_CONFIG_QUERY_FAIL"@,
            ZephyrBasicGroupErrCode::ZEPHYRBASIC_MGMT_ERR_FLASH_ERASE_FAILED => "ZEPHYRBASIC_MGMT_ERR_FLASH_ERASE_FAILED"@,
        }
    }

    /// The symbolic name of the code.
    pub fn name(&self) -> (r: String)
        ensures
            r@ == self.spec_name(),
    {
        match self {
            ZephyrBasicGroupErrCode::ZEPHYRBASIC_MGMT_ERR_OK => String::from_str("ZEPHYRBASIC_MGMT_ERR_OK"),
            ZephyrBasicGroupErrCode::ZEPHYRBASIC_MGMT_ERR_UNKNOWN => String::from_str("ZEPHYRBASIC_MGMT_ERR_UNKNOWN"),
            ZephyrBasicGroupErrCode::ZEPHYRBASIC_MGMT_ERR_FLASH_OPEN_FAILED => String::from_str("ZEPHYRBASIC_MGMT_ERR_FLASH_OPEN_FAILED"),
            ZephyrBasicGroupErrCode::ZEPHYRBASIC_MGMT_ERR_FLASH_CONFIG_QUERY_FAIL => String::from_str("ZEPHYRBASIC_MGMT_ERR_FLASH_CONFIG_QUERY_FAIL"),
            ZephyrBasicGroupErrCode::ZEPHYRBASIC_MGMT_ERR_FLASH_ERASE_FAILED => String::from_str("ZEPHYRBASIC_MGMT_ERR_FLASH_ERASE_FAILED"),
        }
    }
}

/// The text of a version 1 error code: its symbolic name below the
/// per-user range, the per-user marker with the number from 256 on, and an
/// unknown marker otherwise.
pub open spec fn spec_err_to_string(err: int) -> Seq<char> {
    if err >= 256 {
        "MGMT_ERR_EPERUSER("@ + spec_dec_signed(err) + ")"@
    } else {
        match MCUmgrErr::spec_from_repr(err) {
            Some(e) => e.spec_name(),
            None => "MGMT_ERR_UNKNOWN("@ + spec_dec_signed(err) + ")"@,
        }
    }
}

impl MCUmgrErr {
    /// Renders a raw version 1 error code as text.
    pub fn err_to_string(err: i32) -> (r: String)
        ensures
            r@ == spec_err_to_string(err as int),
    {
        proof {
            reveal_strlit("MGMT_ERR_EPERUSER(");
            reveal_strlit("MGMT_ERR_UNKNOWN(");
            reveal_strlit(")");
        }
        if err >= 256 {
            let mut s = String::from_str("MGMT_ERR_EPERUSER(");
            s.append(i32_to_string(err).as_str());
            s.append(")");
            proof {
                assert(s@ =~= spec_err_to_string(err as int));
            }
            s
        } else {
            match Self::from_repr(err) {
                Some(e) => e.name(),
                None => {
                    let mut s = String::from_str("MGMT_ERR_UNKNOWN(");
                    s.append(i32_to_string(err).as_str());
                    s.append(")");
                    proof {
                        assert(s@ =~= spec_err_to_string(err as int));
                    }
                    s
                },
            }
        }
    }
}

/// The symbolic text of a version 2 group error, when both the group and
/// its code are known.
pub open spec fn spec_v2_err_to_string(group: int, rc: int) -> Option<Seq<char>> {
    match MCUmgrGroup::spec_from_id(group as u16) {
        None => None,
        Some(g) => match g {
            MCUmgrGroup::MGMT_GROUP_ID_ENUM => match EnumMgmtErrCode::spec_from_repr(rc) {
                Some(e) => Some(e.spec_name()),
                None => None,
            },
            MCUmgrGroup::MGMT_GROUP_ID_FS => match FsMgmtErrCode::spec_from_repr(rc) {
                Some(e) => Some(e.spec_name()),
                None => None,
            },
            MCUmgrGroup::MGMT_GROUP_ID_IMAGE => match ImgMgmtErrCode::spec_from_repr(rc) {
                Some(e) => Some(e.spec_name()),
                None => None,
            },
            MCUmgrGroup::MGMT_GROUP_ID_OS => match OsMgmtErrCode::spec_from_repr(rc) {
                Some(e) => Some(e.spec_name()),
                None => None,
            },
            MCUmgrGroup::MGMT_GROUP_ID_SETTINGS => match SettingsMgmtRetCode::spec_from_repr(rc) {
                Some(e) => Some(e.spec_name()),
                None => None,
            },
            MCUmgrGroup::MGMT_GROUP_ID_SHELL => match ShellMgmtErrCode::spec_from_repr(rc) {
                Some(e) => Some(e.spec_name()),
                None => None,
            },
            MCUmgrGroup::MGMT_GROUP_ID_STAT => match StatMgmtErrCode::spec_from_repr(rc) {
                Some(e) => Some(e.spec_name()),
                None => None,
            },
            MCUmgrGroup::ZEPHYR_MGMT_GRP_BASIC => match ZephyrBasicGroupErrCode::spec_from_repr(
                rc,
            ) {
                Some(e) => Some(e.spec_name()),
                None => None,
            },
            _ => None,
        },
    }
}

/// Renders a version 2 group error symbolically, when the group and its
/// code are known.
pub fn v2_err_to_string(group: u16, rc: i32) -> (r: Option<String>)
    ensures
        ({
            match spec_v2_err_to_string(group as int, rc as int) {
                Some(t) => r is Some && r->0@ == t,
                None => r is None,
            }
        }),
{
    let g = match MCUmgrGroup::from_repr(group) {
        Some(g) => g,
        None => {
            return None;
        },
    };
    match g {
        MCUmgrGroup::MGMT_GROUP_ID_ENUM => match EnumMgmtErrCode::from_repr(rc) {
            Some(e) => Some(e.name()),
            None => None,
        },
        MCUmgrGroup::MGMT_GROUP_ID_FS => match FsMgmtErrCode::from_repr(rc) {
            Some(e) => Some(e.name()),
            None => None,
        },
        MCUmgrGroup::MGMT_GROUP_ID_IMAGE => match ImgMgmtErrCode::from_repr(rc) {
            Some(e) => Some(e.name()),
            None => None,
        },
        MCUmgrGroup::MGMT_GROUP_ID_OS => match OsMgmtErrCode::from_repr(rc) {
            Some(e) => Some(e.name()),
            None => None,
        },
        MCUmgrGroup::MGMT_GROUP_ID_SETTINGS => match SettingsMgmtRetCode::from_repr(rc) {
            Some(e) => Some(e.name()),
            None => None,
        },
        MCUmgrGroup::MGMT_GROUP_ID_SHELL => match ShellMgmtErrCode::from_repr(rc) {
            Some(e) => Some(e.name()),
            None => None,
        },
        MCUmgrGroup::MGMT_GROUP_ID_STAT => match StatMgmtErrCode::from_repr(rc) {
            Some(e) => Some(e.name()),
            None => None,
        },
        MCUmgrGroup::ZEPHYR_MGMT_GRP_BASIC => match ZephyrBasicGroupErrCode::from_repr(rc) {
            Some(e) => Some(e.name()),
            None => None,
        },
        _ => None,
    }
}

impl DeviceError {
    /// Renders the device error as text: the symbolic name where one is
    /// known, the raw numbers otherwise.
    pub fn describe(&self) -> (r: String) {
        proof {
            reveal_strlit("group=");
            reveal_strlit(",rc=");
        }
        match self {
            DeviceError::V1 { rc, .. } => MCUmgrErr::err_to_string(*rc),
            DeviceError::V2 { group, rc } => match v2_err_to_string(*group, *rc) {
                Some(s) => s,
                None => {
                    let mut s = String::from_str("group=");
                    s.append(crate::numfmt::u64_to_string(*group as u64).as_str());
                    s.append(",rc=");
                    s.append(i32_to_string(*rc).as_str());
                    s
                },
            },
        }
    }
}

} // verus!
