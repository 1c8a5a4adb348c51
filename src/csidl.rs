//! Identifiers of the shell's special folders.

use vstd::prelude::*;
use crate::text::{c_string_lossy, c_text};

verus! {

/// Shell identifiers of the special folders, as the platform numbers them.
pub const CSIDL_APPDATA: i32 = 0x001a;
pub const CSIDL_PROGRAM_FILES: i32 = 0x0026;
pub const CSIDL_PROGRAM_FILESX86: i32 = 0x002a;
pub const CSIDL_PROGRAM_FILES_COMMON: i32 = 0x002b;
pub const CSIDL_PROGRAM_FILES_COMMONX86: i32 = 0x002c;

/// The special folders that can be looked up.
#[derive(Debug, Clone, Copy, PartialEq, Eq, Structural)]
pub enum CSIDL {
    CommonAppData,
    ProgramFiles,
    ProgramFilesX86,
    CommonProgramFiles,
    CommonProgramFilesX86,
}

/// The shell identifier of a special folder.
pub open spec fn csidl_code(c: CSIDL) -> i32 {
    match c {
        CSIDL::CommonAppData => CSIDL_APPDATA,
        CSIDL::ProgramFiles => CSIDL_PROGRAM_FILES,
        CSIDL::ProgramFilesX86 => CSIDL_PROGRAM_FILESX86,
        CSIDL::CommonProgramFiles => CSIDL_PROGRAM_FILES_COMMON,
        CSIDL::CommonProgramFilesX86 => CSIDL_PROGRAM_FILES_COMMONX86,
    }
}

impl From<CSIDL> for i32 {
    fn from(c: CSIDL) -> (r: i32) {
        match c {
            CSIDL::CommonAppData => CSIDL_APPDATA,
            CSIDL::ProgramFiles => CSIDL_PROGRAM_FILES,
            CSIDL::ProgramFilesX86 => CSIDL_PROGRAM_FILESX86,
            CSIDL::CommonProgramFiles => CSIDL_PROGRAM_FILES_COMMON,
            CSIDL::CommonProgramFilesX86 => CSIDL_PROGRAM_FILES_COMMONX86,
        }
    }
}

impl vstd::std_specs::convert::FromSpecImpl<CSIDL> for i32 {
    open spec fn obeys_from_spec() -> bool {
        true
    }

    open spec fn from_spec(c: CSIDL) -> i32 {
        csidl_code(c)
    }
}

/// The outcome of a special-folder lookup: `ret` is what the lookup entry
/// point returned, `buf` the buffer it filled. Zero is a failure carrying
/// the platform's text; otherwise the folder is the buffer's text up to
/// its first NUL.
pub fn special_folder_result(ret: i32, buf: &[u8], platform_text: String) -> (r: Result<
    String,
    String,
>)
    ensures
        match r {
            Ok(s) => ret != 0 && s@ == c_text(buf@),
            Err(t) => ret == 0 && t@ == platform_text@,
        },
{
    if ret == 0 {
        Err(platform_text)
    } else {
        Ok(c_string_lossy(buf))
    }
}

} // verus!
