//! The entry points of the host API that the engine calls, on plain values.
//!
//! Each function here is the rule behind one entry point. The program around
//! the library reads the engine's pointers, calls the function, and writes the
//! results back.

use crate::event::Event;
use crate::handle::{close, open, HandleTable, HandleValue};
use crate::registry::{recognized_value, Registry, RegistryRoot, REG_SZ};
use crate::util::{copied_buffer, copied_len, cstr_copy};
use vstd::prelude::*;
use vstd::string::*;
use vstd::utf8::*;

verus! {

pub type DWORD = u32;

pub type UINT = u32;

pub type BOOL = i32;

pub type REGSAM = u32;

pub type LSTATUS = u32;

pub type MMRESULT = u32;

pub type HANDLE = usize;

pub type HKEY = usize;

pub type HMODULE = usize;

/// The status of a call that succeeded.
pub const ERROR_SUCCESS: u32 = 0;

/// The status of a read of a value that is not there.
pub const ERROR_FILE_NOT_FOUND: u32 = 2;

/// The longest path of the host API, in bytes.
pub const MAX_PATH: u32 = 260;

/// Memory that is handed out as it is.
pub const GMEM_FIXED: u32 = 0;

/// Memory that is handed out filled with zero bytes.
pub const GMEM_ZEROINIT: u32 = 64;

/// The alignment of every block of global memory, in bytes.
pub const GLOBAL_ALLOC_ALIGN: usize = 8;

/// The answer of a message box whose OK button was pressed.
pub const IDOK: i32 = 0;

/// The double-click time that the shim reports, in milliseconds.
pub const DOUBLE_CLICK_TIME: u32 = 500;

/// Asks for a timer resolution. The shim has nothing to set and reports
/// success.
#[allow(non_snake_case)]
pub fn timeBeginPeriod(uPeriod: UINT) -> (status: MMRESULT)
    ensures
        status == 0,
{
    0
}

/// Gives a timer resolution back. The shim has nothing to set and reports
/// success.
#[allow(non_snake_case)]
pub fn timeEndPeriod(uPeriod: UINT) -> (status: MMRESULT)
    ensures
        status == 0,
{
    0
}

/// The time within which two clicks count as a double click.
#[allow(non_snake_case)]
pub fn GetDoubleClickTime() -> (milliseconds: UINT)
    ensures
        milliseconds == DOUBLE_CLICK_TIME,
{
    DOUBLE_CLICK_TIME
}

/// Writes the path of the running program into `lpFilename` as a
/// zero-terminated text, cut to fit, and returns the number of bytes of the
/// path that were written. A buffer without room for a single byte is left
/// alone and 0 is returned.
///
/// `hModule` must be the null module, which stands for the running program;
/// `current_exe` is the path of that program.
#[allow(non_snake_case)]
pub fn GetModuleFileName(hModule: HMODULE, current_exe: &str, lpFilename: &mut [u8]) -> (written:
    DWORD)
    requires
        old(lpFilename)@.len() == 0 || hModule == 0,
        old(lpFilename)@.len() <= u32::MAX,
    ensures
        old(lpFilename)@.len() == 0 ==> written == 0 && final(lpFilename)@ == old(lpFilename)@,
        old(lpFilename)@.len() > 0 ==> {
            &&& written == copied_len(current_exe.spec_bytes().len(), old(lpFilename)@.len())
            &&& final(lpFilename)@ == copied_buffer(current_exe.spec_bytes(), old(lpFilename)@)
        },
{
    if lpFilename.len() == 0 {
        return 0;
    }
    let written = cstr_copy(current_exe, lpFilename);
    written as u32
}

/// How a block of global memory is handed out.
#[derive(Clone, Copy, Debug, PartialEq, Eq, Structural)]
pub enum AllocKind {
    /// As the allocator returns it.
    Fixed,
    /// Filled with zero bytes.
    Zeroed,
}

/// How the flags of an allocation ask for the memory.
pub open spec fn spec_alloc_kind(uFlags: UINT) -> Option<AllocKind> {
    if uFlags == GMEM_FIXED {
        Some(AllocKind::Fixed)
    } else if uFlags == GMEM_ZEROINIT {
        Some(AllocKind::Zeroed)
    } else {
        None
    }
}

/// How the flags of an allocation ask for the memory. Flags other than
/// `GMEM_FIXED` and `GMEM_ZEROINIT` are not valid and give `None`.
#[allow(non_snake_case)]
pub fn alloc_kind(uFlags: UINT) -> (kind: Option<AllocKind>)
    ensures
        kind == spec_alloc_kind(uFlags),
{
    if uFlags == GMEM_FIXED {
        Some(AllocKind::Fixed)
    } else if uFlags == GMEM_ZEROINIT {
        Some(AllocKind::Zeroed)
    } else {
        None
    }
}

/// Shows a message to the user. The shim has no user to ask: the message
/// goes to the log and the answer is always OK.
#[allow(non_snake_case)]
pub fn MessageBox(lpText: &str, lpCaption: &str, uType: UINT) -> (answer: i32)
    ensures
        answer == IDOK,
{
    IDOK
}

/// Creates an event with the given name and initial state and returns its
/// handle.
#[allow(non_snake_case)]
pub fn CreateEvent(table: &mut HandleTable, bManualReset: BOOL, bInitialState: BOOL, lpName: &str) -> (handle:
    HANDLE)
    requires
        old(table)@.has_room(),
    ensures
        handle == old(table)@.next,
        final(table)@ == old(table)@.open(final(table)@.live[handle]),
        final(table)@.live[handle] matches HandleValue::Event(event) && event.name() == lpName@
            && event.manual_reset() == (bManualReset != 0) && event.signaled() == (bInitialState
            != 0),
        old(table)@.wf() ==> final(table)@.wf() && handle != 0,
{
    let event = Event::new(lpName, bManualReset != 0, bInitialState != 0);
    open(table, event)
}

/// Opens the key at `lpSubKey` below the branch `hKey` and writes the handle
/// of the new key to `phkResult`. The two access arguments are taken and not
/// looked at.
///
/// `hKey` must be the predefined handle of the machine-wide branch or of the
/// current user's.
#[allow(non_snake_case)]
pub fn RegOpenKeyEx(
    table: &mut HandleTable,
    hKey: HKEY,
    lpSubKey: &str,
    ulOptions: DWORD,
    samDesired: REGSAM,
    phkResult: &mut HKEY,
) -> (status: LSTATUS)
    requires
        RegistryRoot::spec_from_raw(hKey) is Some,
        old(table)@.has_room(),
    ensures
        status == ERROR_SUCCESS,
        *final(phkResult) == old(table)@.next,
        final(table)@ == old(table)@.open(final(table)@.live[*final(phkResult)]),
        final(table)@.live[*final(phkResult)] matches HandleValue::RegistryKey(key) && Some(
            key.root(),
        ) == RegistryRoot::spec_from_raw(hKey) && key.sub_key() == lpSubKey@,
        old(table)@.wf() ==> final(table)@.wf() && *final(phkResult) != 0,
{
    if let Ok(handle) = Registry::open(table, hKey, lpSubKey) {
        *phkResult = handle;
    }
    ERROR_SUCCESS
}

/// Closes the key under `hKey`. Closing a handle that is not live is no
/// error.
#[allow(non_snake_case)]
pub fn RegCloseKey(table: &mut HandleTable, hKey: HKEY) -> (status: LSTATUS)
    ensures
        status == ERROR_SUCCESS,
        final(table)@ == old(table)@.close(hKey),
        old(table)@.wf() ==> final(table)@.wf(),
{
    close(table, hKey);
    ERROR_SUCCESS
}

/// Reads the value `lpValueName` of the key under `hKey`. For a value that
/// is there, the type tag goes to `lpType`, the text goes to `lpData`
/// zero-terminated and cut to fit, and the number of bytes of the text that
/// were written goes to `lpcbData`. For a handle that is not live or a name
/// that is not recognized, the status is `ERROR_FILE_NOT_FOUND` and nothing
/// is written.
///
/// `hKey` must not be the handle of something else than a key, and `lpData`
/// must have room for the terminating zero.
#[allow(non_snake_case)]
pub fn RegQueryValueEx(
    table: &HandleTable,
    hKey: HKEY,
    lpValueName: &str,
    lpType: &mut DWORD,
    lpData: &mut [u8],
    lpcbData: &mut DWORD,
) -> (status: LSTATUS)
    requires
        1 <= old(lpData)@.len() <= u32::MAX,
        table@.lookup(hKey) matches Some(value) ==> value is RegistryKey,
    ensures
        status == if table@.lookup(hKey) is Some && recognized_value(lpValueName@) is Some {
            ERROR_SUCCESS
        } else {
            ERROR_FILE_NOT_FOUND
        },
        status == ERROR_SUCCESS ==> {
            &&& *final(lpType) == REG_SZ
            &&& *final(lpcbData) == copied_len(
                encode_utf8(recognized_value(lpValueName@)->Some_0).len(),
                old(lpData)@.len(),
            )
            &&& final(lpData)@ == copied_buffer(
                encode_utf8(recognized_value(lpValueName@)->Some_0),
                old(lpData)@,
            )
        },
        status != ERROR_SUCCESS ==> {
            &&& *final(lpType) == *old(lpType)
            &&& *final(lpcbData) == *old(lpcbData)
            &&& final(lpData)@ == old(lpData)@
        },
{
    match Registry::query_value(table, hKey, lpValueName, lpData) {
        Ok(read) => {
            *lpType = read.value_type.tag();
            *lpcbData = read.written as u32;
            ERROR_SUCCESS
        },
        Err(_) => ERROR_FILE_NOT_FOUND,
    }
}

} // verus!
