//! The registry emulation: keys that are opened under a root, reached through
//! handles, and a small set of values that every key answers for.

use crate::error::ShimError;
use crate::handle::{close, lookup, open, HandleImpl, HandleObject, HandleTable, HandleValue};
use crate::util::{copied_buffer, copied_len, cstr_copy, str_eq};
use vstd::prelude::*;
use vstd::string::*;
use vstd::utf8::*;

verus! {

/// The predefined handle of the machine-wide branch.
pub const HKEY_LOCAL_MACHINE: usize = 0x80000000;

/// The predefined handle of the branch of the current user.
pub const HKEY_CURRENT_USER: usize = 0x80000001;

/// The type tag of a text value.
pub const REG_SZ: u32 = 1;

/// The type tag of a 32-bit integer value.
pub const REG_DWORD: u32 = 4;

/// The branches of the registry under which keys can be opened.
#[derive(Clone, Copy, Debug, PartialEq, Eq, Structural)]
pub enum RegistryRoot {
    LocalMachine,
    CurrentUser,
}

impl RegistryRoot {
    /// The branch that a predefined handle stands for.
    pub open spec fn spec_from_raw(hkey: usize) -> Option<RegistryRoot> {
        if hkey == HKEY_LOCAL_MACHINE {
            Some(RegistryRoot::LocalMachine)
        } else if hkey == HKEY_CURRENT_USER {
            Some(RegistryRoot::CurrentUser)
        } else {
            None
        }
    }

    /// The predefined handle of a branch.
    pub open spec fn spec_raw(self) -> usize {
        match self {
            RegistryRoot::LocalMachine => HKEY_LOCAL_MACHINE,
            RegistryRoot::CurrentUser => HKEY_CURRENT_USER,
        }
    }

    /// The branch that a predefined handle stands for, if it is one of the
    /// two that are supported.
    pub fn from_raw(hkey: usize) -> (root: Option<RegistryRoot>)
        ensures
            root == Self::spec_from_raw(hkey),
    {
        if hkey == HKEY_LOCAL_MACHINE {
            Some(RegistryRoot::LocalMachine)
        } else if hkey == HKEY_CURRENT_USER {
            Some(RegistryRoot::CurrentUser)
        } else {
            None
        }
    }

    /// The predefined handle of this branch.
    pub fn raw(&self) -> (hkey: usize)
        ensures
            hkey == self.spec_raw(),
    {
        match self {
            RegistryRoot::LocalMachine => HKEY_LOCAL_MACHINE,
            RegistryRoot::CurrentUser => HKEY_CURRENT_USER,
        }
    }
}

/// The kinds of value that a key can hold.
#[derive(Clone, Copy, Debug, PartialEq, Eq, Structural)]
pub enum RegistryValueType {
    /// A text.
    String,
    /// A 32-bit integer.
    Dword,
}

/// A type tag that stands for no kind of value that a key can hold.
#[derive(Clone, Copy, Debug, PartialEq, Eq, Structural)]
pub struct UnsupportedValueType {
    pub tag: u32,
}

impl RegistryValueType {
    /// The kind of value that a type tag stands for.
    pub open spec fn spec_from_tag(tag: u32) -> Result<RegistryValueType, UnsupportedValueType> {
        if tag == REG_SZ {
            Ok(RegistryValueType::String)
        } else if tag == REG_DWORD {
            Ok(RegistryValueType::Dword)
        } else {
            Err(UnsupportedValueType { tag })
        }
    }

    /// The type tag of a kind of value.
    pub open spec fn spec_tag(self) -> u32 {
        match self {
            RegistryValueType::String => REG_SZ,
            RegistryValueType::Dword => REG_DWORD,
        }
    }

    /// The kind of value that a type tag stands for. Tags of other kinds
    /// than text and 32-bit integer are refused.
    pub fn from_tag(tag: u32) -> (kind: Result<RegistryValueType, UnsupportedValueType>)
        ensures
            kind == Self::spec_from_tag(tag),
    {
        if tag == REG_SZ {
            Ok(RegistryValueType::String)
        } else if tag == REG_DWORD {
            Ok(RegistryValueType::Dword)
        } else {
            Err(UnsupportedValueType { tag })
        }
    }

    /// The type tag of this kind of value.
    pub fn tag(&self) -> (tag: u32)
        ensures
            tag == self.spec_tag(),
    {
        match self {
            RegistryValueType::String => REG_SZ,
            RegistryValueType::Dword => REG_DWORD,
        }
    }
}

/// The text that every key answers with for the value `name`, for the names
/// that the emulation recognizes.
pub open spec fn recognized_value(name: Seq<char>) -> Option<Seq<char>> {
    if name == "Language"@ {
        Some("english"@)
    } else {
        None
    }
}

/// An open registry key: a root and the path of the key below it.
pub struct RegistryKey {
    root: RegistryRoot,
    sub_key: String,
}

impl RegistryKey {
    /// The branch that the key was opened under.
    pub closed spec fn root(&self) -> RegistryRoot {
        self.root
    }

    /// The path of the key below its root.
    pub closed spec fn sub_key(&self) -> Seq<char> {
        self.sub_key@
    }

    /// Opens the key at `sub_key` below `root`. Opening is logical: every
    /// key can be opened, whether or not anything is stored under it.
    pub fn open(root: RegistryRoot, sub_key: &str) -> (key: RegistryKey)
        ensures
            key.root() == root,
            key.sub_key() == sub_key@,
    {
        RegistryKey { root, sub_key: String::from_str(sub_key) }
    }

    /// The branch that the key was opened under.
    pub fn get_root(&self) -> (root: RegistryRoot)
        ensures
            root == self.root(),
    {
        self.root
    }

    /// The path of the key below its root.
    pub fn get_sub_key(&self) -> (sub_key: &str)
        ensures
            sub_key@ == self.sub_key(),
    {
        self.sub_key.as_str()
    }

    /// The value `name` of this key: the default text of a recognized name,
    /// and nothing for any other name.
    pub fn query_value(&self, name: &str) -> (value: Option<&'static str>)
        ensures
            match value {
                Some(text) => recognized_value(name@) == Some(text@),
                None => recognized_value(name@) is None,
            },
    {
        if str_eq(name, "Language") {
            Some("english")
        } else {
            None
        }
    }
}

impl HandleImpl for RegistryKey {
    open spec fn erased(self) -> HandleValue {
        HandleValue::RegistryKey(self)
    }

    open spec fn recovered(value: HandleValue) -> Option<Self> {
        match value {
            HandleValue::RegistryKey(key) => Some(key),
            _ => None,
        }
    }

    proof fn lemma_erased_recovered(self) {
    }

    proof fn lemma_recovered_erased(value: HandleValue) {
    }

    fn into_object(self) -> (obj: HandleObject) {
        HandleObject::new(HandleValue::RegistryKey(self))
    }

    fn downcast(obj: &HandleObject) -> (found: Option<&Self>) {
        match obj.value() {
            HandleValue::RegistryKey(key) => Some(key),
            _ => None,
        }
    }
}

/// What a read of a value reports: the kind of the value and the number of
/// bytes written to the caller's buffer, the terminating zero not counted.
#[derive(Clone, Copy, Debug, PartialEq, Eq, Structural)]
pub struct ValueRead {
    pub value_type: RegistryValueType,
    pub written: usize,
}

/// The registry as the engine sees it: keys are opened into a handle table,
/// read through their handles, and closed again.
pub struct Registry {}

impl Registry {
    /// What `query_value` returns for the key under `handle` and a buffer
    /// of `capacity` bytes.
    pub open spec fn spec_query_value(
        value: Option<HandleValue>,
        name: Seq<char>,
        capacity: nat,
    ) -> Result<ValueRead, ShimError> {
        match value {
            None => Err(ShimError::NotFound),
            Some(HandleValue::RegistryKey(_)) => match recognized_value(name) {
                Some(text) => Ok(
                    ValueRead {
                        value_type: RegistryValueType::String,
                        written: copied_len(encode_utf8(text).len(), capacity) as usize,
                    },
                ),
                None => Err(ShimError::NotFound),
            },
            Some(_) => Err(ShimError::TypeMismatch),
        }
    }

    /// Opens the key at `sub_key` below the branch whose predefined handle is
    /// `root`, and returns the handle of the new key. Other branches than the
    /// machine-wide one and that of the current user are `Unimplemented`.
    pub fn open(table: &mut HandleTable, root: usize, sub_key: &str) -> (opened: Result<
        usize,
        ShimError,
    >)
        ensures
            match opened {
                Ok(handle) => {
                    &&& RegistryRoot::spec_from_raw(root) is Some
                    &&& old(table)@.has_room()
                    &&& handle == old(table)@.next
                    &&& final(table)@ == old(table)@.open(final(table)@.live[handle])
                    &&& final(table)@.live[handle] matches HandleValue::RegistryKey(key)
                    &&& Some(key.root()) == RegistryRoot::spec_from_raw(root)
                    &&& key.sub_key() == sub_key@
                },
                Err(e) => {
                    &&& final(table)@ == old(table)@
                    &&& e == if RegistryRoot::spec_from_raw(root) is None {
                        ShimError::Unimplemented
                    } else {
                        ShimError::OutOfHandles
                    }
                    &&& RegistryRoot::spec_from_raw(root) is None || !old(table)@.has_room()
                },
            },
            old(table)@.wf() ==> final(table)@.wf(),
            old(table)@.wf() && opened is Ok ==> opened->Ok_0 != 0,
    {
        match RegistryRoot::from_raw(root) {
            None => Err(ShimError::Unimplemented),
            Some(branch) => {
                if !table.has_room() {
                    return Err(ShimError::OutOfHandles);
                }
                let key = RegistryKey::open(branch, sub_key);
                let handle = open(table, key);
                Ok(handle)
            },
        }
    }

    /// Reads the value `name` of the key under `handle` into `data`, as a
    /// zero-terminated text that is cut to fit. A handle that is not live
    /// and a name that is not recognized are `NotFound`; a handle to
    /// something else than a key is `TypeMismatch`. Nothing is written
    /// unless the read succeeds.
    pub fn query_value(table: &HandleTable, handle: usize, name: &str, data: &mut [u8]) -> (read:
        Result<ValueRead, ShimError>)
        requires
            old(data)@.len() >= 1,
        ensures
            read == Self::spec_query_value(table@.lookup(handle), name@, old(data)@.len()),
            final(data)@ == if read is Ok {
                copied_buffer(encode_utf8(recognized_value(name@)->Some_0), old(data)@)
            } else {
                old(data)@
            },
    {
        match lookup::<RegistryKey>(table, handle) {
            Err(e) => Err(e),
            Ok(key) => match key.query_value(name) {
                None => Err(ShimError::NotFound),
                Some(text) => {
                    let written = cstr_copy(text, data);
                    Ok(ValueRead { value_type: RegistryValueType::String, written })
                },
            },
        }
    }

    /// Closes the key under `handle`. A handle that is not live is left
    /// alone.
    pub fn close(table: &mut HandleTable, handle: usize)
        ensures
            final(table)@ == old(table)@.close(handle),
            old(table)@.wf() ==> final(table)@.wf(),
    {
        close(table, handle)
    }
}

/// The bytes of the text `english`.
pub open spec fn english_bytes() -> Seq<u8> {
    seq![0x65u8, 0x6e, 0x67, 0x6c, 0x69, 0x73, 0x68]
}

/// Every open key answers for the value `Language` with the text `english`,
/// whatever the key and whatever the buffer: the read reports a text, writes
/// the first `capacity - 1` bytes of `english`, at most all seven, ends them
/// with a zero byte, and reports how many bytes of the text it wrote.
pub proof fn lemma_language_is_english(key: RegistryKey, data: Seq<u8>)
    requires
        data.len() >= 1,
    ensures
        recognized_value("Language"@) == Some("english"@),
        encode_utf8("english"@) == english_bytes(),
        Registry::spec_query_value(Some(key.erased()), "Language"@, data.len()) == Ok::<
            ValueRead,
            ShimError,
        >(
            ValueRead {
                value_type: RegistryValueType::String,
                written: if data.len() >= 8 {
                    7usize
                } else {
                    (data.len() - 1) as usize
                },
            },
        ),
        copied_buffer(encode_utf8("english"@), data) == english_bytes().take(
            if data.len() >= 8 {
                7
            } else {
                data.len() - 1
            },
        ) + seq![0u8] + data.skip(
            if data.len() >= 8 {
                8
            } else {
                data.len() as int
            },
        ),
{
    reveal_strlit("english");
    let text = "english"@;
    assert(is_ascii_chars(text));
    is_ascii_chars_encode_utf8(text);
}

} // verus!
