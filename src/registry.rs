//! Registry values and the decisions taken on what the platform's registry
//! entry points report.

use vstd::prelude::*;
use crate::text::{c_string_lossy, c_text};

verus! {

/// Registry type tags, as the platform numbers them.
pub const REG_NONE: u32 = 0;
pub const REG_SZ: u32 = 1;
pub const REG_EXPAND_SZ: u32 = 2;
pub const REG_BINARY: u32 = 3;
pub const REG_DWORD_LITTLE_ENDIAN: u32 = 4;
pub const REG_DWORD_BIG_ENDIAN: u32 = 5;
pub const REG_LINK: u32 = 6;
pub const REG_MULTI_SZ: u32 = 7;
pub const REG_RESOURCE_LIST: u32 = 8;
pub const REG_FULL_RESOURCE_DESCRIPTOR: u32 = 9;
pub const REG_RESOURCE_REQUIREMENTS_LIST: u32 = 10;
pub const REG_QWORD: u32 = 11;

/// Status codes of the registry entry points.
pub const ERROR_SUCCESS: u32 = 0;
pub const ERROR_MORE_DATA: u32 = 234;
pub const ERROR_NO_MORE_ITEMS: u32 = 259;

/// Size of the buffers handed to the query and enumeration entry points.
pub const VALUE_BUFFER_SIZE: usize = 8192;

/// Enumeration gives up, with an error, after this many values.
pub const MAX_ENUM_ITEMS: u32 = 1_000_000;

/// The two hives that hold a persistent environment.
#[derive(Debug, Clone, Copy, PartialEq, Eq, Structural)]
pub enum RootKey {
    LocalMachine,
    CurrentUser,
}

impl RootKey {
    /// The subkey of this hive that holds its environment.
    pub fn environment_subkey(&self) -> (r: &'static str)
        ensures
            *self == RootKey::CurrentUser ==> r@ == "Environment"@,
            *self == RootKey::LocalMachine ==> r@
                == "SYSTEM\\CurrentControlSet\\Control\\Session Manager\\Environment"@,
    {
        match self {
            RootKey::LocalMachine => {
                let r = "SYSTEM\\CurrentControlSet\\Control\\Session Manager\\Environment";
                proof {
                    reveal_strlit("SYSTEM\\CurrentControlSet\\Control\\Session Manager\\Environment");
                }
                r
            },
            RootKey::CurrentUser => {
                let r = "Environment";
                proof {
                    reveal_strlit("Environment");
                }
                r
            },
        }
    }
}

/// The closed set of registry value types.
#[derive(Debug, Clone, Copy, PartialEq, Eq, Structural)]
pub enum ValueType {
    RegNone,
    RegSz,
    RegExpandSz,
    RegBinary,
    RegDwordLittleEndian,
    RegDwordBigEndian,
    RegLink,
    RegMultiSz,
    RegResourceList,
    RegFullResourceDescriptor,
    RegResourceRequirementsList,
    RegQword,
    Unknown,
}

/// The value type that a raw tag stands for.
pub open spec fn type_of_tag(tag: u32) -> ValueType {
    if tag == REG_NONE {
        ValueType::RegNone
    } else if tag == REG_SZ {
        ValueType::RegSz
    } else if tag == REG_EXPAND_SZ {
        ValueType::RegExpandSz
    } else if tag == REG_BINARY {
        ValueType::RegBinary
    } else if tag == REG_DWORD_LITTLE_ENDIAN {
        ValueType::RegDwordLittleEndian
    } else if tag == REG_DWORD_BIG_ENDIAN {
        ValueType::RegDwordBigEndian
    } else if tag == REG_LINK {
        ValueType::RegLink
    } else if tag == REG_MULTI_SZ {
        ValueType::RegMultiSz
    } else if tag == REG_RESOURCE_LIST {
        ValueType::RegResourceList
    } else if tag == REG_FULL_RESOURCE_DESCRIPTOR {
        ValueType::RegFullResourceDescriptor
    } else if tag == REG_RESOURCE_REQUIREMENTS_LIST {
        ValueType::RegResourceRequirementsList
    } else if tag == REG_QWORD {
        ValueType::RegQword
    } else {
        ValueType::Unknown
    }
}

/// The diagnostic label of a value type.
pub open spec fn type_label(t: ValueType) -> Seq<char> {
    match t {
        ValueType::RegNone => "REG_NONE"@,
        ValueType::RegSz => "REG_SZ"@,
        ValueType::RegExpandSz => "REG_EXPAND_SZ"@,
        ValueType::RegBinary => "REG_BINARY"@,
        ValueType::RegDwordLittleEndian => "REG_DWORD_LITTLE_ENDIAN"@,
        ValueType::RegDwordBigEndian => "REG_DWORD_BIG_ENDIAN"@,
        ValueType::RegLink => "REG_LINK"@,
        ValueType::RegMultiSz => "REG_MULTI_SZ"@,
        ValueType::RegResourceList => "REG_RESOURCE_LIST"@,
        ValueType::RegFullResourceDescriptor => "REG_FULL_RESOURCE_DESCRIPTOR"@,
        ValueType::RegResourceRequirementsList => "REG_RESOURCE_REQUIREMENTS_LIST"@,
        ValueType::RegQword => "REG_QWORD"@,
        ValueType::Unknown => "Unknown"@,
    }
}

impl ValueType {
    /// The value type of a raw tag; tags outside the known set are `Unknown`.
    pub fn from_tag(tag: u32) -> (r: ValueType)
        ensures
            r == type_of_tag(tag),
    {
        match tag {
            REG_NONE => ValueType::RegNone,
            REG_SZ => ValueType::RegSz,
            REG_EXPAND_SZ => ValueType::RegExpandSz,
            REG_BINARY => ValueType::RegBinary,
            REG_DWORD_LITTLE_ENDIAN => ValueType::RegDwordLittleEndian,
            REG_DWORD_BIG_ENDIAN => ValueType::RegDwordBigEndian,
            REG_LINK => ValueType::RegLink,
            REG_MULTI_SZ => ValueType::RegMultiSz,
            REG_RESOURCE_LIST => ValueType::RegResourceList,
            REG_FULL_RESOURCE_DESCRIPTOR => ValueType::RegFullResourceDescriptor,
            REG_RESOURCE_REQUIREMENTS_LIST => ValueType::RegResourceRequirementsList,
            REG_QWORD => ValueType::RegQword,
            _ => ValueType::Unknown,
        }
    }

    /// A short ASCII label for diagnostics.
    pub fn name(&self) -> (r: &'static str)
        ensures
            r@ == type_label(*self),
    {
        proof {
            reveal_strlit("REG_NONE");
            reveal_strlit("REG_SZ");
            reveal_strlit("REG_EXPAND_SZ");
            reveal_strlit("REG_BINARY");
            reveal_strlit("REG_DWORD_LITTLE_ENDIAN");
            reveal_strlit("REG_DWORD_BIG_ENDIAN");
            reveal_strlit("REG_LINK");
            reveal_strlit("REG_MULTI_SZ");
            reveal_strlit("REG_RESOURCE_LIST");
            reveal_strlit("REG_FULL_RESOURCE_DESCRIPTOR");
            reveal_strlit("REG_RESOURCE_REQUIREMENTS_LIST");
            reveal_strlit("REG_QWORD");
            reveal_strlit("Unknown");
        }
        match self {
            ValueType::RegNone => "REG_NONE",
            ValueType::RegSz => "REG_SZ",
            ValueType::RegExpandSz => "REG_EXPAND_SZ",
            ValueType::RegBinary => "REG_BINARY",
            ValueType::RegDwordLittleEndian => "REG_DWORD_LITTLE_ENDIAN",
            ValueType::RegDwordBigEndian => "REG_DWORD_BIG_ENDIAN",
            ValueType::RegLink => "REG_LINK",
            ValueType::RegMultiSz => "REG_MULTI_SZ",
            ValueType::RegResourceList => "REG_RESOURCE_LIST",
            ValueType::RegFullResourceDescriptor => "REG_FULL_RESOURCE_DESCRIPTOR",
            ValueType::RegResourceRequirementsList => "REG_RESOURCE_REQUIREMENTS_LIST",
            ValueType::RegQword => "REG_QWORD",
            ValueType::Unknown => "Unknown",
        }
    }
}

/// Whether a tag marks one of the two string-valued types.
pub open spec fn is_string_tag(tag: u32) -> bool {
    tag == REG_SZ || tag == REG_EXPAND_SZ
}

/// A registry value: its raw type tag and its exact payload.
#[derive(Debug, Clone)]
pub struct Value {
    pub var_type: u32,
    pub var_data: Vec<u8>,
}

/// The textual form of a value with tag `tag` and payload `data`: the bytes
/// before the first NUL, decoded, for the two string types; none otherwise.
pub open spec fn textual(tag: u32, data: Seq<u8>) -> Option<Seq<char>> {
    if is_string_tag(tag) {
        Some(c_text(data))
    } else {
        None
    }
}

impl Value {
    pub fn new(var_type: u32, var_data: Vec<u8>) -> (r: Value)
        ensures
            r.var_type == var_type,
            r.var_data@ == var_data@,
    {
        Value { var_type, var_data }
    }

    pub fn value_type(&self) -> (r: ValueType)
        ensures
            r == type_of_tag(self.var_type),
    {
        ValueType::from_tag(self.var_type)
    }

    /// The textual form of a `REG_SZ` or `REG_EXPAND_SZ` value; `None` for
    /// every other type.
    pub fn to_string(&self) -> (r: Option<String>)
        ensures
            r is Some <==> is_string_tag(self.var_type),
            r matches Some(s) ==> textual(self.var_type, self.var_data@) == Some(s@),
    {
        if self.var_type == REG_SZ || self.var_type == REG_EXPAND_SZ {
            Some(c_string_lossy(self.var_data.as_slice()))
        } else {
            None
        }
    }
}

/// What can go wrong while reading the registry.
#[derive(Debug, Clone)]
pub enum Error {
    /// A key could not be opened; carries the platform's text.
    KeyOpen(String),
    /// A value could not be read; carries the platform's text.
    ValueQuery(String),
    /// A value does not fit the fixed buffer.
    ValueTooLarge,
    /// Enumeration failed; carries the platform's text.
    Enumeration(String),
    /// Enumeration reached its iteration cap before the platform reported
    /// the end.
    EnumerationTruncated,
}

impl Error {
    /// A one-line description of the failure.
    pub fn message(&self) -> (r: String)
        ensures
            r@ == error_message(*self),
    {
        proof {
            reveal_strlit("failed to open key: ");
            reveal_strlit("failed to query value: ");
            reveal_strlit("value too large");
            reveal_strlit("failed to enumerate values: ");
            reveal_strlit("too many values to enumerate");
        }
        match self {
            Error::KeyOpen(t) => {
                let mut r = "failed to open key: ".to_owned();
                r.append(t.as_str());
                r
            },
            Error::ValueQuery(t) => {
                let mut r = "failed to query value: ".to_owned();
                r.append(t.as_str());
                r
            },
            Error::ValueTooLarge => "value too large".to_owned(),
            Error::Enumeration(t) => {
                let mut r = "failed to enumerate values: ".to_owned();
                r.append(t.as_str());
                r
            },
            Error::EnumerationTruncated => "too many values to enumerate".to_owned(),
        }
    }
}

/// The description of an error.
pub open spec fn error_message(e: Error) -> Seq<char> {
    match e {
        Error::KeyOpen(t) => "failed to open key: "@ + t@,
        Error::ValueQuery(t) => "failed to query value: "@ + t@,
        Error::ValueTooLarge => "value too large"@,
        Error::Enumeration(t) => "failed to enumerate values: "@ + t@,
        Error::EnumerationTruncated => "too many values to enumerate"@,
    }
}

/// The outcome of opening a key, from the status that the open entry point
/// returned and the platform's text for the last error.
pub fn open_result(status: u32, platform_text: String) -> (r: Result<(), Error>)
    ensures
        match r {
            Ok(()) => status == ERROR_SUCCESS,
            Err(Error::KeyOpen(t)) => status != ERROR_SUCCESS && t@ == platform_text@,
            Err(_) => false,
        },
{
    if status == ERROR_SUCCESS {
        Ok(())
    } else {
        Err(Error::KeyOpen(platform_text))
    }
}

/// `data` cut to the `size` bytes that the platform reported, if it holds
/// that many.
fn trimmed(data: Vec<u8>, size: u32) -> (r: Option<Vec<u8>>)
    ensures
        match r {
            Some(d) => size <= data@.len() && d@ == data@.take(size as int),
            None => size > data@.len(),
        },
{
    let mut data = data;
    if (size as usize) <= data.len() {
        data.truncate(size as usize);
        Some(data)
    } else {
        None
    }
}

/// The value that a query produced: `status` is what the query entry point
/// returned, `var_type` and `data_size` what it wrote back, `data` the buffer
/// it filled. The payload is the buffer cut to the reported size; a value
/// larger than the buffer is `ValueTooLarge`, never retried.
pub fn query_result(status: u32, var_type: u32, data: Vec<u8>, data_size: u32, platform_text: String)
    -> (r: Result<Value, Error>)
    ensures
        match r {
            Ok(v) => status == ERROR_SUCCESS && data_size <= data@.len() && v.var_type == var_type
                && v.var_data@ == data@.take(data_size as int) && v.var_data@.len() == data_size,
            Err(Error::ValueTooLarge) => status == ERROR_MORE_DATA || (status == ERROR_SUCCESS
                && data_size > data@.len()),
            Err(Error::ValueQuery(t)) => status != ERROR_SUCCESS && status != ERROR_MORE_DATA && t@
                == platform_text@,
            Err(_) => false,
        },
{
    if status == ERROR_SUCCESS {
        match trimmed(data, data_size) {
            Some(d) => Ok(Value { var_type, var_data: d }),
            None => Err(Error::ValueTooLarge),
        }
    } else if status == ERROR_MORE_DATA {
        Err(Error::ValueTooLarge)
    } else {
        Err(Error::ValueQuery(platform_text))
    }
}

/// A zero-filled buffer of the size handed to the registry entry points.
pub fn value_buffer() -> (r: Vec<u8>)
    ensures
        r@ == Seq::new(VALUE_BUFFER_SIZE as nat, |i: int| 0u8),
{
    let r = vec![0u8; VALUE_BUFFER_SIZE];
    proof {
        assert(r@ =~= Seq::new(VALUE_BUFFER_SIZE as nat, |i: int| 0u8));
    }
    r
}

/// A value enumeration in progress: the index to ask the platform for next,
/// and the entries gathered so far, in the order the platform gave them.
pub struct ValueEnumeration {
    next_index: u32,
    values: Vec<(String, Value)>,
}

/// What an enumeration does after one answer of the platform.
pub enum EnumStep {
    /// Ask for the entry at `next_index()` of the enumeration.
    Next(ValueEnumeration),
    /// The platform reported the end: these are all the entries.
    Done(Vec<(String, Value)>),
    Failed(Error),
}

/// The entry that an answer with name buffer `name`, tag `var_type` and
/// payload `data` adds.
pub open spec fn is_entry_of(e: (String, Value), name: Seq<u8>, var_type: u32, data: Seq<u8>) -> bool {
    e.0@ == c_text(name) && e.1.var_type == var_type && e.1.var_data@ == data
}

impl ValueEnumeration {
    /// The index to ask for next.
    pub closed spec fn index(self) -> nat {
        self.next_index as nat
    }

    /// The entries gathered so far.
    pub closed spec fn entries(self) -> Seq<(String, Value)> {
        self.values@
    }

    /// One entry per index asked, and the cap not reached.
    pub closed spec fn wf(self) -> bool {
        &&& self.next_index < MAX_ENUM_ITEMS
        &&& self.values@.len() == self.next_index
    }

    /// An enumeration that starts at index zero.
    pub fn new() -> (r: ValueEnumeration)
        ensures
            r.wf(),
            r.index() == 0,
            r.entries().len() == 0,
    {
        ValueEnumeration { next_index: 0, values: Vec::new() }
    }

    pub fn next_index(&self) -> (r: u32)
        requires
            self.wf(),
        ensures
            r == self.index(),
            r < MAX_ENUM_ITEMS,
    {
        self.next_index
    }

    /// Takes the platform's answer for index `next_index()`: `status` as the
    /// enumeration entry point returned it, `name` the name buffer it
    /// filled, `var_type` and `data_size` what it wrote back, `data` the
    /// buffer it filled. A successful answer adds one entry; "no more items"
    /// ends the enumeration; any other status fails it. Filling the cap
    /// without reaching the end is an error, not a partial result.
    pub fn step(
        self,
        status: u32,
        name: Vec<u8>,
        var_type: u32,
        data: Vec<u8>,
        data_size: u32,
        platform_text: String,
    ) -> (r: EnumStep)
        requires
            self.wf(),
        ensures
            match r {
                EnumStep::Next(e) => {
                    &&& status == ERROR_SUCCESS
                    &&& data_size <= data@.len()
                    &&& self.index() + 1 < MAX_ENUM_ITEMS
                    &&& e.wf()
                    &&& e.index() == self.index() + 1
                    &&& e.entries().drop_last() == self.entries()
                    &&& is_entry_of(e.entries().last(), name@, var_type, data@.take(data_size as int))
                },
                EnumStep::Done(v) => status == ERROR_NO_MORE_ITEMS && v@ == self.entries(),
                EnumStep::Failed(Error::ValueTooLarge) => status == ERROR_SUCCESS && data_size
                    > data@.len(),
                EnumStep::Failed(Error::EnumerationTruncated) => status == ERROR_SUCCESS
                    && data_size <= data@.len() && self.index() + 1 == MAX_ENUM_ITEMS,
                EnumStep::Failed(Error::Enumeration(t)) => status != ERROR_SUCCESS && status
                    != ERROR_NO_MORE_ITEMS && t@ == platform_text@,
                EnumStep::Failed(_) => false,
            },
    {
        if status == ERROR_SUCCESS {
            match trimmed(data, data_size) {
                Some(d) => {
                    if self.next_index + 1 == MAX_ENUM_ITEMS {
                        EnumStep::Failed(Error::EnumerationTruncated)
                    } else {
                        let entry_name = c_string_lossy(name.as_slice());
                        let mut values = self.values;
                        values.push((entry_name, Value { var_type, var_data: d }));
                        EnumStep::Next(
                            ValueEnumeration { next_index: self.next_index + 1, values },
                        )
                    }
                },
                None => EnumStep::Failed(Error::ValueTooLarge),
            }
        } else if status == ERROR_NO_MORE_ITEMS {
            EnumStep::Done(self.values)
        } else {
            EnumStep::Failed(Error::Enumeration(platform_text))
        }
    }
}

} // verus!
