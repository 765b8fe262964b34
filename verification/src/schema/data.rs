use vstd::prelude::*;
use vstd::string::*;

use crate::text::str_eq;

verus! {

/// A point in time: seconds and nanoseconds since the Unix epoch.
#[derive(Clone, Debug)]
pub struct Timestamp {
    pub seconds: i64,
    pub nanos: i32,
}

/// The attributes of one node of the file system.
#[derive(Clone, Debug)]
pub struct FileAttributes {
    pub handle_id: Vec<u8>,
    pub parent_handle_id: Vec<u8>,
    pub name: String,
    /// The `FileType` of the node, by its wire number.
    pub file_type: i32,
    pub mode: u32,
    pub nlink: u32,
    pub uid: u32,
    pub gid: u32,
    pub size: u64,
    pub used: u64,
    pub offset: u64,
    pub mtime: Option<Timestamp>,
    pub ctime: Option<Timestamp>,
    pub atime: Option<Timestamp>,
}

/// Space and file counts of a file system: total, free and available.
#[derive(Clone, Debug)]
pub struct FsStat {
    pub tbytes: u64,
    pub fbytes: u64,
    pub abytes: u64,
    pub tfiles: u64,
    pub ffiles: u64,
    pub afiles: u64,
}

/// The kind of a node.
#[derive(Clone, Copy, Debug, PartialEq, Eq, Structural)]
pub enum FileType {
    Unspecified,
    Regular,
    Directory,
    Block,
    Character,
    Link,
    Socket,
    Fifo,
}

/// The field name that the wire schema gives each file type.
pub open spec fn file_type_name(t: FileType) -> Seq<char> {
    match t {
        FileType::Unspecified => "FILE_TYPE_UNSPECIFIED"@,
        FileType::Regular => "FILE_TYPE_REGULAR"@,
        FileType::Directory => "FILE_TYPE_DIRECTORY"@,
        FileType::Block => "FILE_TYPE_BLOCK"@,
        FileType::Character => "FILE_TYPE_CHARACTER"@,
        FileType::Link => "FILE_TYPE_LINK"@,
        FileType::Socket => "FILE_TYPE_SOCKET"@,
        FileType::Fifo => "FILE_TYPE_FIFO"@,
    }
}

/// The file type whose schema field name is `s`, if any.
pub open spec fn file_type_from_name(s: Seq<char>) -> Option<FileType> {
    if s == "FILE_TYPE_UNSPECIFIED"@ {
        Some(FileType::Unspecified)
    } else if s == "FILE_TYPE_REGULAR"@ {
        Some(FileType::Regular)
    } else if s == "FILE_TYPE_DIRECTORY"@ {
        Some(FileType::Directory)
    } else if s == "FILE_TYPE_BLOCK"@ {
        Some(FileType::Block)
    } else if s == "FILE_TYPE_CHARACTER"@ {
        Some(FileType::Character)
    } else if s == "FILE_TYPE_LINK"@ {
        Some(FileType::Link)
    } else if s == "FILE_TYPE_SOCKET"@ {
        Some(FileType::Socket)
    } else if s == "FILE_TYPE_FIFO"@ {
        Some(FileType::Fifo)
    } else {
        None
    }
}

impl FileType {
    /// String value of the enum field names used in the schema definition.
    pub fn as_str_name(&self) -> (r: &'static str)
        ensures
            r@ == file_type_name(*self),
    {
        match self {
            FileType::Unspecified => "FILE_TYPE_UNSPECIFIED",
            FileType::Regular => "FILE_TYPE_REGULAR",
            FileType::Directory => "FILE_TYPE_DIRECTORY",
            FileType::Block => "FILE_TYPE_BLOCK",
            FileType::Character => "FILE_TYPE_CHARACTER",
            FileType::Link => "FILE_TYPE_LINK",
            FileType::Socket => "FILE_TYPE_SOCKET",
            FileType::Fifo => "FILE_TYPE_FIFO",
        }
    }

    /// Creates an enum from field names used in the schema definition.
    pub fn from_str_name(value: &str) -> (r: Option<FileType>)
        ensures
            r == file_type_from_name(value@),
    {
        if str_eq(value, "FILE_TYPE_UNSPECIFIED") {
            Some(FileType::Unspecified)
        } else if str_eq(value, "FILE_TYPE_REGULAR") {
            Some(FileType::Regular)
        } else if str_eq(value, "FILE_TYPE_DIRECTORY") {
            Some(FileType::Directory)
        } else if str_eq(value, "FILE_TYPE_BLOCK") {
            Some(FileType::Block)
        } else if str_eq(value, "FILE_TYPE_CHARACTER") {
            Some(FileType::Character)
        } else if str_eq(value, "FILE_TYPE_LINK") {
            Some(FileType::Link)
        } else if str_eq(value, "FILE_TYPE_SOCKET") {
            Some(FileType::Socket)
        } else if str_eq(value, "FILE_TYPE_FIFO") {
            Some(FileType::Fifo)
        } else {
            None
        }
    }
}

/// Reading back the name of a file type gives that file type.
pub proof fn lemma_file_type_name_roundtrip(t: FileType)
    ensures
        file_type_from_name(file_type_name(t)) == Some(t),
{
    reveal_strlit("FILE_TYPE_UNSPECIFIED");
    reveal_strlit("FILE_TYPE_REGULAR");
    reveal_strlit("FILE_TYPE_DIRECTORY");
    reveal_strlit("FILE_TYPE_BLOCK");
    reveal_strlit("FILE_TYPE_CHARACTER");
    reveal_strlit("FILE_TYPE_LINK");
    reveal_strlit("FILE_TYPE_SOCKET");
    reveal_strlit("FILE_TYPE_FIFO");
    assert("FILE_TYPE_UNSPECIFIED"@.len() == 21);
    assert("FILE_TYPE_REGULAR"@.len() == 17);
    assert("FILE_TYPE_DIRECTORY"@.len() == 19);
    assert("FILE_TYPE_BLOCK"@.len() == 15);
    assert("FILE_TYPE_CHARACTER"@.len() == 19);
    assert("FILE_TYPE_LINK"@.len() == 14);
    assert("FILE_TYPE_SOCKET"@.len() == 16);
    assert("FILE_TYPE_FIFO"@.len() == 14);
    assert("FILE_TYPE_DIRECTORY"@[10] != "FILE_TYPE_CHARACTER"@[10]);
    assert("FILE_TYPE_LINK"@[10] != "FILE_TYPE_FIFO"@[10]);
}

/// A name that parses to a file type is exactly that file type's name.
pub proof fn lemma_file_type_parse_inverse(s: Seq<char>)
    ensures
        file_type_from_name(s) matches Some(t) ==> file_type_name(t) == s,
{
}

} // verus!
