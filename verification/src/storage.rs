//! The file storage service of the data application: which file names it
//! accepts, and the replies it gives for each outcome of a file operation.
use vstd::prelude::*;

verus! {

/// The name holds two dots in a row.
pub open spec fn has_parent_ref(name: Seq<char>) -> bool {
    exists|i: int| 0 <= i < name.len() - 1 && #[trigger] name[i] == '.' && name[i + 1] == '.'
}

/// The name holds a slash.
pub open spec fn has_slash(name: Seq<char>) -> bool {
    exists|i: int| 0 <= i < name.len() && #[trigger] name[i] == '/'
}

/// A name that cannot leave the data directory.
pub open spec fn acceptable_filename(name: Seq<char>) -> bool {
    !has_parent_ref(name) && !has_slash(name)
}

/// Whether a file name is accepted: no `..` and no `/` anywhere in it.
pub fn is_valid_filename(name: &str) -> (r: bool)
    ensures
        r == acceptable_filename(name@),
{
    let n = name.unicode_len();
    let mut i: usize = 0;
    let mut previous_dot = false;
    while i < n
        invariant
            n == name@.len(),
            i <= n,
            previous_dot == (i > 0 && name@[i - 1] == '.'),
            forall|j: int| 0 <= j < i ==> #[trigger] name@[j] != '/',
            forall|j: int| 0 <= j < i as int - 1 ==> !(#[trigger] name@[j] == '.' && name@[j + 1] == '.'),
        decreases n - i,
    {
        let c = name.get_char(i);
        if c == '/' {
            assert(name@[i as int] == '/');
            return false;
        }
        if c == '.' && previous_dot {
            assert(name@[i - 1] == '.' && name@[(i - 1) + 1] == '.');
            return false;
        }
        previous_dot = c == '.';
        i = i + 1;
    }
    proof {
        assert forall|j: int| 0 <= j < name@.len() - 1 implies !(#[trigger] name@[j] == '.' && name@[j
            + 1] == '.') by {}
    }
    true
}

/// Reply to a write request.
pub struct WriteFileReply {
    pub success: bool,
    pub message: String,
}

/// Reply to a read request.
pub struct ReadFileReply {
    pub success: bool,
    pub content: String,
    pub message: String,
}

/// Reply to a delete request.
pub struct DeleteFileReply {
    pub success: bool,
    pub message: String,
}

/// Reply to a listing request.
pub struct ListFilesReply {
    pub success: bool,
    pub filenames: Vec<String>,
    pub message: String,
}

/// Message for a refused file name.
pub open spec fn invalid_filename_message() -> Seq<char> {
    "Invalid filename"@
}

fn invalid_message() -> (r: String)
    ensures
        r@ == invalid_filename_message(),
{
    proof {
        reveal_strlit("Invalid filename");
    }
    String::from_str("Invalid filename")
}

fn joined(prefix: &str, rest: &str) -> (r: String)
    ensures
        r@ == prefix@ + rest@,
{
    let mut text = String::from_str(prefix);
    text.append(rest);
    text
}

/// Write `content` to the file `filename` on disk.
pub struct WriteAction {
    pub filename: String,
    pub content: String,
}

/// Read the file `filename` from disk.
pub struct ReadAction {
    pub filename: String,
}

/// Remove the file `filename` from disk.
pub struct DeleteAction {
    pub filename: String,
}

/// Decides a write request: refused with its reply when the name is not
/// acceptable (and then the disk is not touched), otherwise the write to perform.
pub fn plan_write(filename: String, content: String) -> (r: Result<WriteAction, WriteFileReply>)
    ensures
        acceptable_filename(filename@) ==> r == Ok::<WriteAction, WriteFileReply>(
            WriteAction { filename, content },
        ),
        !acceptable_filename(filename@) ==> (r matches Err(reply) && !reply.success
            && reply.message@ == invalid_filename_message()),
{
    if is_valid_filename(filename.as_str()) {
        Ok(WriteAction { filename, content })
    } else {
        Err(write_reply(filename.as_str(), None))
    }
}

/// Decides a read request: refused with its reply when the name is not
/// acceptable (and then the disk is not touched), otherwise the read to perform.
pub fn plan_read(filename: String) -> (r: Result<ReadAction, ReadFileReply>)
    ensures
        acceptable_filename(filename@) ==> r == Ok::<ReadAction, ReadFileReply>(ReadAction { filename }),
        !acceptable_filename(filename@) ==> (r matches Err(reply) && !reply.success
            && reply.content@ == Seq::<char>::empty() && reply.message@
            == invalid_filename_message()),
{
    if is_valid_filename(filename.as_str()) {
        Ok(ReadAction { filename })
    } else {
        Err(read_reply(filename.as_str(), None))
    }
}

/// Decides a delete request: refused with its reply when the name is not
/// acceptable (and then the disk is not touched), otherwise the removal to perform.
pub fn plan_delete(filename: String) -> (r: Result<DeleteAction, DeleteFileReply>)
    ensures
        acceptable_filename(filename@) ==> r == Ok::<DeleteAction, DeleteFileReply>(DeleteAction { filename }),
        !acceptable_filename(filename@) ==> (r matches Err(reply) && !reply.success
            && reply.message@ == invalid_filename_message()),
{
    if is_valid_filename(filename.as_str()) {
        Ok(DeleteAction { filename })
    } else {
        Err(delete_reply(filename.as_str(), None))
    }
}

/// The reply to a write of `filename`: refused when the name is not
/// acceptable, otherwise the outcome of the write (the error's text on failure).
pub fn write_reply(filename: &str, outcome: Option<Result<(), String>>) -> (r: WriteFileReply)
    ensures
        match outcome {
            None => !r.success && r.message@ == invalid_filename_message(),
            Some(Ok(_)) => r.success && r.message@ == "File written successfully: "@ + filename@,
            Some(Err(e)) => !r.success && r.message@ == "Failed to write file: "@ + e@,
        },
{
    match outcome {
        None => WriteFileReply { success: false, message: invalid_message() },
        Some(Ok(_)) => WriteFileReply {
            success: true,
            message: joined("File written successfully: ", filename),
        },
        Some(Err(e)) => WriteFileReply {
            success: false,
            message: joined("Failed to write file: ", e.as_str()),
        },
    }
}

/// The reply to a read of `filename`: refused when the name is not
/// acceptable, otherwise the content read or the error's text.
pub fn read_reply(filename: &str, outcome: Option<Result<String, String>>) -> (r: ReadFileReply)
    ensures
        match outcome {
            None => !r.success && r.content@ == Seq::<char>::empty() && r.message@
                == invalid_filename_message(),
            Some(Ok(content)) => r.success && r.content@ == content@ && r.message@
                == "File read successfully: "@ + filename@,
            Some(Err(e)) => !r.success && r.content@ == Seq::<char>::empty() && r.message@
                == "Failed to read file: "@ + e@,
        },
{
    match outcome {
        None => ReadFileReply { success: false, content: String::new(), message: invalid_message() },
        Some(Ok(content)) => ReadFileReply {
            success: true,
            content,
            message: joined("File read successfully: ", filename),
        },
        Some(Err(e)) => ReadFileReply {
            success: false,
            content: String::new(),
            message: joined("Failed to read file: ", e.as_str()),
        },
    }
}

/// The reply to a delete of `filename`: refused when the name is not
/// acceptable, otherwise the outcome of the removal.
pub fn delete_reply(filename: &str, outcome: Option<Result<(), String>>) -> (r: DeleteFileReply)
    ensures
        match outcome {
            None => !r.success && r.message@ == invalid_filename_message(),
            Some(Ok(_)) => r.success && r.message@ == "File deleted successfully: "@ + filename@,
            Some(Err(e)) => !r.success && r.message@ == "Failed to delete file: "@ + e@,
        },
{
    match outcome {
        None => DeleteFileReply { success: false, message: invalid_message() },
        Some(Ok(_)) => DeleteFileReply {
            success: true,
            message: joined("File deleted successfully: ", filename),
        },
        Some(Err(e)) => DeleteFileReply {
            success: false,
            message: joined("Failed to delete file: ", e.as_str()),
        },
    }
}

/// The reply to a listing: the file names found, or the error's text.
pub fn list_reply(outcome: Result<Vec<String>, String>) -> (r: ListFilesReply)
    ensures
        match outcome {
            Ok(names) => r.success && r.filenames@ == names@ && r.message@
                == "Files listed successfully"@,
            Err(e) => !r.success && r.filenames@.len() == 0 && r.message@ == "Failed to list files: "@
                + e@,
        },
{
    match outcome {
        Ok(filenames) => ListFilesReply {
            success: true,
            filenames,
            message: String::from_str("Files listed successfully"),
        },
        Err(e) => ListFilesReply {
            success: false,
            filenames: Vec::new(),
            message: joined("Failed to list files: ", e.as_str()),
        },
    }
}

/// A file lock can be dropped from the lock table when only the table and
/// the caller still hold it.
pub fn lock_is_unshared(holders: usize) -> (r: bool)
    ensures
        r == (holders <= 2),
{
    holders <= 2
}

/// The file name appears in a listing.
pub open spec fn listed(names: Seq<String>, filename: Seq<char>) -> bool {
    exists|i: int| 0 <= i < names.len() && #[trigger] names[i]@ == filename
}

/// Whether a listing names the file.
pub fn names_contain(names: &Vec<String>, filename: &String) -> (r: bool)
    ensures
        r == listed(names@, filename@),
{
    let mut i: usize = 0;
    while i < names.len()
        invariant
            i <= names.len(),
            forall|j: int| 0 <= j < i ==> (#[trigger] names@[j])@ != filename@,
        decreases names.len() - i,
    {
        if names[i] == *filename {
            assert((names@[i as int])@ == filename@);
            return true;
        }
        i = i + 1;
    }
    false
}

/// Whether a file exists, judged from a listing reply: the listing must have
/// succeeded and name the file; a failed call means it does not exist.
pub fn file_exists(listing: &Result<ListFilesReply, String>, filename: &String) -> (r: bool)
    ensures
        r == match listing {
            Ok(reply) => reply.success && listed(reply.filenames@, filename@),
            Err(_) => false,
        },
{
    match listing {
        Ok(reply) => reply.success && names_contain(&reply.filenames, filename),
        Err(_) => false,
    }
}

} // verus!
