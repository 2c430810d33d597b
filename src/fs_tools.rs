use base64::Engine;
use vstd::prelude::*;

use crate::classify::{is_binary_content, is_binary_sample, sample_window, SAMPLE_LEN};
use crate::router::{binary_tool, describes, unary_tool, ToolDescriptor, ToolKind};
use crate::envelope::{
    internal_error, is_internal_error, is_outcome, prefixed, text_output, ToolError, ToolOutput,
};

verus! {

/// The line that opens the content of a binary file.
pub const BINARY_MARKER: &'static str = "[Binary file encoded as base64]\n";

/// The standard base64 encoding (RFC 4648 alphabet, with padding) of `bytes`.
pub uninterp spec fn base64_of(bytes: Seq<u8>) -> Seq<char>;

/// The length of a padded base64 encoding of `n` bytes.
pub open spec fn base64_len(n: nat) -> nat {
    4 * ((n + 2) / 3)
}

/// Relies on base64's `Engine::encode` with `general_purpose::STANDARD`: the
/// result depends on the bytes alone, and has four characters per started
/// group of three bytes. It panics where that length overflows `usize`.
#[verifier::external_body]
fn encode_base64(bytes: &[u8]) -> (r: String)
    requires
        base64_len(bytes@.len()) <= usize::MAX,
    ensures
        r@ == base64_of(bytes@),
        r@.len() == base64_len(bytes@.len()),
{
    base64::engine::general_purpose::STANDARD.encode(bytes)
}

/// The tools of the filesystem group: `read_file`, `write_file`,
/// `list_directory`, `create_directory` and `delete_file`.
pub fn tool_list() -> (r: Vec<ToolDescriptor>)
    ensures
        r@.len() == 5,
        describes(r@[0], "read_file"@, ToolKind::ReadFile, seq!["path"@]),
        describes(r@[1], "write_file"@, ToolKind::WriteFile, seq!["path"@, "content"@]),
        describes(r@[2], "list_directory"@, ToolKind::ListDirectory, seq!["path"@]),
        describes(r@[3], "create_directory"@, ToolKind::CreateDirectory, seq!["path"@]),
        describes(r@[4], "delete_file"@, ToolKind::DeleteFile, seq!["path"@]),
{
    let mut r: Vec<ToolDescriptor> = Vec::new();
    r.push(
        unary_tool(
            "read_file",
            "Read file content from the specified path",
            "path",
            ToolKind::ReadFile,
        ),
    );
    r.push(
        binary_tool(
            "write_file",
            "Write content to a file at the specified path",
            "path",
            "content",
            ToolKind::WriteFile,
        ),
    );
    r.push(
        unary_tool(
            "list_directory",
            "List all files and directories in the specified path",
            "path",
            ToolKind::ListDirectory,
        ),
    );
    r.push(
        unary_tool(
            "create_directory",
            "Create a new directory at the specified path",
            "path",
            ToolKind::CreateDirectory,
        ),
    );
    r.push(
        unary_tool(
            "delete_file",
            "Delete a file at the specified path",
            "path",
            ToolKind::DeleteFile,
        ),
    );
    r
}

/// How the content of a file is carried.
#[derive(Clone, Copy, Debug, PartialEq, Eq)]
pub enum ReadMode {
    /// As base64 behind the binary marker.
    Binary,
    /// Verbatim, as text.
    Text,
}

/// The mode in which a file whose leading bytes are `sample` is read.
pub open spec fn read_mode_of(sample: Seq<u8>) -> ReadMode {
    if is_binary_content(sample) {
        ReadMode::Binary
    } else {
        ReadMode::Text
    }
}

/// A file is read as text exactly when none of its first `SAMPLE_LEN` bytes
/// is a null byte; otherwise it is read as binary.
pub proof fn law_read_mode_by_null_byte(sample: Seq<u8>)
    ensures
        read_mode_of(sample) == ReadMode::Text <==> (forall|i: int|
            0 <= i < sample.len() && i < SAMPLE_LEN ==> sample[i] != 0u8),
        read_mode_of(sample) == ReadMode::Binary <==> (exists|i: int|
            0 <= i < sample.len() && i < SAMPLE_LEN && sample[i] == 0u8),
{
    let w = sample_window(sample);
    assert forall|i: int| 0 <= i < w.len() implies w[i] == sample[i] by {}
    if exists|i: int| 0 <= i < sample.len() && i < SAMPLE_LEN && sample[i] == 0u8 {
        let i = choose|i: int| 0 <= i < sample.len() && i < SAMPLE_LEN && sample[i] == 0u8;
        assert(w[i] == 0u8);
    }
}

/// Classification reads a bounded prefix: bytes past the first `SAMPLE_LEN`
/// never change how a file is read.
pub proof fn law_read_mode_bounded(sample: Seq<u8>, rest: Seq<u8>)
    requires
        sample.len() >= SAMPLE_LEN,
    ensures
        read_mode_of(sample + rest) == read_mode_of(sample),
{
    assert(sample_window(sample + rest) =~= sample_window(sample));
}

/// The text that a binary file of content `bytes` is returned as.
pub open spec fn binary_reply(bytes: Seq<u8>) -> Seq<char> {
    BINARY_MARKER@ + base64_of(bytes)
}

/// First step of `read_file`: from the leading bytes of the file (or the
/// error met opening or reading them), decides how the file is read.
pub fn read_mode(probe: Result<Vec<u8>, String>) -> (r: Result<ReadMode, ToolError>)
    ensures
        match probe {
            Ok(sample) => r == Ok::<ReadMode, ToolError>(read_mode_of(sample@)),
            Err(cause) => r is Err && is_internal_error(r->Err_0, "check file type"@, cause@),
        },
{
    match probe {
        Ok(sample) => {
            if is_binary_sample(sample.as_slice()) {
                Ok(ReadMode::Binary)
            } else {
                Ok(ReadMode::Text)
            }
        },
        Err(cause) => Err(internal_error("check file type", cause.as_str())),
    }
}

/// Last step of `read_file` for a binary file: the whole content, encoded as
/// base64 behind the binary marker.
pub fn binary_read_outcome(read: Result<Vec<u8>, String>) -> (r: Result<ToolOutput, ToolError>)
    requires
        read is Ok ==> base64_len(read->Ok_0@.len()) <= usize::MAX,
    ensures
        is_outcome(
            r,
            read,
            match read {
                Ok(bytes) => binary_reply(bytes@),
                Err(_) => Seq::empty(),
            },
            "read binary file"@,
        ),
{
    match read {
        Ok(bytes) => {
            let encoded = encode_base64(bytes.as_slice());
            Ok(text_output(prefixed(BINARY_MARKER, encoded.as_str())))
        },
        Err(cause) => Err(internal_error("read binary file", cause.as_str())),
    }
}

/// Last step of `read_file` for a text file: the content, verbatim.
pub fn text_read_outcome(read: Result<String, String>) -> (r: Result<ToolOutput, ToolError>)
    ensures
        is_outcome(
            r,
            read,
            match read {
                Ok(text) => text@,
                Err(_) => Seq::empty(),
            },
            "read file"@,
        ),
{
    match read {
        Ok(text) => Ok(text_output(text)),
        Err(cause) => Err(internal_error("read file", cause.as_str())),
    }
}

/// The outcome of `write_file` on `path`, given what the write returned.
pub fn write_file_outcome(path: &str, written: Result<(), String>) -> (r: Result<
    ToolOutput,
    ToolError,
>)
    ensures
        is_outcome(r, written, "Successfully wrote to "@ + path@, "write file"@),
{
    match written {
        Ok(()) => Ok(text_output(prefixed("Successfully wrote to ", path))),
        Err(cause) => Err(internal_error("write file", cause.as_str())),
    }
}

/// The outcome of `create_directory` on `path`, given what the creation of
/// the directory and its missing parents returned.
pub fn create_directory_outcome(path: &str, created: Result<(), String>) -> (r: Result<
    ToolOutput,
    ToolError,
>)
    ensures
        is_outcome(
            r,
            created,
            "Successfully created directory: "@ + path@,
            "create directory"@,
        ),
{
    match created {
        Ok(()) => Ok(text_output(prefixed("Successfully created directory: ", path))),
        Err(cause) => Err(internal_error("create directory", cause.as_str())),
    }
}

/// The outcome of `delete_file` on `path`, given what the removal returned.
pub fn delete_file_outcome(path: &str, removed: Result<(), String>) -> (r: Result<
    ToolOutput,
    ToolError,
>)
    ensures
        is_outcome(r, removed, "Successfully deleted file: "@ + path@, "delete file"@),
{
    match removed {
        Ok(()) => Ok(text_output(prefixed("Successfully deleted file: ", path))),
        Err(cause) => Err(internal_error("delete file", cause.as_str())),
    }
}

/// What the listing sees of one directory entry: its name where it is valid
/// text, and whether it is a directory where its metadata could be read.
#[derive(Clone, Debug, PartialEq, Eq)]
pub struct DirEntryInfo {
    pub name: Option<String>,
    pub is_dir: Option<bool>,
}

/// The line listing one entry, or nothing where its name or kind is unknown.
pub open spec fn entry_line(e: DirEntryInfo) -> Option<Seq<char>> {
    match (e.name, e.is_dir) {
        (Some(name), Some(is_dir)) => Some(
            name@ + if is_dir {
                " (directory)"@
            } else {
                " (file)"@
            },
        ),
        _ => None,
    }
}

/// The lines of a listing, in the order of the entries, skipping the entries
/// that have none.
pub open spec fn listing_lines(entries: Seq<DirEntryInfo>) -> Seq<Seq<char>>
    decreases entries.len(),
{
    if entries.len() == 0 {
        Seq::empty()
    } else {
        let before = listing_lines(entries.drop_last());
        match entry_line(entries.last()) {
            Some(line) => before.push(line),
            None => before,
        }
    }
}

/// Lines joined with a newline between each two.
pub open spec fn join_lines(lines: Seq<Seq<char>>) -> Seq<char>
    decreases lines.len(),
{
    if lines.len() == 0 {
        Seq::empty()
    } else if lines.len() == 1 {
        lines[0]
    } else {
        join_lines(lines.drop_last()) + "\n"@ + lines.last()
    }
}

/// The text that `list_directory` returns for the entries of a directory.
pub open spec fn listing_text(entries: Seq<DirEntryInfo>) -> Seq<char> {
    join_lines(listing_lines(entries))
}

/// Renders the entries of a directory, one line each: `<name> (directory)`
/// or `<name> (file)`, joined by newlines.
pub fn render_listing(entries: &Vec<DirEntryInfo>) -> (s: String)
    ensures
        s@ == listing_text(entries@),
{
    let mut out = String::new();
    let mut first = true;
    let mut i: usize = 0;
    while i < entries.len()
        invariant
            i <= entries@.len(),
            out@ == join_lines(listing_lines(entries@.take(i as int))),
            first == (listing_lines(entries@.take(i as int)).len() == 0),
        decreases entries@.len() - i,
    {
        let ghost before = listing_lines(entries@.take(i as int));
        assert(entries@.take(i as int + 1).drop_last() =~= entries@.take(i as int));
        let e = &entries[i];
        match (&e.name, &e.is_dir) {
            (Some(name), Some(is_dir)) => {
                if !first {
                    out.append("\n");
                }
                out.append(name.as_str());
                if *is_dir {
                    out.append(" (directory)");
                } else {
                    out.append(" (file)");
                }
                let ghost after = listing_lines(entries@.take(i as int + 1));
                assert(after.drop_last() =~= before);
                first = false;
            },
            _ => {},
        }
        i = i + 1;
    }
    assert(entries@.take(entries@.len() as int) =~= entries@);
    out
}

/// Listing an empty directory, or one whose every entry is skipped, yields
/// the empty text.
pub proof fn law_empty_listing(entries: Seq<DirEntryInfo>)
    requires
        forall|i: int| 0 <= i < entries.len() ==> entry_line(#[trigger] entries[i]) is None,
    ensures
        listing_text(entries) == Seq::<char>::empty(),
    decreases entries.len(),
{
    if entries.len() > 0 {
        let before = entries.drop_last();
        assert forall|i: int| 0 <= i < before.len() implies entry_line(#[trigger] before[i]) is None by {
            assert(before[i] == entries[i]);
        }
        law_empty_listing(before);
        assert(entry_line(entries[entries.len() - 1]) is None);
    }
}

/// The outcome of `list_directory`, given the entries read from the directory
/// (or the error met opening it).
pub fn list_directory_outcome(listing: Result<Vec<DirEntryInfo>, String>) -> (r: Result<
    ToolOutput,
    ToolError,
>)
    ensures
        is_outcome(
            r,
            listing,
            match listing {
                Ok(entries) => listing_text(entries@),
                Err(_) => Seq::empty(),
            },
            "list directory"@,
        ),
{
    match listing {
        Ok(entries) => Ok(text_output(render_listing(&entries))),
        Err(cause) => Err(internal_error("list directory", cause.as_str())),
    }
}

} // verus!
