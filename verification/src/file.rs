//! The file-command layer: open, save and save-as, with path
//! normalization and the closed error taxonomy.
//!
//! The host shell drives each command in two steps: it asks the library
//! for the validated target (`normalize_path`, `save_request`), performs
//! the single filesystem call itself, and hands the outcome back to a
//! completion function (`complete_open`, `complete_save`,
//! `complete_save_as`). Every decision — what is read or written, and
//! which error a failure becomes — is made here.

use vstd::prelude::*;
use vstd::string::StringExecFns;

use crate::trim::{trim_str, trimmed};

verus! {

/// The whole text of a file handed back by the open command, together
/// with the normalized path it was read from.
#[derive(Debug)]
pub struct FilePayload {
    pub path: String,
    pub content: String,
}

/// Mathematical image of a `FilePayload`.
#[verifier::ext_equal]
pub struct PayloadView {
    pub path: Seq<char>,
    pub content: Seq<char>,
}

impl View for FilePayload {
    type V = PayloadView;

    open spec fn view(&self) -> PayloadView {
        PayloadView { path: self.path@, content: self.content@ }
    }
}

/// One failure of a file command: a fixed machine-readable code and a
/// human-readable message.
#[derive(Debug)]
pub struct FileCommandError {
    pub code: &'static str,
    pub message: String,
}

/// Mathematical image of a `FileCommandError`.
#[verifier::ext_equal]
pub struct ErrorView {
    pub code: Seq<char>,
    pub message: Seq<char>,
}

impl View for FileCommandError {
    type V = ErrorView;

    open spec fn view(&self) -> ErrorView {
        ErrorView { code: self.code@, message: self.message@ }
    }
}

/// The operating-system failure classes that the commands distinguish.
/// The host maps the platform's I/O error onto this enum before handing
/// an outcome to the library.
#[derive(Clone, Copy, Debug, PartialEq, Eq, Structural)]
pub enum IoErrorKind {
    NotFound,
    PermissionDenied,
    InvalidData,
    AlreadyExists,
    WriteZero,
    Other,
}

/// The error code reported for each failure class.
pub open spec fn io_error_code(kind: IoErrorKind) -> Seq<char> {
    match kind {
        IoErrorKind::NotFound => "FILE_NOT_FOUND"@,
        IoErrorKind::PermissionDenied => "PERMISSION_DENIED"@,
        IoErrorKind::InvalidData => "INVALID_TEXT"@,
        IoErrorKind::AlreadyExists => "ALREADY_EXISTS"@,
        IoErrorKind::WriteZero => "WRITE_FAILED"@,
        IoErrorKind::Other => "IO_ERROR"@,
    }
}

/// The fixed human-readable detail for each failure class.
pub open spec fn io_error_detail(kind: IoErrorKind) -> Seq<char> {
    match kind {
        IoErrorKind::NotFound => "File does not exist."@,
        IoErrorKind::PermissionDenied => "Permission denied."@,
        IoErrorKind::InvalidData => "File is not valid UTF-8 text."@,
        IoErrorKind::AlreadyExists => "Target file already exists."@,
        IoErrorKind::WriteZero => "Failed to write file."@,
        IoErrorKind::Other => "I/O error occurred."@,
    }
}

/// The error reported when a raw path trims to nothing.
pub open spec fn invalid_path_model() -> ErrorView {
    ErrorView {
        code: "INVALID_PATH"@,
        message: "Invalid file path. Please choose a valid path."@,
    }
}

/// The error built from a failure class, with the failed action prefixed
/// to the fixed detail.
pub open spec fn io_error_model(action: Seq<char>, kind: IoErrorKind) -> ErrorView {
    ErrorView { code: io_error_code(kind), message: action + io_error_detail(kind) }
}

/// The action prefix of open failures.
pub open spec fn open_action() -> Seq<char> {
    "Open failed: "@
}

/// The action prefix of save failures.
pub open spec fn save_action() -> Seq<char> {
    "Save failed: "@
}

/// The action prefix of save-as failures.
pub open spec fn save_as_action() -> Seq<char> {
    "Save As failed: "@
}

/// What normalization yields on a raw path: the trimmed path, or the
/// invalid-path error when nothing but white space was given.
pub open spec fn normalize_model(raw: Seq<char>) -> Result<Seq<char>, ErrorView> {
    if trimmed(raw).len() == 0 {
        Err(invalid_path_model())
    } else {
        Ok(trimmed(raw))
    }
}

/// What open yields once the host has read the normalized path: the
/// payload carries the file text unchanged, and a failure is mapped
/// through the taxonomy under the open action.
pub open spec fn open_model(
    path: Seq<char>,
    read: Result<Seq<char>, IoErrorKind>,
) -> Result<PayloadView, ErrorView> {
    match read {
        Ok(content) => Ok(PayloadView { path: path, content: content }),
        Err(kind) => Err(io_error_model(open_action(), kind)),
    }
}

/// What save or save-as yields once the host has written the file: the
/// normalized path on success, else the failure mapped under the given
/// action.
pub open spec fn save_model(
    action: Seq<char>,
    path: Seq<char>,
    write: Result<(), IoErrorKind>,
) -> Result<Seq<char>, ErrorView> {
    match write {
        Ok(_) => Ok(path),
        Err(kind) => Err(io_error_model(action, kind)),
    }
}

/// What a save request carries to the host: the trimmed path and the
/// text, byte for byte as the caller supplied it.
pub open spec fn save_request_model(
    raw: Seq<char>,
    content: Seq<char>,
) -> Result<(Seq<char>, Seq<char>), ErrorView> {
    match normalize_model(raw) {
        Ok(path) => Ok((path, content)),
        Err(e) => Err(e),
    }
}

/// The open command end to end, with the host's read outcome supplied as
/// an argument: normalization decides first, and only a valid path ever
/// reaches the filesystem.
pub open spec fn open_command_model(
    raw: Seq<char>,
    read: Result<Seq<char>, IoErrorKind>,
) -> Result<PayloadView, ErrorView> {
    match normalize_model(raw) {
        Ok(path) => open_model(path, read),
        Err(e) => Err(e),
    }
}

/// The save and save-as commands end to end, with the host's write
/// outcome supplied as an argument.
pub open spec fn save_command_model(
    action: Seq<char>,
    raw: Seq<char>,
    write: Result<(), IoErrorKind>,
) -> Result<Seq<char>, ErrorView> {
    match normalize_model(raw) {
        Ok(path) => save_model(action, path, write),
        Err(e) => Err(e),
    }
}

/// Image of an executable path result in the model's terms.
pub open spec fn path_result_view(
    r: Result<String, FileCommandError>,
) -> Result<Seq<char>, ErrorView> {
    match r {
        Ok(p) => Ok(p@),
        Err(e) => Err(e@),
    }
}

/// Image of an executable payload result in the model's terms.
pub open spec fn payload_result_view(
    r: Result<FilePayload, FileCommandError>,
) -> Result<PayloadView, ErrorView> {
    match r {
        Ok(p) => Ok(p@),
        Err(e) => Err(e@),
    }
}

/// Image of the host's read outcome in the model's terms.
pub open spec fn read_outcome_view(
    read: Result<String, IoErrorKind>,
) -> Result<Seq<char>, IoErrorKind> {
    match read {
        Ok(content) => Ok(content@),
        Err(kind) => Err(kind),
    }
}

/// Image of an executable write-request result in the model's terms.
pub open spec fn request_result_view(
    r: Result<WriteRequest, FileCommandError>,
) -> Result<(Seq<char>, Seq<char>), ErrorView> {
    match r {
        Ok(q) => Ok((q.path@, q.content@)),
        Err(e) => Err(e@),
    }
}

/// Builds the error returned whenever a raw path trims to nothing.
pub fn invalid_path_error() -> (e: FileCommandError)
    ensures
        e@ == invalid_path_model(),
{
    FileCommandError {
        code: "INVALID_PATH",
        message: String::from_str("Invalid file path. Please choose a valid path."),
    }
}

/// Trims the raw path and rejects one that is nothing but white space.
/// No other validation happens here: the path is not checked to exist,
/// nor canonicalized.
pub fn normalize_path(path: String) -> (r: Result<String, FileCommandError>)
    ensures
        path_result_view(r) == normalize_model(path@),
        r is Ok <==> trimmed(path@).len() > 0,
{
    let t = trim_str(path.as_str());
    if t.unicode_len() == 0 {
        Err(invalid_path_error())
    } else {
        Ok(String::from_str(t))
    }
}

/// Maps one failure class to its command error, prefixing the failed
/// action to the fixed detail text.
pub fn to_io_error(action: &'static str, error: IoErrorKind) -> (e: FileCommandError)
    ensures
        e@ == io_error_model(action@, error),
{
    let code: &'static str;
    let detail: &'static str;
    match error {
        IoErrorKind::NotFound => {
            code = "FILE_NOT_FOUND";
            detail = "File does not exist.";
        },
        IoErrorKind::PermissionDenied => {
            code = "PERMISSION_DENIED";
            detail = "Permission denied.";
        },
        IoErrorKind::InvalidData => {
            code = "INVALID_TEXT";
            detail = "File is not valid UTF-8 text.";
        },
        IoErrorKind::AlreadyExists => {
            code = "ALREADY_EXISTS";
            detail = "Target file already exists.";
        },
        IoErrorKind::WriteZero => {
            code = "WRITE_FAILED";
            detail = "Failed to write file.";
        },
        IoErrorKind::Other => {
            code = "IO_ERROR";
            detail = "I/O error occurred.";
        },
    }
    FileCommandError { code: code, message: String::from_str(action).concat(detail) }
}

/// Finishes the open command from the host's read outcome: the file text
/// is returned exactly as read, and a failure is mapped through the
/// taxonomy under the open action.
pub fn complete_open(
    path: String,
    read: Result<String, IoErrorKind>,
) -> (r: Result<FilePayload, FileCommandError>)
    ensures
        payload_result_view(r) == open_model(path@, read_outcome_view(read)),
{
    match read {
        Ok(content) => Ok(FilePayload { path: path, content: content }),
        Err(kind) => Err(to_io_error("Open failed: ", kind)),
    }
}

/// Finishes the save command from the host's write outcome: the
/// normalized path is echoed back on success.
pub fn complete_save(
    path: String,
    write: Result<(), IoErrorKind>,
) -> (r: Result<String, FileCommandError>)
    ensures
        path_result_view(r) == save_model(save_action(), path@, write),
{
    match write {
        Ok(_) => Ok(path),
        Err(kind) => Err(to_io_error("Save failed: ", kind)),
    }
}

/// Finishes the save-as command from the host's write outcome. Apart
/// from the action named in a failure message, it behaves exactly as
/// `complete_save` does.
pub fn complete_save_as(
    path: String,
    write: Result<(), IoErrorKind>,
) -> (r: Result<String, FileCommandError>)
    ensures
        path_result_view(r) == save_model(save_as_action(), path@, write),
{
    match write {
        Ok(_) => Ok(path),
        Err(kind) => Err(to_io_error("Save As failed: ", kind)),
    }
}

/// The text a save asks the host to write, with its validated target.
#[derive(Debug)]
pub struct WriteRequest {
    pub path: String,
    pub content: String,
}

impl View for WriteRequest {
    type V = (Seq<char>, Seq<char>);

    open spec fn view(&self) -> (Seq<char>, Seq<char>) {
        (self.path@, self.content@)
    }
}

/// Validates the raw path and builds the write request for save and
/// save-as. The content passes through byte for byte; nothing is written
/// until the host performs the request.
pub fn save_request(path: String, content: String) -> (r: Result<WriteRequest, FileCommandError>)
    ensures
        request_result_view(r) == save_request_model(path@, content@),
{
    match normalize_path(path) {
        Ok(p) => Ok(WriteRequest { path: p, content: content }),
        Err(e) => Err(e),
    }
}

} // verus!
