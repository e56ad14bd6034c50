//! Laws of the file-command layer, stated over the command models and
//! proved once for every input.

use vstd::prelude::*;

use crate::file::{
    invalid_path_model, normalize_model, open_command_model, save_action, save_as_action,
    save_command_model, save_request_model, ErrorView, IoErrorKind, PayloadView,
};
use crate::trim::{is_space, lemma_all_space_trims_empty, trimmed};

verus! {

/// A raw path of nothing but white space (the empty string included) is
/// rejected as invalid by normalization and by every command, whatever
/// outcome the filesystem could have produced: the commands decide
/// before any filesystem work is requested.
pub proof fn lemma_blank_path_rejected(
    raw: Seq<char>,
    content: Seq<char>,
    read: Result<Seq<char>, IoErrorKind>,
    write: Result<(), IoErrorKind>,
)
    requires
        forall|i: int| 0 <= i < raw.len() ==> is_space(raw[i]),
    ensures
        normalize_model(raw) == Err::<Seq<char>, ErrorView>(invalid_path_model()),
        open_command_model(raw, read) == Err::<PayloadView, ErrorView>(invalid_path_model()),
        save_command_model(save_action(), raw, write) == Err::<Seq<char>, ErrorView>(
            invalid_path_model(),
        ),
        save_command_model(save_as_action(), raw, write) == Err::<Seq<char>, ErrorView>(
            invalid_path_model(),
        ),
        save_request_model(raw, content) == Err::<(Seq<char>, Seq<char>), ErrorView>(
            invalid_path_model(),
        ),
{
    lemma_all_space_trims_empty(raw);
}

/// Opening a path that the filesystem reports missing yields the
/// file-not-found error, and no payload.
pub proof fn lemma_missing_file_reported(raw: Seq<char>)
    requires
        trimmed(raw).len() > 0,
    ensures
        open_command_model(raw, Err(IoErrorKind::NotFound)) matches Err(e) && e.code
            == "FILE_NOT_FOUND"@,
{
}

/// A file whose bytes are not valid UTF-8 text is reported as invalid
/// text, not as the generic I/O failure.
pub proof fn lemma_invalid_utf8_reported(raw: Seq<char>)
    requires
        trimmed(raw).len() > 0,
    ensures
        open_command_model(raw, Err(IoErrorKind::InvalidData)) matches Err(e) && e.code
            == "INVALID_TEXT"@ && e.code != "IO_ERROR"@,
{
    reveal_strlit("INVALID_TEXT");
    reveal_strlit("IO_ERROR");
    assert(("INVALID_TEXT"@).len() != ("IO_ERROR"@).len());
}

/// Save and save-as differ only in the action a failure message names:
/// on identical arguments they succeed together, return the same path,
/// and report the same error code.
pub proof fn lemma_save_save_as_agree(raw: Seq<char>, write: Result<(), IoErrorKind>)
    ensures
        save_command_model(save_action(), raw, write) is Ok <==> save_command_model(
            save_as_action(),
            raw,
            write,
        ) is Ok,
        save_command_model(save_action(), raw, write) matches Ok(p) ==> save_command_model(
            save_as_action(),
            raw,
            write,
        ) == Ok::<Seq<char>, ErrorView>(p),
        save_command_model(save_action(), raw, write) is Err ==> save_command_model(
            save_action(),
            raw,
            write,
        )->Err_0.code == save_command_model(save_as_action(), raw, write)->Err_0.code,
{
}

/// Round trip: if the filesystem later hands the open command exactly
/// the text that the save request asked it to store, the payload carries
/// that text unchanged, byte for byte, and both commands agree on the
/// trimmed raw path.
pub proof fn lemma_save_then_open_round_trip(raw: Seq<char>, content: Seq<char>)
    requires
        trimmed(raw).len() > 0,
    ensures
        save_request_model(raw, content) matches Ok(req) && open_command_model(
            raw,
            Ok(req.1),
        ) matches Ok(p) && p.content == content && p.path == trimmed(raw),
{
}

} // verus!
