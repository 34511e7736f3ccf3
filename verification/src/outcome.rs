use vstd::prelude::*;
use vstd::utf8::{decode_utf8, valid_utf8};
use crate::errors::BridgeError;

verus! {

/// What one finished subprocess left behind: whether it exited successfully,
/// and its captured standard output and standard error, as raw bytes.
pub struct ProcessResult {
    pub success: bool,
    pub stdout: Vec<u8>,
    pub stderr: Vec<u8>,
}

/// What `String::from_utf8_lossy` makes of a byte sequence: a function of the
/// bytes alone, equal to the strict decoding wherever that is defined.
pub uninterp spec fn lossy_utf8(bytes: Seq<u8>) -> Seq<char>;

/// Relies on `String::from_utf8`: returns the decoded string exactly when the
/// bytes are valid UTF-8, and the error's display text otherwise.
#[verifier::external_body]
fn decode_strict(bytes: Vec<u8>) -> (r: Result<String, String>)
    ensures
        r matches Ok(s) ==> valid_utf8(bytes@) && s@ == decode_utf8(bytes@),
        r is Err ==> !valid_utf8(bytes@),
{
    String::from_utf8(bytes).map_err(|e| e.to_string())
}

/// Relies on `String::from_utf8_lossy`: the result depends on the bytes alone,
/// and valid UTF-8 decodes unchanged.
#[verifier::external_body]
fn decode_lossy(bytes: &Vec<u8>) -> (r: String)
    ensures
        r@ == lossy_utf8(bytes@),
        valid_utf8(bytes@) ==> r@ == decode_utf8(bytes@),
{
    String::from_utf8_lossy(bytes).into_owned()
}

/// Maps a finished log fetch to its result: on success the standard output,
/// decoded strictly — a `Decode` error if it is not UTF-8 — and on failure an
/// `ExternalTool` error carrying the lossily decoded standard error, never the
/// standard output.
pub fn log_outcome(res: ProcessResult) -> (r: Result<String, BridgeError>)
    ensures
        res.success && valid_utf8(res.stdout@) ==> (r matches Ok(s) && s@ == decode_utf8(
            res.stdout@,
        )),
        res.success && !valid_utf8(res.stdout@) ==> (r matches Err(e) && e is Decode),
        !res.success ==> (r matches Err(e) && e matches BridgeError::ExternalTool(m) && m@
            == lossy_utf8(res.stderr@)),
{
    if res.success {
        match decode_strict(res.stdout) {
            Ok(s) => Ok(s),
            Err(m) => Err(BridgeError::Decode(m)),
        }
    } else {
        Err(BridgeError::ExternalTool(decode_lossy(&res.stderr)))
    }
}

/// Maps a finished description update to its result: on success the standard
/// output, on failure the standard error, both lossily decoded so this path
/// itself cannot fail.
pub fn describe_outcome(res: ProcessResult) -> (r: Result<String, BridgeError>)
    ensures
        res.success ==> (r matches Ok(s) && s@ == lossy_utf8(res.stdout@)),
        !res.success ==> (r matches Err(e) && e matches BridgeError::ExternalTool(m) && m@
            == lossy_utf8(res.stderr@)),
{
    if res.success {
        Ok(decode_lossy(&res.stdout))
    } else {
        Err(BridgeError::ExternalTool(decode_lossy(&res.stderr)))
    }
}

/// Maps a finished screenshot capture to its result: on success the path the
/// capture was asked to write — whether a file exists there is not checked —
/// and on failure the lossily decoded standard error.
pub fn screenshot_outcome(res: ProcessResult, path: String) -> (r: Result<String, BridgeError>)
    ensures
        res.success ==> (r matches Ok(p) && p == path),
        !res.success ==> (r matches Err(e) && e matches BridgeError::ExternalTool(m) && m@
            == lossy_utf8(res.stderr@)),
{
    if res.success {
        Ok(path)
    } else {
        Err(BridgeError::ExternalTool(decode_lossy(&res.stderr)))
    }
}

} // verus!
