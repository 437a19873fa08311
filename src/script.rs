use vstd::prelude::*;

verus! {

/// The text that lossy UTF-8 decoding makes of `bytes`.
pub uninterp spec fn lossy_text(bytes: Seq<u8>) -> Seq<char>;

/// Every byte is an ASCII character.
pub open spec fn all_ascii(bytes: Seq<u8>) -> bool {
    forall|i: int| 0 <= i < bytes.len() ==> #[trigger] bytes[i] < 128
}

/// `text` holds, one for one, the characters whose codes are `bytes`.
pub open spec fn same_codes(text: Seq<char>, bytes: Seq<u8>) -> bool {
    &&& text.len() == bytes.len()
    &&& forall|i: int| 0 <= i < bytes.len() ==> #[trigger] text[i] as u32 == bytes[i] as u32
}

/// Relies on `String::from_utf8_lossy`: the text depends on the bytes alone, and
/// valid UTF-8 (so ASCII in particular) is returned as it stands.
#[verifier::external_body]
fn decode_lossy(bytes: &[u8]) -> (r: String)
    ensures
        r@ == lossy_text(bytes@),
        all_ascii(bytes@) ==> same_codes(r@, bytes@),
{
    String::from_utf8_lossy(bytes).into_owned()
}

/// How a script invocation went.
pub enum ScriptRun {
    /// The interpreter ran; `exit_code` is its exit status (none where a signal ended
    /// it) and `stdout` what it wrote to standard output.
    Launched { exit_code: Option<i32>, stdout: Vec<u8> },
    /// The interpreter could not be launched.
    NotLaunched,
}

/// Why a script gave no reply.
#[derive(Clone, Copy, PartialEq, Eq, Structural, Debug)]
pub enum ScriptError {
    /// The interpreter could not be launched.
    InterpreterNotLaunched,
}

/// The reply to the GUI for a script invocation: the script's standard output as
/// text, whatever its exit status; an error where the interpreter did not start.
pub fn script_reply(run: &ScriptRun) -> (r: Result<String, ScriptError>)
    ensures
        match run {
            ScriptRun::NotLaunched => r == Err::<String, ScriptError>(
                ScriptError::InterpreterNotLaunched,
            ),
            ScriptRun::Launched { stdout, .. } => {
                &&& r is Ok
                &&& r->Ok_0@ == lossy_text(stdout@)
                &&& all_ascii(stdout@) ==> same_codes(r->Ok_0@, stdout@)
            },
        },
{
    match run {
        ScriptRun::Launched { stdout, .. } => Ok(decode_lossy(stdout.as_slice())),
        ScriptRun::NotLaunched => Err(ScriptError::InterpreterNotLaunched),
    }
}

} // verus!
