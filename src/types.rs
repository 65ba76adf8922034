use vstd::prelude::*;
use vstd::utf8::decode_utf8;
use vstd::utf8::valid_utf8;

verus! {

/// What a finished subprocess reported: the signal that ended it, if any,
/// its captured output streams as text, and its exit code, if it exited
/// normally.
#[derive(Debug, Clone)]
pub struct CommandResult {
    pub signal: Option<i32>,
    pub stdout: String,
    pub stderr: String,
    pub code: Option<i32>,
}

/// How a process is to be started with respect to privileges.
#[derive(Debug, Clone)]
pub enum Privilege {
    /// With the privileges this process already has.
    Current,
    /// Through the operating system's elevation dialog, which shows the
    /// given application name.
    Prompt { dialog_name: String },
}

/// A process to start: the program, its arguments, the text to feed to its
/// standard input (`None`: nothing is piped in), and the privileges to run
/// it with. Standard output and standard error are always captured.
#[derive(Debug, Clone)]
pub struct ProcessRequest {
    pub program: String,
    pub args: Vec<String>,
    pub stdin: Option<String>,
    pub privilege: Privilege,
}

/// The text that lossy UTF-8 decoding makes of a byte stream: valid
/// sequences decode as usual, each invalid one becomes U+FFFD.
pub uninterp spec fn lossy_text(b: Seq<u8>) -> Seq<char>;

/// Relies on `String::from_utf8_lossy`: the text depends on the bytes alone,
/// and bytes that are valid UTF-8 come back as the characters they encode.
#[verifier::external_body]
fn decode_lossy(b: &[u8]) -> (r: String)
    ensures
        r@ == lossy_text(b@),
        valid_utf8(b@) ==> r@ == decode_utf8(b@),
{
    String::from_utf8_lossy(b).into_owned()
}

impl CommandResult {
    /// Builds the report of a finished process from its termination signal,
    /// its exit code and the raw bytes it wrote to standard output and
    /// standard error.
    pub fn from_output(signal: Option<i32>, code: Option<i32>, stdout: &[u8], stderr: &[u8]) -> (r:
        CommandResult)
        ensures
            r.signal == signal,
            r.code == code,
            r.stdout@ == lossy_text(stdout@),
            r.stderr@ == lossy_text(stderr@),
            valid_utf8(stdout@) ==> r.stdout@ == decode_utf8(stdout@),
            valid_utf8(stderr@) ==> r.stderr@ == decode_utf8(stderr@),
    {
        CommandResult {
            signal,
            stdout: decode_lossy(stdout),
            stderr: decode_lossy(stderr),
            code,
        }
    }
}

} // verus!
