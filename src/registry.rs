use vstd::prelude::*;
use vstd::string::*;

use crate::types::Privilege;
use crate::types::ProcessRequest;

verus! {

/// The container-management command line tool that requests are sent to.
pub open spec fn container_cli() -> Seq<char> {
    "container"@
}

/// Starts the container command line tool with `args`, feeding it `stdin`,
/// without asking for more privileges.
pub fn container_request(args: Vec<String>, stdin: String) -> (r: ProcessRequest)
    ensures
        r.program@ == container_cli(),
        r.args@ == args@,
        r.stdin == Some(stdin),
        r.privilege is Current,
{
    ProcessRequest {
        program: String::from_str("container"),
        args,
        stdin: Some(stdin),
        privilege: Privilege::Current,
    }
}

/// The step of running a piped process at which something went wrong.
#[derive(Debug, Clone, Copy, PartialEq, Eq, Structural)]
pub enum Stage {
    Spawn,
    WriteStdin,
    FlushStdin,
    Wait,
}

/// The words that open the message of a failure at `stage`.
pub open spec fn stage_prefix(stage: Stage) -> Seq<char> {
    match stage {
        Stage::Spawn => "Failed to spawn command: "@,
        Stage::WriteStdin => "Failed to write to stdin: "@,
        Stage::FlushStdin => "Failed to flush stdin: "@,
        Stage::Wait => "Failed to wait for command: "@,
    }
}

/// The message reported when running a piped process fails at `stage`, with
/// `detail` the description of the underlying error.
pub fn failure_message(stage: Stage, detail: &str) -> (r: String)
    ensures
        r@ == stage_prefix(stage) + detail@,
{
    let prefix = match stage {
        Stage::Spawn => String::from_str("Failed to spawn command: "),
        Stage::WriteStdin => String::from_str("Failed to write to stdin: "),
        Stage::FlushStdin => String::from_str("Failed to flush stdin: "),
        Stage::Wait => String::from_str("Failed to wait for command: "),
    };
    prefix.concat(detail)
}

} // verus!
