use vstd::prelude::*;
use vstd::string::*;

use crate::types::Privilege;
use crate::types::ProcessRequest;

verus! {

/// The application name shown in the operating system's elevation dialog.
pub open spec fn dialog_name() -> Seq<char> {
    "ContainerKit"@
}

/// Relies on `elevated_command::Command::is_elevated`: whether this process
/// already runs with elevated privileges. It reads the process's user id,
/// so nothing is known of the answer in advance.
#[verifier::external_body]
fn running_elevated() -> (r: bool) {
    elevated_command::Command::is_elevated()
}

/// The privileges to run an administrative command with: those of this
/// process when it is already elevated, else the elevation dialog.
pub fn privilege_for(already_elevated: bool) -> (r: Privilege)
    ensures
        already_elevated ==> r is Current,
        !already_elevated ==> (r matches Privilege::Prompt { dialog_name: n } && n@
            == dialog_name()),
{
    if already_elevated {
        Privilege::Current
    } else {
        Privilege::Prompt { dialog_name: String::from_str("ContainerKit") }
    }
}

/// Runs `command` with `args` and nothing on standard input, with
/// elevated privileges: directly when `already_elevated`, else through the
/// elevation dialog.
pub fn elevated_request(command: String, args: Vec<String>, already_elevated: bool) -> (r:
    ProcessRequest)
    ensures
        r.program == command,
        r.args@ == args@,
        r.stdin is None,
        already_elevated ==> r.privilege is Current,
        !already_elevated ==> (r.privilege matches Privilege::Prompt { dialog_name: n } && n@
            == dialog_name()),
{
    ProcessRequest {
        program: command,
        args,
        stdin: None,
        privilege: privilege_for(already_elevated),
    }
}

/// As `elevated_request`, asking the operating system whether this process
/// is already elevated. Whatever the answer, the request runs `command`
/// with `args`, nothing on standard input, and either the current
/// privileges or the elevation dialog.
pub fn system_request(command: String, args: Vec<String>) -> (r: ProcessRequest)
    ensures
        r.program == command,
        r.args@ == args@,
        r.stdin is None,
        r.privilege is Current || (r.privilege matches Privilege::Prompt { dialog_name: n } && n@
            == dialog_name()),
{
    let already_elevated = running_elevated();
    elevated_request(command, args, already_elevated)
}

} // verus!
