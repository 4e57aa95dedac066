//! The host: which operating systems are supported, and with which status
//! the process ends when it does not run to completion.

use crate::bytes::same_bytes;
use crate::error::{InstallError, InstallErrorView};
use vstd::prelude::*;

verus! {

/// The operating-system name `linux`, as bytes.
pub open spec fn linux_name() -> Seq<u8> {
    seq![108u8, 105u8, 110u8, 117u8, 120u8]
}

/// The operating-system name `windows`, as bytes.
pub open spec fn windows_name() -> Seq<u8> {
    seq![119u8, 105u8, 110u8, 100u8, 111u8, 119u8, 115u8]
}

/// Whether the product can be installed on a host with this operating-system
/// name.
pub open spec fn supported_os(name: Seq<u8>) -> bool {
    name == linux_name() || name == windows_name()
}

/// Whether the host meets the requirements: its operating system is Windows
/// or Linux.
pub fn check_system_requirements(os: &[u8]) -> (ok: bool)
    ensures
        ok == supported_os(os@),
{
    let linux: [u8; 5] = [108, 105, 110, 117, 120];
    let windows: [u8; 7] = [119, 105, 110, 100, 111, 119, 115];
    assert(linux@ =~= linux_name());
    assert(windows@ =~= windows_name());
    same_bytes(os, linux.as_slice()) || same_bytes(os, windows.as_slice())
}

/// The pre-flight check: `SystemUnsupported` on a host that does not meet the
/// requirements.
pub fn preflight(os: &[u8]) -> (r: Result<(), InstallError>)
    ensures
        r is Ok <==> supported_os(os@),
        r matches Err(e) ==> e@ == InstallErrorView::SystemUnsupported,
{
    if check_system_requirements(os) {
        Ok(())
    } else {
        Err(InstallError::SystemUnsupported)
    }
}

/// Why the process ends before its command has run to completion.
#[derive(Debug, Clone, Copy, PartialEq, Eq, Structural)]
pub enum Halt {
    /// The host does not meet the requirements.
    Unsupported,
    /// The user asked the process to stop.
    Interrupted,
}

/// The exit status for each way of ending early: the status for a
/// configuration error, and the status for a data error.
pub open spec fn exit_status_of(halt: Halt) -> i32 {
    match halt {
        Halt::Unsupported => 78,
        Halt::Interrupted => 65,
    }
}

/// The exit status for a configuration error: the constant `exitcode::CONFIG`,
/// which is 78.
#[verifier::external_body]
fn config_status() -> (status: i32)
    ensures
        status == 78,
{
    exitcode::CONFIG
}

/// The exit status for a data error: the constant `exitcode::DATAERR`, which
/// is 65.
#[verifier::external_body]
fn data_error_status() -> (status: i32)
    ensures
        status == 65,
{
    exitcode::DATAERR
}

/// The status with which the process exits when it ends early. The two
/// statuses differ from each other and from the status of a run that came to
/// its end.
pub fn exit_status(halt: Halt) -> (status: i32)
    ensures
        status == exit_status_of(halt),
        status != 0,
{
    match halt {
        Halt::Unsupported => config_status(),
        Halt::Interrupted => data_error_status(),
    }
}

} // verus!
