//! Choosing the privileged service-control commands for the agent's
//! installed OS service. The commands are fire-and-forget: this layer only
//! decides what to run; spawning it — and silently dropping any elevation
//! failure — is the shell's affair.

use vstd::prelude::*;
use vstd::string::*;

verus! {

/// A fire-and-forget intent against the OS service manager.
#[derive(Clone, Copy, PartialEq, Eq, Structural, Debug)]
pub enum ServiceCommand {
    Start,
    Stop,
}

/// The service-manager arguments for a command, against the fixed installed
/// service identifier.
pub open spec fn spec_service_args(c: ServiceCommand) -> Seq<char> {
    match c {
        ServiceCommand::Start => "start PLCLoggerSvc"@,
        ServiceCommand::Stop => "stop PLCLoggerSvc"@,
    }
}

/// The arguments handed to the service-control tool.
pub fn service_args(c: ServiceCommand) -> (r: &'static str)
    ensures
        r@ == spec_service_args(c),
{
    match c {
        ServiceCommand::Start => "start PLCLoggerSvc",
        ServiceCommand::Stop => "stop PLCLoggerSvc",
    }
}

/// The elevation-capable launcher invocation that wraps the service-control
/// call in a privilege prompt.
pub open spec fn spec_elevation_command(c: ServiceCommand) -> Seq<char> {
    "Start-Process sc.exe -Verb runAs -ArgumentList '"@ + spec_service_args(c) + "'"@
}

/// Builds the launcher command line for a service command. Total for both
/// commands: deciding what to run never fails; only the spawn can, and its
/// outcome is unknowable here.
pub fn elevation_command(c: ServiceCommand) -> (r: String)
    ensures
        r@ == spec_elevation_command(c),
{
    let mut out: String = "Start-Process sc.exe -Verb runAs -ArgumentList '".to_owned();
    out.append(service_args(c));
    out.append("'");
    proof {
        assert(out@ =~= spec_elevation_command(c));
    }
    out
}

} // verus!
