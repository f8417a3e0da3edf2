use vstd::prelude::*;
use vstd::string::*;
use crate::command::{
    ca_build_target, ca_target, extend_strs, push_str, strs, CommandSpec, CommandView, OutputMode,
    ProcessOutcome,
};
use crate::error::BuildCAProfileError;
use crate::output::{printed_path, read_printed_path};

verus! {

/// Inputs of the standalone build of a content-addressed profile.
pub struct BuildCAProfileData {
    pub supports_flakes: bool,
    pub repo: String,
    pub node_name: String,
    pub profile_name: String,
    pub extra_build_args: Vec<String>,
}

/// A profile's realized artifact: whether it came from a content-addressed
/// build, and its path.
pub struct CaData {
    pub is_ca: bool,
    pub path: String,
}

/// The build that realizes a content-addressed profile and prints its path.
pub open spec fn ca_profile_cmd(data: BuildCAProfileData) -> CommandView {
    CommandView {
        program: "nix"@,
        args: seq!["build"@, ca_target(data.repo@, data.node_name@, data.profile_name@), "--no-link"@]
            + strs(data.extra_build_args@) + seq!["--print-out-paths"@],
        transport_options: None,
        stdout: OutputMode::Capture,
    }
}

/// The build command of a content-addressed profile; without flake support
/// there is none, and no command is handed out.
pub fn build_ca_profile_command(data: &BuildCAProfileData) -> (r: Result<CommandSpec, BuildCAProfileError>)
    ensures
        match r {
            Ok(c) => data.supports_flakes && c@ == ca_profile_cmd(*data),
            Err(e) => !data.supports_flakes && e matches BuildCAProfileError::CADerivationNonFlake,
        },
{
    if !data.supports_flakes {
        return Err(BuildCAProfileError::CADerivationNonFlake);
    }
    let mut args: Vec<String> = Vec::new();
    push_str(&mut args, "build");
    let target = ca_build_target(data.repo.as_str(), data.node_name.as_str(), data.profile_name.as_str());
    push_str(&mut args, target.as_str());
    push_str(&mut args, "--no-link");
    extend_strs(&mut args, &data.extra_build_args);
    push_str(&mut args, "--print-out-paths");
    let c = CommandSpec {
        program: String::from_str("nix"),
        args,
        transport_options: None,
        stdout: OutputMode::Capture,
    };
    assert(c@.args =~= ca_profile_cmd(*data).args);
    Ok(c)
}

/// What the standalone build returns for the outcome of its command.
pub open spec fn ca_profile_result_ok(outcome: ProcessOutcome, r: Result<Seq<char>, BuildCAProfileError>) -> bool {
    match outcome {
        ProcessOutcome::StartFailed(e) => r == Err::<Seq<char>, BuildCAProfileError>(
            BuildCAProfileError::BuildErrorStart(e),
        ),
        ProcessOutcome::RunFailed(e) => r == Err::<Seq<char>, BuildCAProfileError>(
            BuildCAProfileError::BuildErrorRun(e),
        ),
        ProcessOutcome::Exited { code, stdout } => if code != Some(0i32) {
            r == Err::<Seq<char>, BuildCAProfileError>(BuildCAProfileError::BuildErrorCode(code))
        } else {
            match printed_path(stdout@) {
                Some(p) => r == Ok::<Seq<char>, BuildCAProfileError>(p),
                None => r matches Err(BuildCAProfileError::BuildErrorRun(_)),
            }
        },
    }
}

/// The realized path of a content-addressed profile, from the outcome of its
/// build command: the trimmed standard output on exit code 0.
pub fn build_ca_profile_result(outcome: ProcessOutcome) -> (r: Result<String, BuildCAProfileError>)
    ensures
        ca_profile_result_ok(
            outcome,
            match r {
                Ok(p) => Ok(p@),
                Err(e) => Err(e),
            },
        ),
{
    match outcome {
        ProcessOutcome::StartFailed(e) => Err(BuildCAProfileError::BuildErrorStart(e)),
        ProcessOutcome::RunFailed(e) => Err(BuildCAProfileError::BuildErrorRun(e)),
        ProcessOutcome::Exited { code, stdout } => {
            match code {
                Some(0) => {},
                _ => {
                    return Err(BuildCAProfileError::BuildErrorCode(code));
                },
            }
            match read_printed_path(&stdout) {
                Ok(p) => Ok(p),
                Err(e) => Err(BuildCAProfileError::BuildErrorRun(e)),
            }
        },
    }
}

} // verus!
