use vstd::prelude::*;

verus! {

#[verifier::external_type_specification]
#[verifier::external_body]
pub struct ExIoError(std::io::Error);

#[verifier::external_type_specification]
#[verifier::external_body]
pub struct ExUtf8Error(core::str::Utf8Error);

#[verifier::external_type_specification]
#[verifier::external_body]
pub struct ExJsonError(serde_json::Error);

/// Failures of the standalone content-addressed build.
#[derive(Debug)]
pub enum BuildCAProfileError {
    CADerivationNonFlake,
    BuildErrorStart(std::io::Error),
    BuildErrorRun(std::io::Error),
    BuildErrorCode(Option<i32>),
}

/// Failures of the build-and-push pipeline, tagged by phase.
#[derive(Debug)]
pub enum PushProfileError {
    ShowDerivation(std::io::Error),
    ShowDerivationExit(Option<i32>),
    ShowDerivationUtf8(core::str::Utf8Error),
    ShowDerivationParse(serde_json::Error),
    ShowDerivationEmpty,
    Build(std::io::Error),
    BuildExit(Option<i32>),
    DeployRsActivateDoesntExist,
    ActivateRsDoesntExist,
    Sign(std::io::Error),
    SignExit(Option<i32>),
    Copy(std::io::Error),
    CopyExit(Option<i32>),
    CADerivationNonFlake,
    BuildErrorStart(std::io::Error),
    BuildErrorRun(std::io::Error),
    BuildErrorCode(Option<i32>),
}

} // verus!
