use vstd::prelude::*;
use crate::command::{is_ca_path, link_flags, opt_str, out_link, ProcessOutcome};
use crate::error::PushProfileError;
use crate::output::printed_path;
use crate::push::{
    build_cmd, copy_cmd, copy_flags, entry, event_fits, fail, sign_cmd, start_ok, step_ok,
    target_host, ActionView, PushEvent, PushProfileData, StageView,
};

verus! {

/// A content-addressed profile without flake support ends the push at once
/// with the flake-precondition error; no command is run.
pub proof fn lemma_ca_needs_flakes(d: PushProfileData, next: StageView, action: ActionView)
    requires
        is_ca_path(d.profile_path@),
        !d.supports_flakes,
        start_ok(d, next, action),
    ensures
        action == fail(PushProfileError::CADerivationNonFlake),
        !(action is Run),
        next == StageView::Done,
{
}

/// A build carries `--out-link <dir>/<node>/<profile>` right after its target
/// exactly when the result is kept, and otherwise the dialect's flag that
/// suppresses the link, whether or not flakes are supported.
pub proof fn lemma_link_policy(d: PushProfileData, target: Seq<char>, is_ca: bool)
    ensures
        ({
            let a = build_cmd(d, target, is_ca).args;
            let k: int = if d.supports_flakes { 2 } else { 1 };
            &&& d.keep_result ==> a[k] == "--out-link"@ && a[k + 1] == out_link(
                opt_str(d.result_path),
                d.node_name@,
                d.profile_name@,
            )
            &&& !d.keep_result && d.supports_flakes ==> a[k] == "--no-link"@
            &&& !d.keep_result && !d.supports_flakes ==> a[k] == "--no-out-link"@
        }),
{
    let a = build_cmd(d, target, is_ca).args;
    let head = if d.supports_flakes { seq!["build"@, target] } else { seq![target] };
    let flags = link_flags(d.keep_result, d.supports_flakes, opt_str(d.result_path), d.node_name@, d.profile_name@);
    assert(a[head.len() as int] == flags[0]);
    if d.keep_result {
        assert(a[head.len() as int + 1] == flags[1]);
    }
}

/// The activation entry points are checked in order, the primary one first:
/// a missing primary script gives its own error before the other is looked
/// at, and a missing lower-level script gives the other error.
pub proof fn lemma_activation_checks(
    d: PushProfileData,
    path: Seq<char>,
    stdout: Vec<u8>,
    next: StageView,
    action: ActionView,
)
    ensures
        step_ok(d, StageView::Build { is_ca: false, path }, PushEvent::Process(
            ProcessOutcome::Exited { code: Some(0), stdout },
        ), next, action) ==> next == StageView::CheckDeployRsActivate(path) && action
            == ActionView::CheckFile(entry(path, "deploy-rs-activate"@)),
        step_ok(d, StageView::CheckDeployRsActivate(path), PushEvent::FileChecked(false), next, action)
            ==> next == StageView::Done && action == fail(PushProfileError::DeployRsActivateDoesntExist),
        step_ok(d, StageView::CheckDeployRsActivate(path), PushEvent::FileChecked(true), next, action)
            ==> next == StageView::CheckActivateRs(path) && action == ActionView::CheckFile(
            entry(path, "activate-rs"@),
        ),
        step_ok(d, StageView::CheckActivateRs(path), PushEvent::FileChecked(false), next, action)
            ==> next == StageView::Done && action == fail(PushProfileError::ActivateRsDoesntExist),
{
}

/// The artifact that is checked, signed and copied is the original store path
/// for a store-path profile, and the path that a content-addressed build
/// printed otherwise.
pub proof fn lemma_artifact_path(d: PushProfileData, stdout: Vec<u8>, next: StageView, action: ActionView)
    ensures
        step_ok(d, StageView::ShowDerivation, PushEvent::Process(
            ProcessOutcome::Exited { code: Some(0), stdout },
        ), next, action) && action is Run ==> next == (StageView::Build {
            is_ca: false,
            path: d.profile_path@,
        }),
        step_ok(d, StageView::Build { is_ca: true, path: d.profile_path@ }, PushEvent::Process(
            ProcessOutcome::Exited { code: Some(0), stdout },
        ), next, action) && printed_path(stdout@) is Some ==> next == StageView::CheckDeployRsActivate(
            printed_path(stdout@)->Some_0,
        ),
{
}

/// Without a signing key no signing command runs and the artifact goes
/// straight to the copy; with one, exactly one recursive signing command runs
/// on the artifact with that key.
pub proof fn lemma_signing(d: PushProfileData, path: Seq<char>, next: StageView, action: ActionView)
    requires
        step_ok(d, StageView::CheckActivateRs(path), PushEvent::FileChecked(true), next, action),
    ensures
        d.signing_key is None ==> next == StageView::Copy && action == ActionView::Run(copy_cmd(d, path)),
        d.signing_key is Some ==> next == StageView::Sign(path) && action == ActionView::Run(
            sign_cmd(d.signing_key->Some_0@, path),
        ) && sign_cmd(d.signing_key->Some_0@, path).args == seq![
            "sign-paths"@,
            "-r"@,
            "-k"@,
            d.signing_key->Some_0@,
            path,
        ],
{
}

/// The copy goes to the override hostname when there is one; it substitutes
/// on the destination unless the connection is marked fast, and skips the
/// signature check unless signatures are to be checked.
pub proof fn lemma_copy_policy(d: PushProfileData, path: Seq<char>)
    ensures
        copy_cmd(d, path).args == seq!["copy"@] + copy_flags(d) + seq![
            "--to"@,
            "ssh://"@ + d.ssh_user@ + "@"@ + target_host(d),
            path,
        ],
        d.hostname_override is Some ==> target_host(d) == d.hostname_override->Some_0@,
        d.hostname_override is None ==> target_host(d) == d.hostname@,
        copy_flags(d).contains("--substitute-on-destination"@) <==> d.fast_connection != Some(true),
        copy_flags(d).contains("--no-check-sigs"@) <==> !d.check_sigs,
{
    reveal_strlit("--substitute-on-destination");
    reveal_strlit("--no-check-sigs");
    let f = copy_flags(d);
    assert("--substitute-on-destination"@.len() == 27);
    assert("--no-check-sigs"@.len() == 15);
    if d.fast_connection != Some(true) {
        assert(f[0] == "--substitute-on-destination"@);
    }
    if !d.check_sigs {
        assert(f[f.len() - 1] == "--no-check-sigs"@);
    }
}

/// A build that exits with a nonzero code ends the push with the build's
/// exit-code error carrying that code, and nothing runs after it.
pub proof fn lemma_build_failure_stops(
    d: PushProfileData,
    is_ca: bool,
    path: Seq<char>,
    code: Option<i32>,
    stdout: Vec<u8>,
    next: StageView,
    action: ActionView,
)
    requires
        code != Some(0i32),
        step_ok(d, StageView::Build { is_ca, path }, PushEvent::Process(
            ProcessOutcome::Exited { code, stdout },
        ), next, action),
    ensures
        !is_ca ==> action == fail(PushProfileError::BuildExit(code)),
        is_ca ==> action == fail(PushProfileError::BuildErrorCode(code)),
        next == StageView::Done,
        forall|e: PushEvent| !event_fits(next, e),
{
}

} // verus!
