use deploy_rs::buildca::{build_ca_profile_command, build_ca_profile_result, BuildCAProfileData};
use deploy_rs::command::{
    ca_build_target, is_content_addressed, join_ssh_opts, out_link_path, CommandSpec, OutputMode,
    ProcessOutcome,
};
use deploy_rs::error::{BuildCAProfileError, PushProfileError};
use deploy_rs::output::{derivation_name, locate_derivation};
use deploy_rs::push::{copy_command, PushAction, PushEvent, PushPipeline, PushProfileData};

fn strings(v: &[&str]) -> Vec<String> {
    v.iter().map(|s| s.to_string()).collect()
}

fn io_error() -> std::io::Error {
    std::io::Error::new(std::io::ErrorKind::NotFound, "no such program")
}

fn exited(code: i32, stdout: &str) -> PushEvent {
    PushEvent::Process(ProcessOutcome::Exited { code: Some(code), stdout: stdout.as_bytes().to_vec() })
}

fn data(path: &str) -> PushProfileData {
    PushProfileData {
        supports_flakes: true,
        check_sigs: false,
        repo: "/src/infra".to_string(),
        node_name: "web".to_string(),
        profile_name: "system".to_string(),
        profile_path: path.to_string(),
        hostname: "web.example.org".to_string(),
        hostname_override: None,
        ssh_user: "root".to_string(),
        ssh_opts: strings(&["-p", "2222"]),
        fast_connection: Some(true),
        keep_result: false,
        result_path: None,
        extra_build_args: vec![],
        signing_key: None,
    }
}

fn ca_data(flakes: bool) -> BuildCAProfileData {
    BuildCAProfileData {
        supports_flakes: flakes,
        repo: ".".to_string(),
        node_name: "web".to_string(),
        profile_name: "system".to_string(),
        extra_build_args: strings(&["--impure"]),
    }
}

fn run(a: PushAction) -> CommandSpec {
    match a {
        PushAction::Run(c) => c,
        _ => panic!("expected a command"),
    }
}

fn check(a: PushAction) -> String {
    match a {
        PushAction::CheckFile(p) => p,
        _ => panic!("expected a file check"),
    }
}

const STORE: &str = "/nix/store/abc-system";
const DRV: &str = "/nix/store/xyz-system.drv";

#[test]
fn ca_build_without_flakes_is_refused() {
    let r = build_ca_profile_command(&ca_data(false));
    assert!(matches!(r, Err(BuildCAProfileError::CADerivationNonFlake)));
}

#[test]
fn ca_build_command_prints_out_paths() {
    let c = build_ca_profile_command(&ca_data(true)).ok().unwrap();
    assert_eq!(c.program, "nix");
    assert_eq!(
        c.args,
        strings(&["build", ".#deploy.nodes.web.profiles.system.path", "--no-link", "--impure", "--print-out-paths"])
    );
    assert_eq!(c.stdout, OutputMode::Capture);
    assert!(c.transport_options.is_none());
}

#[test]
fn ca_build_result_is_trimmed_output() {
    let r = build_ca_profile_result(ProcessOutcome::Exited {
        code: Some(0),
        stdout: b"  /nix/store/qqq-system\n".to_vec(),
    });
    assert_eq!(r.ok().unwrap(), "/nix/store/qqq-system");
}

#[test]
fn ca_build_result_errors() {
    let r = build_ca_profile_result(ProcessOutcome::Exited { code: Some(2), stdout: vec![] });
    assert!(matches!(r, Err(BuildCAProfileError::BuildErrorCode(Some(2)))));
    let r = build_ca_profile_result(ProcessOutcome::Exited { code: None, stdout: vec![] });
    assert!(matches!(r, Err(BuildCAProfileError::BuildErrorCode(None))));
    let r = build_ca_profile_result(ProcessOutcome::StartFailed(io_error()));
    assert!(matches!(r, Err(BuildCAProfileError::BuildErrorStart(_))));
    let r = build_ca_profile_result(ProcessOutcome::RunFailed(io_error()));
    assert!(matches!(r, Err(BuildCAProfileError::BuildErrorRun(_))));
    let r = build_ca_profile_result(ProcessOutcome::Exited { code: Some(0), stdout: vec![0xff, 0xfe] });
    assert!(matches!(r, Err(BuildCAProfileError::BuildErrorRun(_))));
}

#[test]
fn empty_derivation_listing_is_an_error() {
    assert!(matches!(derivation_name("{}"), Err(PushProfileError::ShowDerivationEmpty)));
    let r = locate_derivation(Some(0), &b"{}".to_vec());
    assert!(matches!(r, Err(PushProfileError::ShowDerivationEmpty)));
}

#[test]
fn derivation_name_is_the_key() {
    let r = derivation_name("{\"/nix/store/xyz-system.drv\": {\"outputs\": {}}}");
    assert_eq!(r.ok().unwrap(), DRV);
    let r = derivation_name("{\"a\": 1, \"b\": 2}").ok().unwrap();
    assert!(r == "a" || r == "b");
}

#[test]
fn derivation_listing_errors() {
    assert!(matches!(derivation_name("not json"), Err(PushProfileError::ShowDerivationParse(_))));
    assert!(matches!(derivation_name("[1]"), Err(PushProfileError::ShowDerivationParse(_))));
    let r = locate_derivation(Some(1), &b"{}".to_vec());
    assert!(matches!(r, Err(PushProfileError::ShowDerivationExit(Some(1)))));
    let r = locate_derivation(Some(0), &vec![b'{', 0xc3, b'}']);
    assert!(matches!(r, Err(PushProfileError::ShowDerivationUtf8(_))));
}

#[test]
fn store_paths_are_not_content_addressed() {
    assert!(!is_content_addressed(STORE));
    assert!(is_content_addressed("/abc"));
    assert!(is_content_addressed(""));
}

#[test]
fn targets_and_links() {
    assert_eq!(ca_build_target("github:o/r", "n", "p"), "github:o/r#deploy.nodes.n.profiles.p.path");
    assert_eq!(out_link_path(&None, "n", "p"), "./.deploy-gc/n/p");
    assert_eq!(out_link_path(&Some("/tmp/gc".to_string()), "n", "p"), "/tmp/gc/n/p");
}

#[test]
fn ssh_options_are_joined_with_spaces() {
    assert_eq!(join_ssh_opts(&strings(&["-p", "2222", "-o", "A=b c"])), "-p 2222 -o A=b c");
    assert_eq!(join_ssh_opts(&vec![]), "");
    assert_eq!(join_ssh_opts(&strings(&["-v"])), "-v");
}

fn build_after_lookup(d: PushProfileData) -> CommandSpec {
    let (mut p, a) = PushPipeline::start(d);
    let c = run(a);
    assert_eq!(c.args, strings(&["show-derivation", STORE]));
    run(p.step(exited(0, "{\"/nix/store/xyz-system.drv\": {}}")))
}

#[test]
fn link_flags_follow_keep_result() {
    let mut d = data(STORE);
    d.keep_result = true;
    d.extra_build_args = strings(&["--show-trace"]);
    let c = build_after_lookup(d);
    assert_eq!(c.program, "nix");
    assert_eq!(c.args, strings(&["build", DRV, "--out-link", "./.deploy-gc/web/system", "--show-trace"]));

    let mut d = data(STORE);
    d.supports_flakes = false;
    d.keep_result = true;
    d.result_path = Some("/var/gc".to_string());
    let c = build_after_lookup(d);
    assert_eq!(c.program, "nix-build");
    assert_eq!(c.args, strings(&[DRV, "--out-link", "/var/gc/web/system"]));

    let mut d = data(STORE);
    d.supports_flakes = false;
    let c = build_after_lookup(d);
    assert_eq!(c.args, strings(&[DRV, "--no-out-link"]));
    assert_eq!(c.stdout, OutputMode::Discard);
}

fn at_activation_check(d: PushProfileData) -> PushPipeline {
    let (mut p, _) = PushPipeline::start(d);
    run(p.step(exited(0, "{\"/nix/store/xyz-system.drv\": {}}")));
    let f = check(p.step(exited(0, "")));
    assert_eq!(f, "/nix/store/abc-system/deploy-rs-activate");
    p
}

#[test]
fn primary_activation_script_is_checked_first() {
    let mut p = at_activation_check(data(STORE));
    let a = p.step(PushEvent::FileChecked(false));
    assert!(matches!(a, PushAction::Finish(Err(PushProfileError::DeployRsActivateDoesntExist))));
    assert!(p.is_done());

    let mut p = at_activation_check(data(STORE));
    let f = check(p.step(PushEvent::FileChecked(true)));
    assert_eq!(f, "/nix/store/abc-system/activate-rs");
    let a = p.step(PushEvent::FileChecked(false));
    assert!(matches!(a, PushAction::Finish(Err(PushProfileError::ActivateRsDoesntExist))));
}

#[test]
fn signing_only_with_a_key() {
    let mut p = at_activation_check(data(STORE));
    check(p.step(PushEvent::FileChecked(true)));
    let c = run(p.step(PushEvent::FileChecked(true)));
    assert_eq!(c.args[0], "copy");

    let mut d = data(STORE);
    d.signing_key = Some("/etc/key.sec".to_string());
    let mut p = at_activation_check(d);
    check(p.step(PushEvent::FileChecked(true)));
    let c = run(p.step(PushEvent::FileChecked(true)));
    assert_eq!(c.args, strings(&["sign-paths", "-r", "-k", "/etc/key.sec", STORE]));
    let a = p.step(exited(3, ""));
    assert!(matches!(a, PushAction::Finish(Err(PushProfileError::SignExit(Some(3))))));
}

#[test]
fn copy_policy() {
    let mut d = data(STORE);
    d.hostname_override = Some("10.0.0.7".to_string());
    d.fast_connection = None;
    d.check_sigs = true;
    let c = copy_command(&d, STORE);
    assert_eq!(c.args, strings(&["copy", "--substitute-on-destination", "--to", "ssh://root@10.0.0.7", STORE]));
    assert_eq!(c.transport_options, Some("-p 2222".to_string()));

    let mut d = data(STORE);
    d.fast_connection = Some(false);
    let c = copy_command(&d, STORE);
    assert_eq!(
        c.args,
        strings(&["copy", "--substitute-on-destination", "--no-check-sigs", "--to", "ssh://root@web.example.org", STORE])
    );
}

#[test]
fn scenario_store_path_push() {
    let (mut p, a) = PushPipeline::start(data(STORE));
    let c = run(a);
    assert_eq!(c.program, "nix");
    assert_eq!(c.args, strings(&["show-derivation", STORE]));
    let c = run(p.step(exited(0, "{\"/nix/store/xyz-system.drv\": {}}")));
    assert_eq!(c.args, strings(&["build", DRV, "--no-link"]));
    assert_eq!(c.stdout, OutputMode::Discard);
    assert_eq!(check(p.step(exited(0, ""))), "/nix/store/abc-system/deploy-rs-activate");
    assert_eq!(check(p.step(PushEvent::FileChecked(true))), "/nix/store/abc-system/activate-rs");
    let c = run(p.step(PushEvent::FileChecked(true)));
    assert_eq!(c.args, strings(&["copy", "--no-check-sigs", "--to", "ssh://root@web.example.org", STORE]));
    assert_eq!(c.transport_options, Some("-p 2222".to_string()));
    let a = p.step(exited(0, ""));
    assert!(matches!(a, PushAction::Finish(Ok(()))));
    assert!(p.is_done());
}

#[test]
fn scenario_content_addressed_push() {
    let mut d = data("/abc123");
    d.keep_result = true;
    d.result_path = Some("/gc".to_string());
    d.fast_connection = None;
    d.signing_key = Some("k.sec".to_string());
    let (mut p, a) = PushPipeline::start(d);
    let c = run(a);
    assert_eq!(
        c.args,
        strings(&["build", "/src/infra#deploy.nodes.web.profiles.system.path", "--out-link", "/gc/web/system", "--print-out-paths"])
    );
    assert_eq!(c.stdout, OutputMode::Capture);
    let f = check(p.step(exited(0, "/nix/store/real-system\n")));
    assert_eq!(f, "/nix/store/real-system/deploy-rs-activate");
    check(p.step(PushEvent::FileChecked(true)));
    let c = run(p.step(PushEvent::FileChecked(true)));
    assert_eq!(c.args, strings(&["sign-paths", "-r", "-k", "k.sec", "/nix/store/real-system"]));
    let c = run(p.step(exited(0, "")));
    assert_eq!(
        c.args,
        strings(&["copy", "--substitute-on-destination", "--no-check-sigs", "--to", "ssh://root@web.example.org", "/nix/store/real-system"])
    );
    assert!(matches!(p.step(exited(0, "")), PushAction::Finish(Ok(()))));
}

#[test]
fn ca_push_without_flakes_runs_nothing() {
    let mut d = data("/abc123");
    d.supports_flakes = false;
    let (p, a) = PushPipeline::start(d);
    assert!(matches!(a, PushAction::Finish(Err(PushProfileError::CADerivationNonFlake))));
    assert!(p.is_done());
}

#[test]
fn scenario_build_failure_stops_the_push() {
    let (mut p, _) = PushPipeline::start(data(STORE));
    run(p.step(exited(0, "{\"/nix/store/xyz-system.drv\": {}}")));
    let a = p.step(exited(1, ""));
    assert!(matches!(a, PushAction::Finish(Err(PushProfileError::BuildExit(Some(1))))));
    assert!(p.is_done());

    let (mut p, _) = PushPipeline::start(data("/abc123"));
    let a = p.step(exited(1, ""));
    assert!(matches!(a, PushAction::Finish(Err(PushProfileError::BuildErrorCode(Some(1))))));
    assert!(p.is_done());
}

#[test]
fn process_failures_are_tagged_by_phase() {
    let (mut p, _) = PushPipeline::start(data(STORE));
    let a = p.step(PushEvent::Process(ProcessOutcome::StartFailed(io_error())));
    assert!(matches!(a, PushAction::Finish(Err(PushProfileError::ShowDerivation(_)))));

    let (mut p, _) = PushPipeline::start(data(STORE));
    run(p.step(exited(0, "{\"/nix/store/xyz-system.drv\": {}}")));
    let a = p.step(PushEvent::Process(ProcessOutcome::RunFailed(io_error())));
    assert!(matches!(a, PushAction::Finish(Err(PushProfileError::Build(_)))));

    let (mut p, _) = PushPipeline::start(data("/abc123"));
    let a = p.step(PushEvent::Process(ProcessOutcome::StartFailed(io_error())));
    assert!(matches!(a, PushAction::Finish(Err(PushProfileError::BuildErrorStart(_)))));

    let mut p = at_activation_check(data(STORE));
    check(p.step(PushEvent::FileChecked(true)));
    run(p.step(PushEvent::FileChecked(true)));
    let a = p.step(exited(255, ""));
    assert!(matches!(a, PushAction::Finish(Err(PushProfileError::CopyExit(Some(255))))));
}
