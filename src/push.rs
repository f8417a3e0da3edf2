use vstd::prelude::*;
use vstd::string::*;
use crate::buildca::CaData;
use crate::command::{
    ca_build_target, ca_target, extend_strs, is_ca_path, is_content_addressed, join_ssh_opts,
    joined, link_flags, opt_str, push_link_flags, push_str, strs, CommandSpec, CommandView,
    OutputMode, ProcessOutcome,
};
use crate::error::PushProfileError;
use crate::output::{locate_derivation, locate_ok, printed_path, read_printed_path};

verus! {

/// Inputs of one push: the profile, the node and the merged settings. The
/// signing key is read once by the caller, before the push starts.
pub struct PushProfileData {
    pub supports_flakes: bool,
    pub check_sigs: bool,
    pub repo: String,
    pub node_name: String,
    pub profile_name: String,
    /// The profile's declared path: a store path, or a content-addressed reference.
    pub profile_path: String,
    /// The node's declared hostname.
    pub hostname: String,
    /// A hostname given on the command line, which takes precedence.
    pub hostname_override: Option<String>,
    pub ssh_user: String,
    pub ssh_opts: Vec<String>,
    pub fast_connection: Option<bool>,
    pub keep_result: bool,
    pub result_path: Option<String>,
    pub extra_build_args: Vec<String>,
    pub signing_key: Option<String>,
}

pub open spec fn show_derivation_cmd(path: Seq<char>) -> CommandView {
    CommandView {
        program: "nix"@,
        args: seq!["show-derivation"@, path],
        transport_options: None,
        stdout: OutputMode::Capture,
    }
}

/// The build of `target`; a content-addressed build also prints its output path.
pub open spec fn build_cmd(d: PushProfileData, target: Seq<char>, is_ca: bool) -> CommandView {
    CommandView {
        program: if d.supports_flakes { "nix"@ } else { "nix-build"@ },
        args: (if d.supports_flakes { seq!["build"@, target] } else { seq![target] })
            + link_flags(d.keep_result, d.supports_flakes, opt_str(d.result_path), d.node_name@, d.profile_name@)
            + strs(d.extra_build_args@)
            + (if is_ca { seq!["--print-out-paths"@] } else { Seq::empty() }),
        transport_options: None,
        stdout: if is_ca { OutputMode::Capture } else { OutputMode::Discard },
    }
}

pub open spec fn sign_cmd(key: Seq<char>, path: Seq<char>) -> CommandView {
    CommandView {
        program: "nix"@,
        args: seq!["sign-paths"@, "-r"@, "-k"@, key, path],
        transport_options: None,
        stdout: OutputMode::Inherit,
    }
}

/// The host to copy to: the override when there is one, else the node's own.
pub open spec fn target_host(d: PushProfileData) -> Seq<char> {
    match d.hostname_override {
        Some(h) => h@,
        None => d.hostname@,
    }
}

pub open spec fn copy_flags(d: PushProfileData) -> Seq<Seq<char>> {
    (if d.fast_connection != Some(true) { seq!["--substitute-on-destination"@] } else { Seq::empty() })
        + (if !d.check_sigs { seq!["--no-check-sigs"@] } else { Seq::empty() })
}

pub open spec fn copy_cmd(d: PushProfileData, path: Seq<char>) -> CommandView {
    CommandView {
        program: "nix"@,
        args: seq!["copy"@] + copy_flags(d) + seq![
            "--to"@,
            "ssh://"@ + d.ssh_user@ + "@"@ + target_host(d),
            path,
        ],
        transport_options: Some(joined(strs(d.ssh_opts@))),
        stdout: OutputMode::Inherit,
    }
}

pub fn show_derivation_command(path: &str) -> (r: CommandSpec)
    ensures
        r@ == show_derivation_cmd(path@),
{
    let mut args: Vec<String> = Vec::new();
    push_str(&mut args, "show-derivation");
    push_str(&mut args, path);
    let r = CommandSpec { program: String::from_str("nix"), args, transport_options: None, stdout: OutputMode::Capture };
    assert(r@.args =~= show_derivation_cmd(path@).args);
    r
}

pub fn build_command(d: &PushProfileData, target: &str, is_ca: bool) -> (r: CommandSpec)
    ensures
        r@ == build_cmd(*d, target@, is_ca),
{
    let mut args: Vec<String> = Vec::new();
    assert(strs(args@) =~= Seq::empty());
    if d.supports_flakes {
        push_str(&mut args, "build");
    }
    push_str(&mut args, target);
    push_link_flags(&mut args, d.keep_result, d.supports_flakes, &d.result_path, d.node_name.as_str(), d.profile_name.as_str());
    extend_strs(&mut args, &d.extra_build_args);
    if is_ca {
        push_str(&mut args, "--print-out-paths");
    }
    let program = if d.supports_flakes { String::from_str("nix") } else { String::from_str("nix-build") };
    let stdout = if is_ca { OutputMode::Capture } else { OutputMode::Discard };
    let r = CommandSpec { program, args, transport_options: None, stdout };
    assert(r@.args =~= build_cmd(*d, target@, is_ca).args);
    r
}

pub fn sign_command(key: &str, path: &str) -> (r: CommandSpec)
    ensures
        r@ == sign_cmd(key@, path@),
{
    let mut args: Vec<String> = Vec::new();
    push_str(&mut args, "sign-paths");
    push_str(&mut args, "-r");
    push_str(&mut args, "-k");
    push_str(&mut args, key);
    push_str(&mut args, path);
    let r = CommandSpec { program: String::from_str("nix"), args, transport_options: None, stdout: OutputMode::Inherit };
    assert(r@.args =~= sign_cmd(key@, path@).args);
    r
}

pub fn copy_command(d: &PushProfileData, path: &str) -> (r: CommandSpec)
    ensures
        r@ == copy_cmd(*d, path@),
{
    let mut args: Vec<String> = Vec::new();
    assert(strs(args@) =~= Seq::empty());
    push_str(&mut args, "copy");
    let ghost base = strs(args@);
    if d.fast_connection != Some(true) {
        push_str(&mut args, "--substitute-on-destination");
    }
    if !d.check_sigs {
        push_str(&mut args, "--no-check-sigs");
    }
    assert(strs(args@) =~= base + copy_flags(*d));
    push_str(&mut args, "--to");
    let mut dest = String::from_str("ssh://");
    dest.append(d.ssh_user.as_str());
    dest.append("@");
    match &d.hostname_override {
        Some(h) => dest.append(h.as_str()),
        None => dest.append(d.hostname.as_str()),
    }
    push_str(&mut args, dest.as_str());
    push_str(&mut args, path);
    let opts = join_ssh_opts(&d.ssh_opts);
    let r = CommandSpec { program: String::from_str("nix"), args, transport_options: Some(opts), stdout: OutputMode::Inherit };
    assert(r@.args =~= copy_cmd(*d, path@).args);
    r
}

/// `path` joined with the name of an entry directly under it.
pub open spec fn entry(path: Seq<char>, name: Seq<char>) -> Seq<char> {
    path + "/"@ + name
}

pub fn entry_path(path: &str, name: &str) -> (r: String)
    ensures
        r@ == entry(path@, name@),
{
    let mut r = String::from_str(path);
    r.append("/");
    r.append(name);
    r
}


/// Where a push stands: the command or check whose outcome it waits for.
pub enum PushStage {
    ShowDerivation,
    Build(CaData),
    CheckDeployRsActivate(String),
    CheckActivateRs(String),
    Sign(String),
    Copy,
    Done,
}

pub enum StageView {
    ShowDerivation,
    Build { is_ca: bool, path: Seq<char> },
    CheckDeployRsActivate(Seq<char>),
    CheckActivateRs(Seq<char>),
    Sign(Seq<char>),
    Copy,
    Done,
}

impl View for PushStage {
    type V = StageView;

    open spec fn view(&self) -> StageView {
        match self {
            PushStage::ShowDerivation => StageView::ShowDerivation,
            PushStage::Build(a) => StageView::Build { is_ca: a.is_ca, path: a.path@ },
            PushStage::CheckDeployRsActivate(p) => StageView::CheckDeployRsActivate(p@),
            PushStage::CheckActivateRs(p) => StageView::CheckActivateRs(p@),
            PushStage::Sign(p) => StageView::Sign(p@),
            PushStage::Copy => StageView::Copy,
            PushStage::Done => StageView::Done,
        }
    }
}

/// What the caller is to do next.
pub enum PushAction {
    /// Run the command and report its outcome.
    Run(CommandSpec),
    /// Report whether a file exists at the path.
    CheckFile(String),
    /// The push is over, with this result.
    Finish(Result<(), PushProfileError>),
}

pub enum ActionView {
    Run(CommandView),
    CheckFile(Seq<char>),
    Finish(Result<(), PushProfileError>),
}

impl View for PushAction {
    type V = ActionView;

    open spec fn view(&self) -> ActionView {
        match self {
            PushAction::Run(c) => ActionView::Run(c@),
            PushAction::CheckFile(p) => ActionView::CheckFile(p@),
            PushAction::Finish(r) => ActionView::Finish(*r),
        }
    }
}

/// What the caller observed after carrying out an action.
pub enum PushEvent {
    Process(ProcessOutcome),
    FileChecked(bool),
}

pub open spec fn fail(e: PushProfileError) -> ActionView {
    ActionView::Finish(Err(e))
}

/// How a push begins.
pub open spec fn start_ok(d: PushProfileData, next: StageView, action: ActionView) -> bool {
    if !is_ca_path(d.profile_path@) {
        next == StageView::ShowDerivation && action == ActionView::Run(show_derivation_cmd(d.profile_path@))
    } else if !d.supports_flakes {
        next == StageView::Done && action == fail(PushProfileError::CADerivationNonFlake)
    } else {
        next == (StageView::Build { is_ca: true, path: d.profile_path@ }) && action == ActionView::Run(
            build_cmd(d, ca_target(d.repo@, d.node_name@, d.profile_name@), true),
        )
    }
}

/// The first activation check, on the artifact at `path`.
pub open spec fn check_first_ok(path: Seq<char>, next: StageView, action: ActionView) -> bool {
    next == StageView::CheckDeployRsActivate(path) && action == ActionView::CheckFile(
        entry(path, "deploy-rs-activate"@),
    )
}

/// After both activation checks passed: sign when a key is given, else copy.
pub open spec fn after_checks_ok(d: PushProfileData, path: Seq<char>, next: StageView, action: ActionView) -> bool {
    match d.signing_key {
        Some(k) => next == StageView::Sign(path) && action == ActionView::Run(sign_cmd(k@, path)),
        None => next == StageView::Copy && action == ActionView::Run(copy_cmd(d, path)),
    }
}

/// The events a stage waits for.
pub open spec fn event_fits(stage: StageView, event: PushEvent) -> bool {
    match stage {
        StageView::CheckDeployRsActivate(_) | StageView::CheckActivateRs(_) => event is FileChecked,
        StageView::Done => false,
        _ => event is Process,
    }
}

/// One step of a push: from `stage`, on `event`, to `next` with `action`.
pub open spec fn step_ok(
    d: PushProfileData,
    stage: StageView,
    event: PushEvent,
    next: StageView,
    action: ActionView,
) -> bool {
    match (stage, event) {
        (StageView::ShowDerivation, PushEvent::Process(o)) => match o {
            ProcessOutcome::StartFailed(e) | ProcessOutcome::RunFailed(e) =>
                next == StageView::Done && action == fail(PushProfileError::ShowDerivation(e)),
            ProcessOutcome::Exited { code, stdout } => match action {
                ActionView::Finish(Err(e)) => next == StageView::Done && locate_ok(code, stdout@, Err(e)),
                ActionView::Run(c) => next == (StageView::Build { is_ca: false, path: d.profile_path@ })
                    && exists|name: Seq<char>| locate_ok(code, stdout@, Ok(name)) && c == build_cmd(d, name, false),
                _ => false,
            },
        },
        (StageView::Build { is_ca, path }, PushEvent::Process(o)) => match o {
            ProcessOutcome::StartFailed(e) => next == StageView::Done && action == fail(
                if is_ca { PushProfileError::BuildErrorStart(e) } else { PushProfileError::Build(e) },
            ),
            ProcessOutcome::RunFailed(e) => next == StageView::Done && action == fail(
                if is_ca { PushProfileError::BuildErrorRun(e) } else { PushProfileError::Build(e) },
            ),
            ProcessOutcome::Exited { code, stdout } => if code != Some(0i32) {
                next == StageView::Done && action == fail(
                    if is_ca { PushProfileError::BuildErrorCode(code) } else { PushProfileError::BuildExit(code) },
                )
            } else if !is_ca {
                check_first_ok(path, next, action)
            } else {
                match printed_path(stdout@) {
                    Some(p) => check_first_ok(p, next, action),
                    None => next == StageView::Done
                        && action matches ActionView::Finish(Err(PushProfileError::BuildErrorRun(_))),
                }
            },
        },
        (StageView::CheckDeployRsActivate(path), PushEvent::FileChecked(exists)) => if exists {
            next == StageView::CheckActivateRs(path) && action == ActionView::CheckFile(entry(path, "activate-rs"@))
        } else {
            next == StageView::Done && action == fail(PushProfileError::DeployRsActivateDoesntExist)
        },
        (StageView::CheckActivateRs(path), PushEvent::FileChecked(exists)) => if exists {
            after_checks_ok(d, path, next, action)
        } else {
            next == StageView::Done && action == fail(PushProfileError::ActivateRsDoesntExist)
        },
        (StageView::Sign(path), PushEvent::Process(o)) => match o {
            ProcessOutcome::StartFailed(e) | ProcessOutcome::RunFailed(e) =>
                next == StageView::Done && action == fail(PushProfileError::Sign(e)),
            ProcessOutcome::Exited { code, stdout: _ } => if code != Some(0i32) {
                next == StageView::Done && action == fail(PushProfileError::SignExit(code))
            } else {
                next == StageView::Copy && action == ActionView::Run(copy_cmd(d, path))
            },
        },
        (StageView::Copy, PushEvent::Process(o)) => match o {
            ProcessOutcome::StartFailed(e) | ProcessOutcome::RunFailed(e) =>
                next == StageView::Done && action == fail(PushProfileError::Copy(e)),
            ProcessOutcome::Exited { code, stdout: _ } => if code != Some(0i32) {
                next == StageView::Done && action == fail(PushProfileError::CopyExit(code))
            } else {
                next == StageView::Done && action == ActionView::Finish(Ok(()))
            },
        },
        _ => false,
    }
}

/// A push in progress: its inputs and the stage it has reached.
pub struct PushPipeline {
    pub data: PushProfileData,
    pub stage: PushStage,
}

impl PushPipeline {
    /// Starts a push: a store-path profile first has its derivation looked up;
    /// a content-addressed one is built at once, which needs flake support.
    pub fn start(data: PushProfileData) -> (r: (PushPipeline, PushAction))
        ensures
            r.0.data == data,
            start_ok(data, r.0.stage@, r.1@),
    {
        if !is_content_addressed(data.profile_path.as_str()) {
            let c = show_derivation_command(data.profile_path.as_str());
            (PushPipeline { data, stage: PushStage::ShowDerivation }, PushAction::Run(c))
        } else if !data.supports_flakes {
            (PushPipeline { data, stage: PushStage::Done }, PushAction::Finish(Err(PushProfileError::CADerivationNonFlake)))
        } else {
            let target = ca_build_target(data.repo.as_str(), data.node_name.as_str(), data.profile_name.as_str());
            let c = build_command(&data, target.as_str(), true);
            let a = CaData { is_ca: true, path: data.profile_path.clone() };
            (PushPipeline { data, stage: PushStage::Build(a) }, PushAction::Run(c))
        }
    }

    pub open spec fn is_done_spec(&self) -> bool {
        self.stage is Done
    }

    /// Whether the push has finished.
    #[verifier::when_used_as_spec(is_done_spec)]
    pub fn is_done(&self) -> (r: bool)
        ensures
            r == self.is_done_spec(),
    {
        match self.stage {
            PushStage::Done => true,
            _ => false,
        }
    }

    fn check_first(path: String) -> (r: (PushStage, PushAction))
        ensures
            check_first_ok(path@, r.0@, r.1@),
    {
        let p = entry_path(path.as_str(), "deploy-rs-activate");
        (PushStage::CheckDeployRsActivate(path), PushAction::CheckFile(p))
    }

    fn after_checks(d: &PushProfileData, path: String) -> (r: (PushStage, PushAction))
        ensures
            after_checks_ok(*d, path@, r.0@, r.1@),
    {
        match &d.signing_key {
            Some(k) => {
                let c = sign_command(k.as_str(), path.as_str());
                (PushStage::Sign(path), PushAction::Run(c))
            },
            None => {
                let c = copy_command(d, path.as_str());
                (PushStage::Copy, PushAction::Run(c))
            },
        }
    }

    /// Advances the push by the outcome of the last action.
    pub fn step(&mut self, event: PushEvent) -> (r: PushAction)
        requires
            event_fits(old(self).stage@, event),
        ensures
            final(self).data == old(self).data,
            step_ok(old(self).data, old(self).stage@, event, final(self).stage@, r@),
    {
        let mut stage = PushStage::Done;
        core::mem::swap(&mut stage, &mut self.stage);
        let (next, action) = self.transition(stage, event);
        self.stage = next;
        action
    }

    fn transition(&self, stage: PushStage, event: PushEvent) -> (r: (PushStage, PushAction))
        requires
            event_fits(stage@, event),
        ensures
            step_ok(self.data, stage@, event, r.0@, r.1@),
    {
        let d = &self.data;
        match stage {
            PushStage::ShowDerivation => match event {
                PushEvent::Process(ProcessOutcome::StartFailed(e)) | PushEvent::Process(ProcessOutcome::RunFailed(e)) => {
                    (PushStage::Done, PushAction::Finish(Err(PushProfileError::ShowDerivation(e))))
                },
                PushEvent::Process(ProcessOutcome::Exited { code, stdout }) => {
                    match locate_derivation(code, &stdout) {
                        Err(e) => (PushStage::Done, PushAction::Finish(Err(e))),
                        Ok(name) => {
                            let c = build_command(d, name.as_str(), false);
                            let a = CaData { is_ca: false, path: d.profile_path.clone() };
                            (PushStage::Build(a), PushAction::Run(c))
                        },
                    }
                },
                // ruled out by the precondition: this stage waits for a command
                PushEvent::FileChecked(_) => (PushStage::Done, PushAction::Finish(Ok(()))),
            },
            PushStage::Build(a) => match event {
                PushEvent::Process(ProcessOutcome::StartFailed(e)) => {
                    let err = if a.is_ca { PushProfileError::BuildErrorStart(e) } else { PushProfileError::Build(e) };
                    (PushStage::Done, PushAction::Finish(Err(err)))
                },
                PushEvent::Process(ProcessOutcome::RunFailed(e)) => {
                    let err = if a.is_ca { PushProfileError::BuildErrorRun(e) } else { PushProfileError::Build(e) };
                    (PushStage::Done, PushAction::Finish(Err(err)))
                },
                PushEvent::Process(ProcessOutcome::Exited { code, stdout }) => {
                    match code {
                        Some(0) => {},
                        _ => {
                            let err = if a.is_ca { PushProfileError::BuildErrorCode(code) } else { PushProfileError::BuildExit(code) };
                            return (PushStage::Done, PushAction::Finish(Err(err)));
                        },
                    }
                    if !a.is_ca {
                        Self::check_first(a.path)
                    } else {
                        match read_printed_path(&stdout) {
                            Ok(p) => Self::check_first(p),
                            Err(e) => (PushStage::Done, PushAction::Finish(Err(PushProfileError::BuildErrorRun(e)))),
                        }
                    }
                },
                // ruled out by the precondition: this stage waits for a command
                PushEvent::FileChecked(_) => (PushStage::Done, PushAction::Finish(Ok(()))),
            },
            PushStage::CheckDeployRsActivate(path) => match event {
                PushEvent::FileChecked(true) => {
                    let p = entry_path(path.as_str(), "activate-rs");
                    (PushStage::CheckActivateRs(path), PushAction::CheckFile(p))
                },
                _ => (PushStage::Done, PushAction::Finish(Err(PushProfileError::DeployRsActivateDoesntExist))),
            },
            PushStage::CheckActivateRs(path) => match event {
                PushEvent::FileChecked(true) => Self::after_checks(d, path),
                _ => (PushStage::Done, PushAction::Finish(Err(PushProfileError::ActivateRsDoesntExist))),
            },
            PushStage::Sign(path) => match event {
                PushEvent::Process(ProcessOutcome::StartFailed(e)) | PushEvent::Process(ProcessOutcome::RunFailed(e)) => {
                    (PushStage::Done, PushAction::Finish(Err(PushProfileError::Sign(e))))
                },
                PushEvent::Process(ProcessOutcome::Exited { code, stdout: _ }) => {
                    match code {
                        Some(0) => {
                            let c = copy_command(d, path.as_str());
                            (PushStage::Copy, PushAction::Run(c))
                        },
                        _ => (PushStage::Done, PushAction::Finish(Err(PushProfileError::SignExit(code)))),
                    }
                },
                // ruled out by the precondition: this stage waits for a command
                PushEvent::FileChecked(_) => (PushStage::Done, PushAction::Finish(Ok(()))),
            },
            PushStage::Copy => match event {
                PushEvent::Process(ProcessOutcome::StartFailed(e)) | PushEvent::Process(ProcessOutcome::RunFailed(e)) => {
                    (PushStage::Done, PushAction::Finish(Err(PushProfileError::Copy(e))))
                },
                PushEvent::Process(ProcessOutcome::Exited { code, stdout: _ }) => {
                    match code {
                        Some(0) => (PushStage::Done, PushAction::Finish(Ok(()))),
                        _ => (PushStage::Done, PushAction::Finish(Err(PushProfileError::CopyExit(code)))),
                    }
                },
                // ruled out by the precondition: this stage waits for a command
                PushEvent::FileChecked(_) => (PushStage::Done, PushAction::Finish(Ok(()))),
            },
            // ruled out by the precondition: a finished push takes no event
            PushStage::Done => (PushStage::Done, PushAction::Finish(Ok(()))),
        }
    }
}

} // verus!
