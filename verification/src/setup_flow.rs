//! Installer work flow: the step keys and their texts, the events the
//! workers send to the user interface, and the install transaction (the
//! step order, its events and the rollback decision). The steps' outside
//! work (services, files, registry) is done by the setup program.

use vstd::prelude::*;

use crate::protocol::{opt_view, result_view, SessionStatus};
use crate::setup_args::Mode;
use crate::text::{chars_of, push_char, push_str, starts_with, text_eq};

verus! {

pub const STEP_STOP_SERVICE: &'static str = "stop_service";
pub const STEP_UNPACK: &'static str = "unpack";
pub const STEP_INSTALL_CORE: &'static str = "install_core";
pub const STEP_SHELL_INTEGRATION: &'static str = "shell_integration";
pub const STEP_START_SERVICE: &'static str = "start_service";
pub const STEP_WAIT_DIAL: &'static str = "wait_dial";
pub const STEP_UNINSTALL_STOP_SERVICE: &'static str = "uninstall_stop_service";
pub const STEP_UNINSTALL_SERVICE: &'static str = "uninstall_service";
pub const STEP_UNINSTALL_EVENT_SOURCE: &'static str = "uninstall_event_source";
pub const STEP_UNINSTALL_ENTROPY: &'static str = "uninstall_entropy";
pub const STEP_UNINSTALL_AUTOSTART: &'static str = "uninstall_autostart";
pub const STEP_UNINSTALL_PURGE: &'static str = "uninstall_purge";
pub const STEP_UNINSTALL_REMOVE_DIR: &'static str = "uninstall_remove_dir";

/// English line of a step key (silent console output); an unknown key
/// comes back as it is.
pub open spec fn spec_step_label_en(key: Seq<char>) -> Seq<char> {
    if key == "stop_service"@ {
        "Stop old service"@
    } else if key == "unpack"@ {
        "Unpack files"@
    } else if key == "install_core"@ {
        "Write config and register service"@
    } else if key == "shell_integration"@ {
        "Create Start Menu shortcuts"@
    } else if key == "start_service"@ {
        "Start service"@
    } else if key == "wait_dial"@ {
        "Wait for dial result"@
    } else if key == "uninstall_stop_service"@ {
        "Stop service"@
    } else if key == "uninstall_service"@ {
        "Remove service"@
    } else if key == "uninstall_event_source"@ {
        "Remove event source"@
    } else if key == "uninstall_entropy"@ {
        "Remove encryption key"@
    } else if key == "uninstall_autostart"@ {
        "Remove tray autostart"@
    } else if key == "uninstall_purge"@ {
        "Delete config and logs"@
    } else if key == "uninstall_remove_dir"@ {
        "Remove install directory"@
    } else {
        key
    }
}

/// English line of a step key.
pub fn step_label_en(key: &str) -> (r: &str)
    ensures
        r@ == spec_step_label_en(key@),
{
    if text_eq(key, STEP_STOP_SERVICE) {
        "Stop old service"
    } else if text_eq(key, STEP_UNPACK) {
        "Unpack files"
    } else if text_eq(key, STEP_INSTALL_CORE) {
        "Write config and register service"
    } else if text_eq(key, STEP_SHELL_INTEGRATION) {
        "Create Start Menu shortcuts"
    } else if text_eq(key, STEP_START_SERVICE) {
        "Start service"
    } else if text_eq(key, STEP_WAIT_DIAL) {
        "Wait for dial result"
    } else if text_eq(key, STEP_UNINSTALL_STOP_SERVICE) {
        "Stop service"
    } else if text_eq(key, STEP_UNINSTALL_SERVICE) {
        "Remove service"
    } else if text_eq(key, STEP_UNINSTALL_EVENT_SOURCE) {
        "Remove event source"
    } else if text_eq(key, STEP_UNINSTALL_ENTROPY) {
        "Remove encryption key"
    } else if text_eq(key, STEP_UNINSTALL_AUTOSTART) {
        "Remove tray autostart"
    } else if text_eq(key, STEP_UNINSTALL_PURGE) {
        "Delete config and logs"
    } else if text_eq(key, STEP_UNINSTALL_REMOVE_DIR) {
        "Remove install directory"
    } else {
        key
    }
}

/// Chinese line of an uninstall report key; other keys come back as they are.
pub open spec fn spec_label_zh(key: Seq<char>) -> Seq<char> {
    if key == "uninstall_service"@ {
        "移除服务"@
    } else if key == "uninstall_event_source"@ {
        "移除事件源"@
    } else if key == "uninstall_entropy"@ {
        "移除加密密钥"@
    } else if key == "uninstall_autostart"@ {
        "移除托盘自启"@
    } else {
        key
    }
}

/// Chinese line of an uninstall report key.
pub fn label_zh(key: &str) -> (r: &str)
    ensures
        r@ == spec_label_zh(key@),
{
    if text_eq(key, STEP_UNINSTALL_SERVICE) {
        "移除服务"
    } else if text_eq(key, STEP_UNINSTALL_EVENT_SOURCE) {
        "移除事件源"
    } else if text_eq(key, STEP_UNINSTALL_ENTROPY) {
        "移除加密密钥"
    } else if text_eq(key, STEP_UNINSTALL_AUTOSTART) {
        "移除托盘自启"
    } else {
        key
    }
}

/// Result of one reported step.
#[derive(Debug, Clone, PartialEq, Eq)]
pub enum StepOutcome {
    Done,
    Skipped,
    Failed(String),
}

/// What a failed installation left behind.
#[derive(Debug, Clone, PartialEq, Eq)]
pub enum RollbackOutcome {
    /// Nothing failed.
    NotNeeded,
    /// The previous service configuration is back.
    RolledBack,
    /// Rolling back failed too; the text says what is left.
    Incomplete(String),
}

/// Event from a worker thread to the user interface.
#[derive(Debug, PartialEq, Eq)]
pub enum Ev {
    Step { key: &'static str, label: String },
    StepDone { key: &'static str, label: String },
    StepFinished { key: &'static str, label: String, outcome: StepOutcome },
    /// End of the work flow: the result and what the rollback did.
    Done { result: Result<(), String>, rollback: RollbackOutcome },
}

/// A dial result the start-service page waits for: connected, backing
/// off, or refused credentials.
pub open spec fn spec_dial_settled(s: SessionStatus) -> bool {
    s == SessionStatus::Connected || s == SessionStatus::Backoff || s == SessionStatus::AuthFail
}

/// Whether the service has a dial result to show.
pub fn dial_settled(s: SessionStatus) -> (r: bool)
    ensures
        r == spec_dial_settled(s),
{
    match s {
        SessionStatus::Connected | SessionStatus::Backoff | SessionStatus::AuthFail => true,
        _ => false,
    }
}

/// An argument quoted when it holds a space.
pub open spec fn quote_one(a: Seq<char>) -> Seq<char> {
    if a.contains(' ') {
        seq!['"'] + a + seq!['"']
    } else {
        a
    }
}

/// Arguments joined by single spaces, those with a space quoted.
pub open spec fn spec_quote_args(args: Seq<Seq<char>>) -> Seq<char>
    decreases args.len(),
{
    if args.len() == 0 {
        Seq::empty()
    } else if args.len() == 1 {
        quote_one(args[0])
    } else {
        spec_quote_args(args.drop_last()) + seq![' '] + quote_one(args.last())
    }
}

fn has_space(s: &str) -> (r: bool)
    ensures
        r == s@.contains(' '),
{
    let cs = chars_of(s);
    let mut i: usize = 0;
    while i < cs.len()
        invariant
            i <= cs@.len(),
            cs@ == s@,
            forall|j: int| 0 <= j < i ==> cs@[j] != ' ',
        decreases cs.len() - i,
    {
        if cs[i] == ' ' {
            return true;
        }
        i = i + 1;
    }
    false
}

/// Command line of arguments (the install path may hold spaces).
pub fn quote_args(args: &[String]) -> (r: String)
    ensures
        r@ == spec_quote_args(args@.map_values(|a: String| a@)),
{
    let ghost av = args@.map_values(|a: String| a@);
    let mut out = String::new();
    let mut i: usize = 0;
    while i < args.len()
        invariant
            i <= args@.len(),
            av == args@.map_values(|a: String| a@),
            out@ == spec_quote_args(av.take(i as int)),
        decreases args.len() - i,
    {
        let ghost pre = av.take(i as int);
        let ghost cur = av.take(i + 1);
        assert(cur.drop_last() =~= pre);
        if i > 0 {
            push_char(&mut out, ' ');
        }
        let a = args[i].as_str();
        if has_space(a) {
            push_char(&mut out, '"');
            push_str(&mut out, a);
            push_char(&mut out, '"');
        } else {
            push_str(&mut out, a);
        }
        assert(out@ =~= spec_quote_args(cur));
        i = i + 1;
    }
    assert(av.take(args@.len() as int) =~= av);
    out
}

/// One step of the installation, in the order they run.
#[derive(Debug, Clone, Copy, PartialEq, Eq, Structural)]
pub enum InstallStep {
    StopService,
    Unpack,
    InstallCore,
    ShellIntegration,
    StartService,
}

/// The `i`-th step of the installation.
pub open spec fn step_at(i: int) -> InstallStep {
    if i == 0 {
        InstallStep::StopService
    } else if i == 1 {
        InstallStep::Unpack
    } else if i == 2 {
        InstallStep::InstallCore
    } else if i == 3 {
        InstallStep::ShellIntegration
    } else {
        InstallStep::StartService
    }
}

/// Number of installation steps.
pub const INSTALL_STEPS: usize = 5;

/// Stable key of a step.
pub open spec fn spec_step_key(s: InstallStep) -> Seq<char> {
    match s {
        InstallStep::StopService => "stop_service"@,
        InstallStep::Unpack => "unpack"@,
        InstallStep::InstallCore => "install_core"@,
        InstallStep::ShellIntegration => "shell_integration"@,
        InstallStep::StartService => "start_service"@,
    }
}

/// User-interface line of a step.
pub open spec fn spec_step_label(s: InstallStep) -> Seq<char> {
    match s {
        InstallStep::StopService => "停止旧服务"@,
        InstallStep::Unpack => "解包文件"@,
        InstallStep::InstallCore => "写入配置并注册服务"@,
        InstallStep::ShellIntegration => "创建开始菜单快捷方式"@,
        InstallStep::StartService => "启动服务"@,
    }
}

impl InstallStep {
    /// The `i`-th step (`i < 5`).
    pub fn at(i: usize) -> (r: InstallStep)
        requires
            i < 5,
        ensures
            r == step_at(i as int),
    {
        if i == 0 {
            InstallStep::StopService
        } else if i == 1 {
            InstallStep::Unpack
        } else if i == 2 {
            InstallStep::InstallCore
        } else if i == 3 {
            InstallStep::ShellIntegration
        } else {
            InstallStep::StartService
        }
    }

    /// Stable key of the step.
    pub fn key(self) -> (r: &'static str)
        ensures
            r@ == spec_step_key(self),
    {
        match self {
            InstallStep::StopService => STEP_STOP_SERVICE,
            InstallStep::Unpack => STEP_UNPACK,
            InstallStep::InstallCore => STEP_INSTALL_CORE,
            InstallStep::ShellIntegration => STEP_SHELL_INTEGRATION,
            InstallStep::StartService => STEP_START_SERVICE,
        }
    }

    /// User-interface line of the step.
    pub fn label(self) -> (r: &'static str)
        ensures
            r@ == spec_step_label(self),
    {
        match self {
            InstallStep::StopService => "停止旧服务",
            InstallStep::Unpack => "解包文件",
            InstallStep::InstallCore => "写入配置并注册服务",
            InstallStep::ShellIntegration => "创建开始菜单快捷方式",
            InstallStep::StartService => "启动服务",
        }
    }
}

/// What the installer asks for.
pub struct InstallRequest {
    pub student_id: String,
    /// None keeps the stored password.
    pub password: Option<String>,
}

/// Event of the install transaction.
pub enum InstallEvent {
    Step { key: &'static str, label: String },
    StepDone { key: &'static str, label: String },
    /// A step of the uninstall report, with how it went.
    StepFinished { key: &'static str, label: String, outcome: StepOutcome },
    Done { result: Result<(), String>, rollback: RollbackOutcome },
}

/// A step outcome as a value.
pub enum StepOutcomeView {
    Done,
    Skipped,
    Failed(Seq<char>),
}

/// The value of a step outcome.
pub open spec fn outcome_view(o: StepOutcome) -> StepOutcomeView {
    match o {
        StepOutcome::Done => StepOutcomeView::Done,
        StepOutcome::Skipped => StepOutcomeView::Skipped,
        StepOutcome::Failed(e) => StepOutcomeView::Failed(e@),
    }
}

/// A rollback outcome as a value.
pub enum RollbackView {
    NotNeeded,
    RolledBack,
    Incomplete(Seq<char>),
}

/// The value of a rollback outcome.
pub open spec fn rollback_view(r: RollbackOutcome) -> RollbackView {
    match r {
        RollbackOutcome::NotNeeded => RollbackView::NotNeeded,
        RollbackOutcome::RolledBack => RollbackView::RolledBack,
        RollbackOutcome::Incomplete(e) => RollbackView::Incomplete(e@),
    }
}

/// An install event as a value.
pub enum EventView {
    Step { key: Seq<char>, label: Seq<char> },
    StepDone { key: Seq<char>, label: Seq<char> },
    StepFinished { key: Seq<char>, label: Seq<char>, outcome: StepOutcomeView },
    Done { result: Result<(), Seq<char>>, rollback: RollbackView },
}

/// The value of an install event.
pub open spec fn event_view(e: InstallEvent) -> EventView {
    match e {
        InstallEvent::Step { key, label } => EventView::Step { key: key@, label: label@ },
        InstallEvent::StepDone { key, label } => EventView::StepDone { key: key@, label: label@ },
        InstallEvent::StepFinished { key, label, outcome } => EventView::StepFinished {
            key: key@,
            label: label@,
            outcome: outcome_view(outcome),
        },
        InstallEvent::Done { result, rollback } => EventView::Done {
            result: result_view(result),
            rollback: rollback_view(rollback),
        },
    }
}

/// Receiver of install events (the window or the console).
pub trait InstallReporter {
    /// The events reported so far, oldest first. A receiver that keeps no
    /// record of them leaves this empty, and then does not meet the contract
    /// below; the contracts of the transactions speak of this record.
    closed spec fn reported(&self) -> Seq<EventView> {
        Seq::empty()
    }

    fn report(&mut self, event: InstallEvent)
        ensures
            final(self).reported() == old(self).reported().push(event_view(event)),
    ;
}

/// A failed step: the error, and the rollback the step already did
/// itself (the core step rolls back its own service changes).
pub struct StepFailure {
    pub error: String,
    pub rollback: Option<RollbackOutcome>,
}

/// The value of a step result: the error and the step's own rollback.
pub open spec fn failure_view(r: Result<(), StepFailure>) -> Result<(), (Seq<char>, Option<RollbackView>)> {
    match r {
        Ok(()) => Ok(()),
        Err(f) => Err((
            f.error@,
            match f.rollback {
                Some(rb) => Some(rollback_view(rb)),
                None => None,
            },
        )),
    }
}

/// The value of an install request: the student ID and the password.
pub open spec fn request_view(req: InstallRequest) -> (Seq<char>, Option<Seq<char>>) {
    (req.student_id@, opt_view(req.password))
}

/// A call made on the install work, with what it returned.
pub enum InstallCall {
    /// A step, the request it was given, and its result.
    Step(InstallStep, (Seq<char>, Option<Seq<char>>), Result<(), (Seq<char>, Option<RollbackView>)>),
    /// The rollback, and what it did.
    Rollback(RollbackView),
}

/// The outside work of the installation.
pub trait InstallWork {
    /// The calls made on this work so far, oldest first. Work that keeps no
    /// record of them leaves this empty, and then does not meet the
    /// contracts below; the transaction's contract speaks of this record.
    closed spec fn calls(&self) -> Seq<InstallCall> {
        Seq::empty()
    }

    /// Runs one step.
    fn run_step(&mut self, step: InstallStep, req: &InstallRequest) -> (r: Result<(), StepFailure>)
        ensures
            final(self).calls() == old(self).calls().push(
                InstallCall::Step(step, request_view(*req), failure_view(r)),
            ),
    ;

    /// Restores the service as it was before the installation.
    fn rollback(&mut self) -> (r: RollbackOutcome)
        ensures
            final(self).calls() == old(self).calls().push(InstallCall::Rollback(rollback_view(r))),
    ;
}

/// Announcement of the `i`-th step.
pub open spec fn step_event(i: int) -> EventView {
    EventView::Step { key: spec_step_key(step_at(i)), label: spec_step_label(step_at(i)) }
}

/// Confirmation of the `i`-th step.
pub open spec fn step_done_event(i: int) -> EventView {
    EventView::StepDone { key: spec_step_key(step_at(i)), label: spec_step_label(step_at(i)) }
}

/// The events of the first `n` steps when each succeeds: each announced,
/// then confirmed.
pub open spec fn passed_events(n: nat) -> Seq<EventView>
    decreases n,
{
    if n == 0 {
        Seq::empty()
    } else {
        passed_events((n - 1) as nat) + seq![step_event(n - 1), step_done_event(n - 1)]
    }
}

/// The calls of the first `n` steps when each succeeds, each given `req`.
pub open spec fn passed_calls(req: (Seq<char>, Option<Seq<char>>), n: nat) -> Seq<InstallCall>
    decreases n,
{
    if n == 0 {
        Seq::empty()
    } else {
        passed_calls(req, (n - 1) as nat).push(InstallCall::Step(step_at(n - 1), req, Ok(())))
    }
}

/// The events of an install that passed `completed` steps and ended with
/// `result` and `rollback`: the passed steps, the failed step's
/// announcement (without confirmation) when one failed, then one `Done`.
pub open spec fn install_events(completed: nat, result: Result<(), Seq<char>>, rollback: RollbackView) -> Seq<EventView> {
    passed_events(completed) + (if completed < INSTALL_STEPS {
        seq![step_event(completed as int)]
    } else {
        Seq::empty()
    }) + seq![EventView::Done { result, rollback }]
}

/// The calls of an install that passed `completed` steps: the passed steps
/// with `req`; then, when a step failed with `error`, that step, which
/// returned its own rollback when `own` and none otherwise, and in the
/// latter case one call of the work's rollback.
pub open spec fn install_calls(
    req: (Seq<char>, Option<Seq<char>>),
    completed: nat,
    result: Result<(), Seq<char>>,
    rollback: RollbackView,
    own: bool,
) -> Seq<InstallCall> {
    passed_calls(req, completed) + match result {
        Ok(()) => Seq::empty(),
        Err(error) => seq![
            InstallCall::Step(
                step_at(completed as int),
                req,
                Err((
                    error,
                    if own {
                        Some(rollback)
                    } else {
                        None
                    },
                )),
            ),
        ] + if own {
            Seq::empty()
        } else {
            seq![InstallCall::Rollback(rollback)]
        },
    }
}

/// End of an install transaction.
pub struct InstallOutcome {
    /// Steps that succeeded, from the first on.
    pub completed: usize,
    pub result: Result<(), String>,
    pub rollback: RollbackOutcome,
    /// Whether the failed step's own rollback was kept (no second rollback ran).
    pub own_rollback: bool,
}

/// A copy of a rollback outcome.
fn copy_rollback(r: &RollbackOutcome) -> (c: RollbackOutcome)
    ensures
        rollback_view(c) == rollback_view(*r),
{
    match r {
        RollbackOutcome::NotNeeded => RollbackOutcome::NotNeeded,
        RollbackOutcome::RolledBack => RollbackOutcome::RolledBack,
        RollbackOutcome::Incomplete(e) => RollbackOutcome::Incomplete(e.clone()),
    }
}

/// Runs the steps in order, each announced before it runs and confirmed
/// after it succeeds; the first failure stops the run. A failure is rolled
/// back once: by the failed step's own rollback when it did one, otherwise
/// by `InstallWork::rollback`. The end is reported with the result and
/// what the rollback did. The events reported and the calls made on the
/// work, in order, are `install_events` and `install_calls` of the outcome.
pub fn run_install<W: InstallWork, R: InstallReporter>(req: InstallRequest, work: &mut W, reporter: &mut R) -> (r: InstallOutcome)
    ensures
        r.completed <= INSTALL_STEPS,
        r.result is Ok <==> r.completed == INSTALL_STEPS,
        r.result is Ok ==> r.rollback == RollbackOutcome::NotNeeded && !r.own_rollback,
        final(reporter).reported() == old(reporter).reported() + install_events(
            r.completed as nat,
            result_view(r.result),
            rollback_view(r.rollback),
        ),
        final(work).calls() == old(work).calls() + install_calls(
            request_view(req),
            r.completed as nat,
            result_view(r.result),
            rollback_view(r.rollback),
            r.own_rollback,
        ),
{
    let ghost rv = request_view(req);
    let mut i: usize = 0;
    while i < INSTALL_STEPS
        invariant
            i <= INSTALL_STEPS,
            rv == request_view(req),
            reporter.reported() == old(reporter).reported() + passed_events(i as nat),
            work.calls() == old(work).calls() + passed_calls(rv, i as nat),
        decreases INSTALL_STEPS - i,
    {
        let step = InstallStep::at(i);
        reporter.report(InstallEvent::Step { key: step.key(), label: String::from_str(step.label()) });
        let ghost announced = reporter.reported();
        let ghost before = work.calls();
        match work.run_step(step, &req) {
            Ok(()) => {
                reporter.report(
                    InstallEvent::StepDone { key: step.key(), label: String::from_str(step.label()) },
                );
                assert(reporter.reported() =~= old(reporter).reported() + passed_events((i + 1) as nat));
                assert(work.calls() =~= old(work).calls() + passed_calls(rv, (i + 1) as nat));
            },
            Err(f) => {
                let own = f.rollback.is_some();
                let rollback = match f.rollback {
                    Some(rb) => rb,
                    None => work.rollback(),
                };
                let error = f.error;
                reporter.report(
                    InstallEvent::Done {
                        result: Err(error.clone()),
                        rollback: copy_rollback(&rollback),
                    },
                );
                let out = InstallOutcome { completed: i, result: Err(error), rollback, own_rollback: own };
                assert(reporter.reported() =~= old(reporter).reported() + install_events(
                    i as nat,
                    result_view(out.result),
                    rollback_view(out.rollback),
                ));
                assert(work.calls() =~= old(work).calls() + install_calls(
                    rv,
                    i as nat,
                    result_view(out.result),
                    rollback_view(out.rollback),
                    own,
                ));
                return out;
            },
        }
        i = i + 1;
    }
    reporter.report(InstallEvent::Done { result: Ok(()), rollback: RollbackOutcome::NotNeeded });
    let out = InstallOutcome {
        completed: INSTALL_STEPS,
        result: Ok(()),
        rollback: RollbackOutcome::NotNeeded,
        own_rollback: false,
    };
    assert(reporter.reported() =~= old(reporter).reported() + install_events(
        INSTALL_STEPS as nat,
        result_view(out.result),
        rollback_view(out.rollback),
    ));
    assert(work.calls() =~= old(work).calls() + install_calls(
        rv,
        INSTALL_STEPS as nat,
        result_view(out.result),
        rollback_view(out.rollback),
        false,
    ));
    out
}


/// What the installer does once its mode is known.
#[derive(Debug, Clone, Copy, PartialEq, Eq, Structural)]
pub enum EntryPlan {
    /// Restart elevated; the silent modes wait for the elevated run and
    /// pass its exit code on.
    Elevate { wait: bool },
    /// The window.
    Gui,
    /// The console flow.
    Silent,
}

/// Without administrator rights the installer restarts itself elevated;
/// with them, the silent modes run on the console and every other mode
/// opens the window.
pub fn entry_plan(mode: Mode, is_admin: bool) -> (r: EntryPlan)
    ensures
        !is_admin ==> r == (EntryPlan::Elevate {
            wait: mode == Mode::SilentInstall || mode == Mode::SilentUninstall,
        }),
        is_admin ==> r == if mode == Mode::SilentInstall || mode == Mode::SilentUninstall {
            EntryPlan::Silent
        } else {
            EntryPlan::Gui
        },
{
    let silent = match mode {
        Mode::SilentInstall | Mode::SilentUninstall => true,
        _ => false,
    };
    if !is_admin {
        EntryPlan::Elevate { wait: silent }
    } else if silent {
        EntryPlan::Silent
    } else {
        EntryPlan::Gui
    }
}

/// Label of the step that waits for the dial result; its completion line
/// carries the result, which the last page shows.
pub const WAIT_DIAL_LABEL: &'static str = "等待拨号结果";

/// Text the window shows when the worker is gone before its `Done`.
pub const WORKER_LOST: &'static str = "安装线程意外退出，请查看日志。";

/// The progress list of the installer window: the announced steps, each
/// with whether it finished, and the dial result line.
pub struct Progress {
    steps: Vec<(String, bool)>,
    status_line: Option<String>,
}

/// A progress list as values.
pub struct ProgressView {
    pub steps: Seq<(Seq<char>, bool)>,
    pub status_line: Option<Seq<char>>,
}

impl View for Progress {
    type V = ProgressView;

    closed spec fn view(&self) -> ProgressView {
        ProgressView {
            steps: self.steps@.map_values(|p: (String, bool)| (p.0@, p.1)),
            status_line: opt_view(self.status_line),
        }
    }
}

/// The latest step whose label starts the given label.
pub open spec fn last_match(steps: Seq<(Seq<char>, bool)>, label: Seq<char>) -> Option<int>
    decreases steps.len(),
{
    if steps.len() == 0 {
        None
    } else if steps.last().0.is_prefix_of(label) {
        Some(steps.len() - 1)
    } else {
        last_match(steps.drop_last(), label)
    }
}

proof fn lemma_last_match(steps: Seq<(Seq<char>, bool)>, label: Seq<char>, k: int)
    requires
        -1 <= k < steps.len(),
        k >= 0 ==> steps[k].0.is_prefix_of(label),
        forall|j: int| k < j < steps.len() ==> !(#[trigger] steps[j]).0.is_prefix_of(label),
    ensures
        last_match(steps, label) == if k >= 0 {
            Some(k)
        } else {
            None::<int>
        },
    decreases steps.len(),
{
    if steps.len() > 0 && k < steps.len() - 1 {
        let d = steps.drop_last();
        assert forall|j: int| k < j < d.len() implies !(#[trigger] d[j]).0.is_prefix_of(label) by {
            assert(d[j] == steps[j]);
        }
        assert(!steps[steps.len() - 1].0.is_prefix_of(label));
        lemma_last_match(d, label, k);
    }
}

impl Progress {
    /// An empty list.
    pub fn new() -> (r: Self)
        ensures
            r@.steps.len() == 0,
            r@.status_line is None,
    {
        let r = Progress { steps: Vec::new(), status_line: None };
        assert(r@.steps =~= Seq::<(Seq<char>, bool)>::empty());
        r
    }

    /// The steps, in the order announced.
    pub fn steps(&self) -> (r: &Vec<(String, bool)>)
        ensures
            r@.map_values(|p: (String, bool)| (p.0@, p.1)) == self@.steps,
    {
        &self.steps
    }

    /// The dial result line, once the wait for it finished.
    pub fn status_line(&self) -> (r: &Option<String>)
        ensures
            opt_view(*r) == self@.status_line,
    {
        &self.status_line
    }

    /// A step was announced: it is added, unfinished.
    pub fn on_step(&mut self, label: String)
        ensures
            final(self)@.steps == old(self)@.steps.push((label@, false)),
            final(self)@.status_line == old(self)@.status_line,
    {
        let ghost l = label@;
        self.steps.push((label, false));
        assert(self@.steps =~= old(self)@.steps.push((l, false)));
    }

    fn find_last(&self, label: &[char]) -> (r: Option<usize>)
        ensures
            match r {
                Some(j) => last_match(self@.steps, label@) == Some(j as int) && j < self@.steps.len(),
                None => last_match(self@.steps, label@) is None,
            },
    {
        let mut i: usize = self.steps.len();
        while i > 0
            invariant
                i <= self.steps@.len(),
                self@.steps.len() == self.steps@.len(),
                forall|j: int| i <= j < self@.steps.len() ==> !(#[trigger] self@.steps[j]).0.is_prefix_of(label@),
            decreases i,
        {
            let lj = chars_of(self.steps[i - 1].0.as_str());
            if starts_with(label, lj.as_slice()) {
                proof {
                    lemma_last_match(self@.steps, label@, i - 1);
                }
                return Some(i - 1);
            }
            i = i - 1;
        }
        proof {
            lemma_last_match(self@.steps, label@, -1);
        }
        None
    }

    /// A step finished: the latest step whose label starts the new label
    /// is marked finished and takes the new label (which may add a note in
    /// brackets); the completion of the dial wait is kept as status line.
    pub fn on_step_done(&mut self, label: String)
        ensures
            final(self)@.steps == match last_match(old(self)@.steps, label@) {
                Some(j) => old(self)@.steps.update(j, (label@, true)),
                None => old(self)@.steps,
            },
            final(self)@.status_line == if WAIT_DIAL_LABEL@.is_prefix_of(label@) {
                Some(label@)
            } else {
                old(self)@.status_line
            },
    {
        let lc = chars_of(label.as_str());
        let wait = chars_of(WAIT_DIAL_LABEL);
        match self.find_last(lc.as_slice()) {
            Some(j) => {
                let ghost l = label@;
                self.steps.set(j, (label.clone(), true));
                assert(self@.steps =~= old(self)@.steps.update(j as int, (l, true)));
            },
            None => {},
        }
        if starts_with(lc.as_slice(), wait.as_slice()) {
            self.status_line = Some(label);
        }
    }
}

/// What the window concludes after taking the pending events: the result
/// of a `Done` that came, else an error when the worker is gone, else
/// nothing yet.
pub fn drain_result(done: Option<Result<(), String>>, disconnected: bool) -> (r: Option<Result<(), String>>)
    ensures
        done is Some ==> r == done,
        done is None && disconnected ==> (r matches Some(Err(e)) && e@ == WORKER_LOST@),
        done is None && !disconnected ==> r is None,
{
    match done {
        Some(d) => Some(d),
        None => if disconnected {
            Some(Err(String::from_str(WORKER_LOST)))
        } else {
            None
        },
    }
}

/// Pages of the installer window.
#[derive(Debug, Clone, Copy, PartialEq, Eq, Structural)]
pub enum Page {
    Welcome,
    Account,
    Progress,
    Done,
    Maintenance,
    UninstallConfirm,
    StartService,
}

/// Where "back" leads from the account page: the maintenance page of an
/// installed client, else the welcome page.
pub fn home_page(installed: bool) -> (r: Page)
    ensures
        r == if installed {
            Page::Maintenance
        } else {
            Page::Welcome
        },
{
    if installed {
        Page::Maintenance
    } else {
        Page::Welcome
    }
}

/// First page of the window: repair and uninstall open the maintenance
/// page, start-service its own page; otherwise (also when the flags do not
/// parse, `None`) the home page.
pub fn initial_page(mode: Option<Mode>, installed: bool) -> (r: Page)
    ensures
        r == match mode {
            Some(Mode::Repair) | Some(Mode::Uninstall) => Page::Maintenance,
            Some(Mode::StartService) => Page::StartService,
            _ => if installed {
                Page::Maintenance
            } else {
                Page::Welcome
            },
        },
{
    match mode {
        Some(Mode::Repair) | Some(Mode::Uninstall) => Page::Maintenance,
        Some(Mode::StartService) => Page::StartService,
        _ => home_page(installed),
    }
}

/// Why the account page does not start the installation.
#[derive(Debug, Clone, Copy, PartialEq, Eq, Structural)]
pub enum AccountFormError {
    MissingStudentId,
    MissingPassword,
}

impl AccountFormError {
    /// The message shown under the form.
    pub fn message(self) -> (r: &'static str)
        ensures
            r@ == match self {
                AccountFormError::MissingStudentId => "请填写学号。"@,
                AccountFormError::MissingPassword => "请填写密码，或勾选“使用现有密码”。"@,
            },
    {
        match self {
            AccountFormError::MissingStudentId => "请填写学号。",
            AccountFormError::MissingPassword => "请填写密码，或勾选“使用现有密码”。",
        }
    }
}

/// The account form: a student ID is required; so is a password unless the
/// stored one is kept.
pub fn check_account_form(student_id: &str, password: &str, keep_existing: bool) -> (r: Result<(), AccountFormError>)
    ensures
        r == if crate::config::is_blank(student_id@) {
            Err(AccountFormError::MissingStudentId)
        } else if !keep_existing && password@.len() == 0 {
            Err(AccountFormError::MissingPassword)
        } else {
            Ok(())
        },
{
    if crate::config::blank(student_id) {
        Err(AccountFormError::MissingStudentId)
    } else if !keep_existing && password.unicode_len() == 0 {
        Err(AccountFormError::MissingPassword)
    } else {
        Ok(())
    }
}

/// The installation asked for by the account form: the trimmed student
/// ID, and the password unless the stored one is kept.
pub fn install_request(student_id: &str, password: &str, keep_existing: bool) -> (r: InstallRequest)
    ensures
        exists|a: int, b: int|
            crate::portal::is_trim(student_id@, a, b) && r.student_id@ == student_id@.subrange(a, b),
        keep_existing ==> r.password is None,
        !keep_existing ==> (r.password matches Some(p) && p@ == password@),
{
    let id = crate::portal::trim(student_id);
    InstallRequest {
        student_id: String::from_str(id),
        password: if keep_existing {
            None
        } else {
            Some(String::from_str(password))
        },
    }
}

/// The student ID on the card preview: trimmed, or a dash when blank.
pub fn card_id(student_id: &str) -> (r: String)
    ensures
        crate::config::is_blank(student_id@) ==> r@ == "—"@,
        !crate::config::is_blank(student_id@) ==> exists|a: int, b: int|
            crate::portal::is_trim(student_id@, a, b) && r@ == student_id@.subrange(a, b),
{
    if crate::config::blank(student_id) {
        String::from_str("—")
    } else {
        String::from_str(crate::portal::trim(student_id))
    }
}

/// A line of the receipt: a check mark for a finished step, an ellipsis
/// for one in progress.
pub fn receipt_line(label: &str, done: bool) -> (r: String)
    ensures
        r@ == (if done {
            "✓ "@
        } else {
            "… "@
        }) + label@,
{
    let mut r = if done {
        String::from_str("✓ ")
    } else {
        String::from_str("… ")
    };
    push_str(&mut r, label);
    r
}

/// Closing line of the receipt once the work has ended.
pub fn receipt_end(ok: bool) -> (r: &'static str)
    ensures
        r@ == if ok {
            "发卡完成"@
        } else {
            "发卡失败"@
        },
{
    if ok {
        "发卡完成"
    } else {
        "发卡失败"
    }
}

/// What the uninstall core did, row by row in the report order (service,
/// event source, entropy, autostart), and with the purge when asked.
pub struct UninstallReport {
    pub rows: Vec<(&'static str, StepOutcome)>,
    pub purge: Option<StepOutcome>,
}

/// An uninstall report as values: the rows, and the purge.
pub open spec fn report_view(r: UninstallReport) -> (Seq<(Seq<char>, StepOutcomeView)>, Option<StepOutcomeView>) {
    (
        r.rows@.map_values(|row: (&'static str, StepOutcome)| (row.0@, outcome_view(row.1))),
        match r.purge {
            Some(o) => Some(outcome_view(o)),
            None => None,
        },
    )
}

/// A call made on the uninstall work, with what it returned.
pub enum UninstallCall {
    StopService(Result<(), Seq<char>>),
    /// The core, whether it was asked to purge, and its report.
    UninstallCore(bool, Result<(Seq<(Seq<char>, StepOutcomeView)>, Option<StepOutcomeView>), Seq<char>>),
    ScheduleDirRemoval(Result<(), Seq<char>>),
}

/// The outside work of an uninstallation.
pub trait UninstallWork {
    /// The calls made on this work so far, oldest first. Work that keeps no
    /// record of them leaves this empty, and then does not meet the
    /// contracts below; the uninstallation's contract speaks of this record.
    closed spec fn calls(&self) -> Seq<UninstallCall> {
        Seq::empty()
    }

    /// Stops the service (and the tray).
    fn stop_service(&mut self) -> (r: Result<(), String>)
        ensures
            final(self).calls() == old(self).calls().push(UninstallCall::StopService(result_view(r))),
    ;

    /// Removes the service and its traces; `purge` also deletes the
    /// configuration and the logs.
    fn uninstall_core(&mut self, purge: bool) -> (r: Result<UninstallReport, String>)
        ensures
            final(self).calls() == old(self).calls().push(
                UninstallCall::UninstallCore(
                    purge,
                    match r {
                        Ok(rep) => Ok(report_view(rep)),
                        Err(e) => Err(e@),
                    },
                ),
            ),
    ;

    /// Schedules the removal of the install directory.
    fn schedule_dir_removal(&mut self) -> (r: Result<(), String>)
        ensures
            final(self).calls() == old(self).calls().push(UninstallCall::ScheduleDirRemoval(result_view(r))),
    ;
}

/// End of an uninstallation.
pub struct UninstallOutcome {
    pub result: Result<(), String>,
    /// Whether the service was stopped.
    pub stopped: bool,
    /// Whether the core ran to its report.
    pub core_done: bool,
    /// Whether the directory removal was scheduled.
    pub dir_removal_scheduled: bool,
}

/// The end event of an uninstallation (there is never a rollback).
pub open spec fn uninstall_done(result: Result<(), Seq<char>>) -> EventView {
    EventView::Done { result, rollback: RollbackView::NotNeeded }
}

/// The rows of a report as events, then the purge when there is one.
pub open spec fn report_events(rep: (Seq<(Seq<char>, StepOutcomeView)>, Option<StepOutcomeView>)) -> Seq<EventView> {
    rep.0.map_values(
        |row: (Seq<char>, StepOutcomeView)|
            EventView::StepFinished { key: row.0, label: spec_label_zh(row.0), outcome: row.1 },
    ) + match rep.1 {
        Some(o) => seq![EventView::StepFinished { key: STEP_UNINSTALL_PURGE@, label: "删除配置与日志"@, outcome: o }],
        None => Seq::empty(),
    }
}

/// What an uninstallation does, given what the stop, the core and the
/// directory removal returned (each used only where it is reached): the
/// calls on the work, the events, and the outcome (result, stopped, core
/// done, removal scheduled).
pub open spec fn uninstall_run(
    purge: bool,
    remove_dir: bool,
    stop: Result<(), Seq<char>>,
    core: Result<(Seq<(Seq<char>, StepOutcomeView)>, Option<StepOutcomeView>), Seq<char>>,
    sched: Result<(), Seq<char>>,
) -> (Seq<UninstallCall>, Seq<EventView>, (Result<(), Seq<char>>, bool, bool, bool)) {
    let stop_key = STEP_UNINSTALL_STOP_SERVICE@;
    let stop_label = "停止服务"@;
    let dir_key = STEP_UNINSTALL_REMOVE_DIR@;
    let dir_label = "移除安装目录"@;
    match stop {
        Err(e) => (
            seq![UninstallCall::StopService(stop)],
            seq![EventView::Step { key: stop_key, label: stop_label }, uninstall_done(Err(e))],
            (Err(e), false, false, false),
        ),
        Ok(()) => {
            let head = seq![
                EventView::Step { key: stop_key, label: stop_label },
                EventView::StepDone { key: stop_key, label: stop_label },
            ];
            let called = seq![UninstallCall::StopService(stop), UninstallCall::UninstallCore(purge, core)];
            match core {
                Err(e) => (called, head + seq![uninstall_done(Err(e))], (Err(e), true, false, false)),
                Ok(rep) => if !remove_dir {
                    (called, head + report_events(rep) + seq![uninstall_done(Ok(()))], (Ok(()), true, true, false))
                } else {
                    let ask = seq![EventView::Step { key: dir_key, label: dir_label }];
                    let all_calls = called.push(UninstallCall::ScheduleDirRemoval(sched));
                    match sched {
                        Err(e) => (
                            all_calls,
                            head + report_events(rep) + ask + seq![uninstall_done(Err(e))],
                            (Err(e), true, true, false),
                        ),
                        Ok(()) => (
                            all_calls,
                            head + report_events(rep) + ask + seq![
                                EventView::StepDone { key: dir_key, label: dir_label },
                                uninstall_done(Ok(())),
                            ],
                            (Ok(()), true, true, true),
                        ),
                    }
                },
            }
        },
    }
}

/// A copy of a step outcome.
fn copy_outcome(o: &StepOutcome) -> (c: StepOutcome)
    ensures
        outcome_view(c) == outcome_view(*o),
{
    match o {
        StepOutcome::Done => StepOutcome::Done,
        StepOutcome::Skipped => StepOutcome::Skipped,
        StepOutcome::Failed(e) => StepOutcome::Failed(e.clone()),
    }
}

/// Uninstalls: stops the service, runs the core and reports each row of
/// its report (and the purge), then schedules the directory removal when
/// asked. There is no rollback: the first failure ends the run, and it can
/// be retried as it is. The calls, the events and the outcome are those of
/// `uninstall_run` for what the work returned.
pub fn run_uninstall<W: UninstallWork, R: InstallReporter>(purge: bool, remove_dir: bool, work: &mut W, reporter: &mut R) -> (r: UninstallOutcome)
    ensures
        r.core_done ==> r.stopped,
        r.dir_removal_scheduled ==> r.core_done && remove_dir,
        r.result is Ok <==> (r.core_done && (r.dir_removal_scheduled || !remove_dir)),
        exists|stop: Result<(), Seq<char>>, core: Result<(Seq<(Seq<char>, StepOutcomeView)>, Option<StepOutcomeView>), Seq<char>>, sched: Result<(), Seq<char>>|
            #![trigger uninstall_run(purge, remove_dir, stop, core, sched)]
            {
                let run = uninstall_run(purge, remove_dir, stop, core, sched);
                &&& final(work).calls() == old(work).calls() + run.0
                &&& final(reporter).reported() == old(reporter).reported() + run.1
                &&& (result_view(r.result), r.stopped, r.core_done, r.dir_removal_scheduled) == run.2
            },
{
    let stop_label = "停止服务";
    reporter.report(InstallEvent::Step { key: STEP_UNINSTALL_STOP_SERVICE, label: String::from_str(stop_label) });
    match work.stop_service() {
        Ok(()) => {},
        Err(e) => {
            let ghost run = uninstall_run(purge, remove_dir, Err(e@), Err(Seq::empty()), Ok(()));
            let out = end_uninstall(reporter, Err(e), false, false, false);
            assert(work.calls() =~= old(work).calls() + run.0);
            assert(reporter.reported() =~= old(reporter).reported() + run.1);
            return out;
        },
    }
    reporter.report(InstallEvent::StepDone { key: STEP_UNINSTALL_STOP_SERVICE, label: String::from_str(stop_label) });
    let report = match work.uninstall_core(purge) {
        Ok(rep) => rep,
        Err(e) => {
            let ghost run = uninstall_run(purge, remove_dir, Ok(()), Err(e@), Ok(()));
            let out = end_uninstall(reporter, Err(e), true, false, false);
            assert(work.calls() =~= old(work).calls() + run.0);
            assert(reporter.reported() =~= old(reporter).reported() + run.1);
            return out;
        },
    };
    let ghost rep = report_view(report);
    let ghost rows_ev = rep.0.map_values(
        |row: (Seq<char>, StepOutcomeView)|
            EventView::StepFinished { key: row.0, label: spec_label_zh(row.0), outcome: row.1 },
    );
    let ghost head = reporter.reported();
    let mut i: usize = 0;
    while i < report.rows.len()
        invariant
            i <= report.rows@.len(),
            rep == report_view(report),
            rows_ev == rep.0.map_values(
                |row: (Seq<char>, StepOutcomeView)|
                    EventView::StepFinished { key: row.0, label: spec_label_zh(row.0), outcome: row.1 },
            ),
            reporter.reported() == head + rows_ev.take(i as int),
        decreases report.rows.len() - i,
    {
        let key = report.rows[i].0;
        let outcome = copy_outcome(&report.rows[i].1);
        reporter.report(InstallEvent::StepFinished { key, label: String::from_str(label_zh(key)), outcome });
        assert(rows_ev.take(i + 1) =~= rows_ev.take(i as int).push(rows_ev[i as int]));
        assert(reporter.reported() =~= head + rows_ev.take(i + 1));
        i = i + 1;
    }
    assert(rows_ev.take(rows_ev.len() as int) =~= rows_ev);
    match &report.purge {
        Some(outcome) => {
            reporter.report(InstallEvent::StepFinished {
                key: STEP_UNINSTALL_PURGE,
                label: String::from_str("删除配置与日志"),
                outcome: copy_outcome(outcome),
            });
        },
        None => {},
    }
    assert(reporter.reported() =~= head + report_events(rep));
    if remove_dir {
        let label = "移除安装目录";
        reporter.report(InstallEvent::Step { key: STEP_UNINSTALL_REMOVE_DIR, label: String::from_str(label) });
        match work.schedule_dir_removal() {
            Ok(()) => {},
            Err(e) => {
                let ghost run = uninstall_run(purge, remove_dir, Ok(()), Ok(rep), Err(e@));
                let out = end_uninstall(reporter, Err(e), true, true, false);
                assert(work.calls() =~= old(work).calls() + run.0);
                assert(reporter.reported() =~= old(reporter).reported() + run.1);
                return out;
            },
        }
        reporter.report(InstallEvent::StepDone { key: STEP_UNINSTALL_REMOVE_DIR, label: String::from_str(label) });
        let ghost run = uninstall_run(purge, remove_dir, Ok(()), Ok(rep), Ok(()));
        let out = end_uninstall(reporter, Ok(()), true, true, true);
        assert(work.calls() =~= old(work).calls() + run.0);
        assert(reporter.reported() =~= old(reporter).reported() + run.1);
        out
    } else {
        let ghost run = uninstall_run(purge, remove_dir, Ok(()), Ok(rep), Ok(()));
        let out = end_uninstall(reporter, Ok(()), true, true, false);
        assert(work.calls() =~= old(work).calls() + run.0);
        assert(reporter.reported() =~= old(reporter).reported() + run.1);
        out
    }
}

fn end_uninstall<R: InstallReporter>(reporter: &mut R, result: Result<(), String>, stopped: bool, core_done: bool, scheduled: bool) -> (r: UninstallOutcome)
    ensures
        final(reporter).reported() == old(reporter).reported().push(uninstall_done(result_view(result))),
        r.result == result,
        r.stopped == stopped,
        r.core_done == core_done,
        r.dir_removal_scheduled == scheduled,
{
    let reported = match &result {
        Ok(()) => Ok(()),
        Err(e) => Err(e.clone()),
    };
    reporter.report(InstallEvent::Done { result: reported, rollback: RollbackOutcome::NotNeeded });
    UninstallOutcome { result, stopped, core_done, dir_removal_scheduled: scheduled }
}

} // verus!
