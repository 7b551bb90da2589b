//! Supervision of one launch: the steps from a loaded configuration to a running child
//! process, and what is reported when the launch fails.
//!
//! Nothing here starts a process or writes a line. [`Orchestrator::step`] decides; the
//! caller carries out the action it returns and comes back with the next event.

use vstd::prelude::*;
use vstd::string::*;
use crate::allow_list::{AllowList, FlagView};
use crate::sanitizer::{has_metacharacter, lemma_sanitized_harmless, sanitize, sanitized};
use crate::synthesizer::{
    build_arguments, build_command, command_arguments, command_text, fields_harmless,
    lemma_command_harmless, vnc_display, ConfigError, ConfigView, HypervisorConfig,
    VNC_BASE_PORT,
};
use crate::text::{decimal, decimal_string, texts};
use crate::validator::{valid_args, validate};

verus! {

/// Exit status of the orchestrating program after a failure of any kind.
pub const FAILURE_EXIT_CODE: i32 = 1;

/// Where one launch stands. `Succeeded` and `Failed` are final.
#[derive(Clone, Copy, PartialEq, Eq, Debug, Structural)]
pub enum LaunchState {
    Idle,
    Validating,
    Sanitizing,
    Synthesizing,
    Running,
    Succeeded,
    Failed,
}

/// How the child process ended.
#[derive(Clone, Debug, PartialEq, Eq)]
pub enum LaunchOutcome {
    /// It exited with status zero.
    Success,
    /// It exited otherwise; `status` is `None` where it gave no exit status.
    Failure { stderr: String, status: Option<i32> },
}

/// The mathematical content of a [`LaunchOutcome`].
pub enum OutcomeView {
    Success,
    Failure { stderr: Seq<char>, status: Option<i32> },
}

impl View for LaunchOutcome {
    type V = OutcomeView;

    open spec fn view(&self) -> OutcomeView {
        match self {
            LaunchOutcome::Success => OutcomeView::Success,
            LaunchOutcome::Failure { stderr, status } => OutcomeView::Failure {
                stderr: stderr@,
                status: *status,
            },
        }
    }
}

impl LaunchOutcome {
    /// The outcome of a child that ended with `status`, `None` where it gave none, and
    /// wrote `stderr` to its standard error. Only status zero is a success.
    pub fn from_exit(status: Option<i32>, stderr: String) -> (r: LaunchOutcome)
        ensures
            status == Some(0i32) ==> r@ == OutcomeView::Success,
            status != Some(0i32) ==> r@ == (OutcomeView::Failure { stderr: stderr@, status }),
    {
        match status {
            Some(0) => LaunchOutcome::Success,
            _ => LaunchOutcome::Failure { stderr, status },
        }
    }
}

/// One line of a report, for standard output or for standard error.
#[derive(Clone, Debug, PartialEq, Eq)]
pub struct LogLine {
    pub to_stderr: bool,
    pub text: String,
}

/// The mathematical content of a [`LogLine`].
pub struct LogLineView {
    pub to_stderr: bool,
    pub text: Seq<char>,
}

impl View for LogLine {
    type V = LogLineView;

    open spec fn view(&self) -> LogLineView {
        LogLineView { to_stderr: self.to_stderr, text: self.text@ }
    }
}

/// What is to be done about a failure: the lines to write, in order, the command that
/// shows the error dialog, if one is to be shown, and the status to exit with.
#[derive(Clone, Debug, PartialEq, Eq)]
pub struct FailureReport {
    pub lines: Vec<LogLine>,
    pub notifier_command: Option<String>,
    pub exit_code: i32,
}

/// The mathematical content of a [`FailureReport`].
pub struct ReportView {
    pub lines: Seq<LogLineView>,
    pub notifier_command: Option<Seq<char>>,
    pub exit_code: i32,
}

impl View for FailureReport {
    type V = ReportView;

    open spec fn view(&self) -> ReportView {
        ReportView {
            lines: Seq::new(self.lines@.len(), |i: int| self.lines@[i]@),
            notifier_command: match self.notifier_command {
                Some(command) => Some(command@),
                None => None,
            },
            exit_code: self.exit_code,
        }
    }
}

/// The line that names the captured error text.
pub open spec fn error_line(stderr: Seq<char>) -> Seq<char> {
    "[QEMU] Error: "@ + stderr
}

/// The shell command that shows the error dialog with the captured error text in it.
pub open spec fn notifier_command(stderr: Seq<char>) -> Seq<char> {
    "zenity --error --title=\"Whoopsie...\" --text=\"We've encountered into an error...\n"@
        + stderr
        + "\nFor additional information, view what happened in the logs.\" --ok-label=\"Exit from UltiVM\""@
}

/// The report on a child that failed with `stderr` on its standard error: the error text
/// goes to both streams as it is, and the dialog is asked for.
pub open spec fn launch_failure(stderr: Seq<char>) -> ReportView {
    ReportView {
        lines: seq![
            LogLineView {
                to_stderr: false,
                text: "[QEMU] Trying to show error dialog using 'zenity'..."@,
            },
            LogLineView { to_stderr: false, text: error_line(stderr) },
            LogLineView { to_stderr: true, text: error_line(stderr) },
        ],
        notifier_command: Some(notifier_command(stderr)),
        exit_code: FAILURE_EXIT_CODE,
    }
}

/// The report on an argument string that did not pass validation. Nothing is launched, and
/// the run ends with the same status as after a failed launch.
pub open spec fn rejection() -> ReportView {
    ReportView {
        lines: seq![
            LogLineView {
                to_stderr: false,
                text: "E: Parsing failed! Please check the QEMU (quick emulator) arguments."@,
            },
        ],
        notifier_command: None,
        exit_code: FAILURE_EXIT_CODE,
    }
}

/// What is wrong with a configuration, in words.
pub open spec fn config_error_text(error: ConfigError) -> Seq<char> {
    match error {
        ConfigError::VncPortBelowBase => "the VNC port lies below 5900"@,
    }
}

/// The report on a configuration that cannot be launched. The run ends before the
/// arguments are looked at.
pub open spec fn config_failure(error: ConfigError) -> ReportView {
    ReportView {
        lines: seq![
            LogLineView {
                to_stderr: true,
                text: "Failed to load configuration: "@ + config_error_text(error),
            },
        ],
        notifier_command: None,
        exit_code: FAILURE_EXIT_CODE,
    }
}

fn line(to_stderr: bool, text: String) -> (r: LogLine)
    ensures
        r@ == (LogLineView { to_stderr, text: text@ }),
{
    LogLine { to_stderr, text }
}

fn error_line_of(stderr: &str) -> (r: String)
    ensures
        r@ == error_line(stderr@),
{
    let mut text = String::from_str("[QEMU] Error: ");
    text.append(stderr);
    text
}

/// Builds [`launch_failure`].
pub fn report_launch_failure(stderr: &str) -> (r: FailureReport)
    ensures
        r@ == launch_failure(stderr@),
{
    let mut lines: Vec<LogLine> = Vec::new();
    lines.push(
        line(false, String::from_str("[QEMU] Trying to show error dialog using 'zenity'...")),
    );
    lines.push(line(false, error_line_of(stderr)));
    lines.push(line(true, error_line_of(stderr)));
    let mut command = String::from_str(
        "zenity --error --title=\"Whoopsie...\" --text=\"We've encountered into an error...\n",
    );
    command.append(stderr);
    command.append(
        "\nFor additional information, view what happened in the logs.\" --ok-label=\"Exit from UltiVM\"",
    );
    let r = FailureReport {
        lines,
        notifier_command: Some(command),
        exit_code: FAILURE_EXIT_CODE,
    };
    assert(r@.lines =~= launch_failure(stderr@).lines);
    r
}

/// Builds [`rejection`].
pub fn report_rejection() -> (r: FailureReport)
    ensures
        r@ == rejection(),
{
    let mut lines: Vec<LogLine> = Vec::new();
    lines.push(
        line(
            false,
            String::from_str(
                "E: Parsing failed! Please check the QEMU (quick emulator) arguments.",
            ),
        ),
    );
    let r = FailureReport { lines, notifier_command: None, exit_code: FAILURE_EXIT_CODE };
    assert(r@.lines =~= rejection().lines);
    r
}

/// Builds [`config_failure`].
pub fn report_config_failure(error: ConfigError) -> (r: FailureReport)
    ensures
        r@ == config_failure(error),
{
    let mut text = String::from_str("Failed to load configuration: ");
    match error {
        ConfigError::VncPortBelowBase => text.append("the VNC port lies below 5900"),
    }
    let mut lines: Vec<LogLine> = Vec::new();
    lines.push(line(true, text));
    let r = FailureReport { lines, notifier_command: None, exit_code: FAILURE_EXIT_CODE };
    assert(r@.lines =~= config_failure(error).lines);
    r
}

/// The report on an error dialog that could not be shown for the reason `reason`. This is
/// a second failure beside the one in `primary` and does not mask it: one more line goes to
/// standard error, no further dialog is tried, and the exit status stays that of `primary`.
pub open spec fn notifier_failure(primary: ReportView, reason: Seq<char>) -> ReportView {
    ReportView {
        lines: seq![
            LogLineView {
                to_stderr: true,
                text: "[QEMU] Could not show the error dialog: "@ + reason,
            },
        ],
        notifier_command: None,
        exit_code: primary.exit_code,
    }
}

/// Builds [`notifier_failure`].
pub fn report_notifier_failure(primary: &FailureReport, reason: &str) -> (r: FailureReport)
    ensures
        r@ == notifier_failure(primary@, reason@),
{
    let mut text = String::from_str("[QEMU] Could not show the error dialog: ");
    text.append(reason);
    let mut lines: Vec<LogLine> = Vec::new();
    lines.push(line(true, text));
    let r = FailureReport { lines, notifier_command: None, exit_code: primary.exit_code };
    assert(r@.lines =~= notifier_failure(primary@, reason@).lines);
    r
}

/// What the caller tells the orchestrator.
#[derive(Clone, Debug, PartialEq, Eq)]
pub enum Event {
    /// The last action is done and asked for nothing to come back.
    Advance,
    /// The child process has exited.
    Exited(LaunchOutcome),
}

/// The mathematical content of an [`Event`].
pub enum EventView {
    Advance,
    Exited(OutcomeView),
}

impl View for Event {
    type V = EventView;

    open spec fn view(&self) -> EventView {
        match self {
            Event::Advance => EventView::Advance,
            Event::Exited(outcome) => EventView::Exited(outcome@),
        }
    }
}

/// What the orchestrator asks of the caller.
#[derive(Clone, Debug, PartialEq, Eq)]
pub enum Action {
    /// Nothing to do outside: come back with [`Event::Advance`].
    Continue,
    /// Write `notice`, start the hypervisor, wait for it to exit and come back with
    /// [`Event::Exited`]. `command` is the invocation as one line, for a shell; `arguments`
    /// is the same invocation as discrete arguments, the program first, for a caller that
    /// starts it without a shell.
    Execute { notice: String, command: String, arguments: Vec<String> },
    /// The launch has succeeded. Nothing more is to be done.
    Finish,
    /// The launch has failed: carry out the report and exit with its status.
    Abort(FailureReport),
    /// The event does not apply in this state and was passed over.
    Ignore,
}

/// The mathematical content of an [`Action`].
pub enum ActionView {
    Continue,
    Execute { notice: Seq<char>, command: Seq<char>, arguments: Seq<Seq<char>> },
    Finish,
    Abort(ReportView),
    Ignore,
}

impl View for Action {
    type V = ActionView;

    open spec fn view(&self) -> ActionView {
        match self {
            Action::Continue => ActionView::Continue,
            Action::Execute { notice, command, arguments } => ActionView::Execute {
                notice: notice@,
                command: command@,
                arguments: texts(arguments@),
            },
            Action::Finish => ActionView::Finish,
            Action::Abort(report) => ActionView::Abort(report@),
            Action::Ignore => ActionView::Ignore,
        }
    }
}

/// The line written before the child is started.
pub open spec fn start_notice(vnc_port: u16) -> Seq<char> {
    "[QEMU] Starting virtual machine with VNC on port "@ + decimal(vnc_port as nat) + "..."@
}

/// The state that follows `state` on `event`. A launch moves forward only: through
/// validation, sanitizing and synthesis to the running child, and from there to one of the
/// two final states. Any step may end in `Failed` instead; no state leads back.
pub open spec fn next_state(
    state: LaunchState,
    config: ConfigView,
    flags: Seq<FlagView>,
    event: EventView,
) -> LaunchState {
    match (state, event) {
        (LaunchState::Idle, EventView::Advance) => if config.vnc_port >= VNC_BASE_PORT {
            LaunchState::Validating
        } else {
            LaunchState::Failed
        },
        (LaunchState::Validating, EventView::Advance) => if valid_args(flags, config.qemu_args) {
            LaunchState::Sanitizing
        } else {
            LaunchState::Failed
        },
        (LaunchState::Sanitizing, EventView::Advance) => LaunchState::Synthesizing,
        (LaunchState::Synthesizing, EventView::Advance) => LaunchState::Running,
        (LaunchState::Running, EventView::Exited(OutcomeView::Success)) => LaunchState::Succeeded,
        (LaunchState::Running, EventView::Exited(OutcomeView::Failure { .. })) => LaunchState::Failed,
        _ => state,
    }
}

/// The action that goes with the step from `state` on `event`.
pub open spec fn action_for(
    state: LaunchState,
    config: ConfigView,
    flags: Seq<FlagView>,
    event: EventView,
) -> ActionView {
    match (state, event) {
        (LaunchState::Idle, EventView::Advance) => if config.vnc_port >= VNC_BASE_PORT {
            ActionView::Continue
        } else {
            ActionView::Abort(config_failure(ConfigError::VncPortBelowBase))
        },
        (LaunchState::Validating, EventView::Advance) => if valid_args(flags, config.qemu_args) {
            ActionView::Continue
        } else {
            ActionView::Abort(rejection())
        },
        (LaunchState::Sanitizing, EventView::Advance) => ActionView::Continue,
        (LaunchState::Synthesizing, EventView::Advance) => ActionView::Execute {
            notice: start_notice(config.vnc_port),
            command: command_text(config, sanitized(config.qemu_args)),
            arguments: command_arguments(config, sanitized(config.qemu_args)),
        },
        (LaunchState::Running, EventView::Exited(OutcomeView::Success)) => ActionView::Finish,
        (LaunchState::Running, EventView::Exited(OutcomeView::Failure { stderr, .. })) => {
            ActionView::Abort(launch_failure(stderr))
        },
        _ => ActionView::Ignore,
    }
}

/// One launch of the hypervisor, from the loaded configuration to the end of the child
/// process. An orchestrator performs one launch and no second one.
pub struct Orchestrator {
    state: LaunchState,
    config: HypervisorConfig,
    allow_list: AllowList,
    tail: String,
}

impl Orchestrator {
    /// Where the launch stands.
    pub closed spec fn state(&self) -> LaunchState {
        self.state
    }

    /// The configuration that is launched.
    pub closed spec fn config(&self) -> ConfigView {
        self.config@
    }

    /// The entries of the allow-list that the arguments are held against.
    pub closed spec fn flags(&self) -> Seq<FlagView> {
        self.allow_list@
    }

    /// What each state has behind it: from `Validating` on the VNC port names a display,
    /// from `Sanitizing` on the arguments have passed validation, and from `Synthesizing`
    /// on their sanitized form is at hand.
    #[verifier::type_invariant]
    closed spec fn checked(&self) -> bool {
        &&& self.state != LaunchState::Idle && self.state != LaunchState::Failed
            ==> self.config.vnc_port >= VNC_BASE_PORT
        &&& self.state == LaunchState::Sanitizing || self.state == LaunchState::Synthesizing
            || self.state == LaunchState::Running || self.state == LaunchState::Succeeded
            ==> valid_args(self.allow_list@, self.config.qemu_args@)
        &&& self.state == LaunchState::Synthesizing || self.state == LaunchState::Running
            || self.state == LaunchState::Succeeded ==> self.tail@ == sanitized(
            self.config.qemu_args@,
        )
    }

    /// An orchestrator for `config`, with nothing done yet.
    pub fn new(config: HypervisorConfig, allow_list: AllowList) -> (r: Orchestrator)
        ensures
            r.state() == LaunchState::Idle,
            r.config() == config@,
            r.flags() == allow_list@,
    {
        Orchestrator { state: LaunchState::Idle, config, allow_list, tail: String::new() }
    }

    /// Reads the state.
    pub fn current_state(&self) -> (r: LaunchState)
        ensures
            r == self.state(),
    {
        self.state
    }

    /// Takes one step: moves to the state that follows on `event` and returns what the
    /// caller is to do. A command is handed out for execution only once the arguments
    /// have passed validation and have been sanitized, and the VNC port names a display.
    pub fn step(&mut self, event: Event) -> (action: Action)
        ensures
            final(self).state() == next_state(
                old(self).state(),
                old(self).config(),
                old(self).flags(),
                event@,
            ),
            final(self).config() == old(self).config(),
            final(self).flags() == old(self).flags(),
            action@ == action_for(old(self).state(), old(self).config(), old(self).flags(), event@),
            action is Execute ==> old(self).config().vnc_port >= VNC_BASE_PORT && valid_args(
                old(self).flags(),
                old(self).config().qemu_args,
            ),
    {
        proof {
            use_type_invariant(&*self);
        }
        match event {
            Event::Advance => match self.state {
                LaunchState::Idle => match vnc_display(self.config.vnc_port) {
                    Ok(_) => {
                        self.state = LaunchState::Validating;
                        Action::Continue
                    },
                    Err(error) => {
                        self.state = LaunchState::Failed;
                        Action::Abort(report_config_failure(error))
                    },
                },
                LaunchState::Validating => {
                    if validate(self.config.qemu_args.as_str(), &self.allow_list) {
                        self.state = LaunchState::Sanitizing;
                        Action::Continue
                    } else {
                        self.state = LaunchState::Failed;
                        Action::Abort(report_rejection())
                    }
                },
                LaunchState::Sanitizing => {
                    self.tail = sanitize(self.config.qemu_args.as_str());
                    self.state = LaunchState::Synthesizing;
                    Action::Continue
                },
                LaunchState::Synthesizing => {
                    let display: u16 = self.config.vnc_port - VNC_BASE_PORT;
                    let command = build_command(&self.config, display, self.tail.as_str());
                    let arguments = build_arguments(&self.config, display, self.tail.as_str());
                    let mut notice = String::from_str(
                        "[QEMU] Starting virtual machine with VNC on port ",
                    );
                    notice.append(decimal_string(self.config.vnc_port as u32).as_str());
                    notice.append("...");
                    self.state = LaunchState::Running;
                    Action::Execute { notice, command, arguments }
                },
                _ => Action::Ignore,
            },
            Event::Exited(outcome) => match self.state {
                LaunchState::Running => match outcome {
                    LaunchOutcome::Success => {
                        self.state = LaunchState::Succeeded;
                        Action::Finish
                    },
                    LaunchOutcome::Failure { stderr, status } => {
                        self.state = LaunchState::Failed;
                        Action::Abort(report_launch_failure(stderr.as_str()))
                    },
                },
                _ => Action::Ignore,
            },
        }
    }
}

/// How far a launch has come. Both final states stand at the end.
pub open spec fn progress(state: LaunchState) -> nat {
    match state {
        LaunchState::Idle => 0,
        LaunchState::Validating => 1,
        LaunchState::Sanitizing => 2,
        LaunchState::Synthesizing => 3,
        LaunchState::Running => 4,
        LaunchState::Succeeded => 5,
        LaunchState::Failed => 5,
    }
}

/// The number of times a command is handed out for execution when the events `events`
/// arrive one after the other, starting in `state`.
pub open spec fn launches(
    state: LaunchState,
    config: ConfigView,
    flags: Seq<FlagView>,
    events: Seq<EventView>,
) -> nat
    decreases events.len(),
{
    if events.len() == 0 {
        0
    } else {
        let rest = launches(
            next_state(state, config, flags, events[0]),
            config,
            flags,
            events.drop_first(),
        );
        if action_for(state, config, flags, events[0]) is Execute {
            1 + rest
        } else {
            rest
        }
    }
}

/// A launch never moves backwards. In particular no state leads back to `Idle`.
pub proof fn lemma_no_way_back(
    state: LaunchState,
    config: ConfigView,
    flags: Seq<FlagView>,
    event: EventView,
)
    ensures
        progress(next_state(state, config, flags, event)) >= progress(state),
        state != LaunchState::Idle ==> next_state(state, config, flags, event)
            != LaunchState::Idle,
{
}

/// The two final states are final: every event is passed over and changes nothing.
pub proof fn lemma_final_states_absorb(
    state: LaunchState,
    config: ConfigView,
    flags: Seq<FlagView>,
    event: EventView,
)
    requires
        state == LaunchState::Succeeded || state == LaunchState::Failed,
    ensures
        next_state(state, config, flags, event) == state,
        action_for(state, config, flags, event) == ActionView::Ignore,
{
}

/// A failure is reported with a status other than zero, whatever failed.
pub proof fn lemma_abort_exits_nonzero(
    state: LaunchState,
    config: ConfigView,
    flags: Seq<FlagView>,
    event: EventView,
)
    ensures
        action_for(state, config, flags, event) matches ActionView::Abort(report)
            ==> report.exit_code != 0 && next_state(state, config, flags, event)
            == LaunchState::Failed,
{
}

/// Whatever events arrive, a command is handed out for execution at most once, and never
/// again once the child is running or the launch has ended.
pub proof fn lemma_at_most_one_launch(
    state: LaunchState,
    config: ConfigView,
    flags: Seq<FlagView>,
    events: Seq<EventView>,
)
    ensures
        launches(state, config, flags, events) <= 1,
        progress(state) >= progress(LaunchState::Running) ==> launches(
            state,
            config,
            flags,
            events,
        ) == 0,
    decreases events.len(),
{
    if events.len() > 0 {
        lemma_at_most_one_launch(
            next_state(state, config, flags, events[0]),
            config,
            flags,
            events.drop_first(),
        );
    }
}

/// A command that is handed out for execution holds no shell metacharacter, provided the
/// configured fields hold none: the arguments reach it in their sanitized form only.
pub proof fn lemma_launched_command_harmless(
    state: LaunchState,
    config: ConfigView,
    flags: Seq<FlagView>,
    event: EventView,
)
    requires
        fields_harmless(config),
    ensures
        action_for(state, config, flags, event) matches ActionView::Execute { command, .. }
            ==> !has_metacharacter(command),
{
    lemma_sanitized_harmless(config.qemu_args);
    lemma_command_harmless(config, sanitized(config.qemu_args));
}

} // verus!
