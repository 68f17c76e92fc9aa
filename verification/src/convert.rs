//! The conversion state machine.
//!
//! A conversion run is a fixed sequence of filesystem and codec steps with a
//! decision after each one. The machine below owns every decision: it tells
//! the driver what to do next (`action`), the driver performs that one step
//! and reports what happened (`step`), and the machine moves on or fails with
//! the exact message for that step. The driver performs no step the machine
//! did not ask for, so everything the conversion decides is verified here.

use vstd::prelude::*;
use vstd::string::StrSliceExecFns;
use vstd::string::StringExecFns;

use crate::paths::is_absolute;
use crate::paths::is_absolute_spec;
use crate::paths::join_spec;
use crate::paths::parent_dir;
use crate::paths::parent_spec;

verus! {

/// What the driver is asked to do next.
///
/// `CanonicalizeInput` and `CanonicalizeOutput` ask for the canonical form of
/// the input or output path, `CurrentDir` for the working directory (both may
/// fail, reported through the matching event), `CreateDirAll` for recursive
/// creation of the carried directory, `OpenOutput` for opening the output
/// with create-and-truncate semantics, and `Finish` carries the final status:
/// zero for success, one for failure.
pub enum Action {
    StatInput,
    CheckOutputExists,
    CanonicalizeInput,
    CanonicalizeOutput,
    CurrentDir,
    CreateDirAll(String),
    OpenInput,
    ValidateSource,
    Mount,
    OpenOutput,
    Build,
    Flush,
    Finish(i32),
}

/// What the driver reports back after performing an action.
///
/// `Stat` answers `StatInput`, `OutputExists` answers `CheckOutputExists`,
/// `Canonical` and `Cwd` answer the path-resolution actions (`None` when the
/// query failed), and `Outcome` answers every remaining step with plain
/// success or failure.
pub enum Event {
    Stat { found: bool, is_file: bool },
    OutputExists(bool),
    Canonical(Option<String>),
    Cwd(Option<String>),
    Outcome(bool),
}

/// Where a conversion stands.
pub enum Phase {
    CheckInput,
    CheckCollision,
    ResolveInput,
    ResolveInputCwd,
    ResolveOutput { in_abs: String },
    ResolveOutputCwd { in_abs: String },
    PrepareDirs,
    OpenInput,
    ValidateSource,
    Mount,
    OpenOutput,
    Build,
    Flush,
    Done,
    Failed { message: String },
}

/// One conversion run: the two paths it was asked to convert between, and
/// where it stands.
pub struct Converter {
    pub input: String,
    pub output: String,
    pub phase: Phase,
}

/// Mathematical image of `Action`.
pub enum ActionView {
    StatInput,
    CheckOutputExists,
    CanonicalizeInput,
    CanonicalizeOutput,
    CurrentDir,
    CreateDirAll(Seq<char>),
    OpenInput,
    ValidateSource,
    Mount,
    OpenOutput,
    Build,
    Flush,
    Finish(i32),
}

/// Mathematical image of `Event`.
pub enum EventView {
    Stat { found: bool, is_file: bool },
    OutputExists(bool),
    Canonical(Option<Seq<char>>),
    Cwd(Option<Seq<char>>),
    Outcome(bool),
}

/// Mathematical image of `Phase`.
pub enum PhaseView {
    CheckInput,
    CheckCollision,
    ResolveInput,
    ResolveInputCwd,
    ResolveOutput { in_abs: Seq<char> },
    ResolveOutputCwd { in_abs: Seq<char> },
    PrepareDirs,
    OpenInput,
    ValidateSource,
    Mount,
    OpenOutput,
    Build,
    Flush,
    Done,
    Failed { message: Seq<char> },
}

/// Mathematical image of `Converter`.
pub struct ConverterView {
    pub input: Seq<char>,
    pub output: Seq<char>,
    pub phase: PhaseView,
}

impl View for Action {
    type V = ActionView;

    open spec fn view(&self) -> ActionView {
        match self {
            Action::StatInput => ActionView::StatInput,
            Action::CheckOutputExists => ActionView::CheckOutputExists,
            Action::CanonicalizeInput => ActionView::CanonicalizeInput,
            Action::CanonicalizeOutput => ActionView::CanonicalizeOutput,
            Action::CurrentDir => ActionView::CurrentDir,
            Action::CreateDirAll(d) => ActionView::CreateDirAll(d@),
            Action::OpenInput => ActionView::OpenInput,
            Action::ValidateSource => ActionView::ValidateSource,
            Action::Mount => ActionView::Mount,
            Action::OpenOutput => ActionView::OpenOutput,
            Action::Build => ActionView::Build,
            Action::Flush => ActionView::Flush,
            Action::Finish(s) => ActionView::Finish(*s),
        }
    }
}

impl View for Event {
    type V = EventView;

    open spec fn view(&self) -> EventView {
        match self {
            Event::Stat { found, is_file } => EventView::Stat {
                found: *found,
                is_file: *is_file,
            },
            Event::OutputExists(b) => EventView::OutputExists(*b),
            Event::Canonical(o) => EventView::Canonical(
                match o {
                    Some(s) => Some(s@),
                    None => None,
                },
            ),
            Event::Cwd(o) => EventView::Cwd(
                match o {
                    Some(s) => Some(s@),
                    None => None,
                },
            ),
            Event::Outcome(b) => EventView::Outcome(*b),
        }
    }
}

impl View for Phase {
    type V = PhaseView;

    open spec fn view(&self) -> PhaseView {
        match self {
            Phase::CheckInput => PhaseView::CheckInput,
            Phase::CheckCollision => PhaseView::CheckCollision,
            Phase::ResolveInput => PhaseView::ResolveInput,
            Phase::ResolveInputCwd => PhaseView::ResolveInputCwd,
            Phase::ResolveOutput { in_abs } => PhaseView::ResolveOutput { in_abs: in_abs@ },
            Phase::ResolveOutputCwd { in_abs } => PhaseView::ResolveOutputCwd {
                in_abs: in_abs@,
            },
            Phase::PrepareDirs => PhaseView::PrepareDirs,
            Phase::OpenInput => PhaseView::OpenInput,
            Phase::ValidateSource => PhaseView::ValidateSource,
            Phase::Mount => PhaseView::Mount,
            Phase::OpenOutput => PhaseView::OpenOutput,
            Phase::Build => PhaseView::Build,
            Phase::Flush => PhaseView::Flush,
            Phase::Done => PhaseView::Done,
            Phase::Failed { message } => PhaseView::Failed { message: message@ },
        }
    }
}

impl View for Converter {
    type V = ConverterView;

    open spec fn view(&self) -> ConverterView {
        ConverterView { input: self.input@, output: self.output@, phase: self.phase@ }
    }
}

/// The messages a failed conversion reports, one per fallible step.
pub open spec fn msg_missing_input(input: Seq<char>) -> Seq<char> {
    "Failed to read input metadata: "@ + input
}

pub open spec fn msg_not_a_file(input: Seq<char>) -> Seq<char> {
    "Input path is not a file: "@ + input
}

pub open spec fn msg_resolve_input(input: Seq<char>) -> Seq<char> {
    "Failed to resolve input path: "@ + input
}

pub open spec fn msg_resolve_output(output: Seq<char>) -> Seq<char> {
    "Failed to resolve output path: "@ + output
}

pub open spec fn msg_same_file() -> Seq<char> {
    "Input and output paths are the same file"@
}

pub open spec fn msg_create_dir(parent: Seq<char>) -> Seq<char> {
    "Failed to create output parent directory: "@ + parent
}

pub open spec fn msg_open_input(input: Seq<char>) -> Seq<char> {
    "Failed to open input file: "@ + input
}

pub open spec fn msg_bad_image(input: Seq<char>) -> Seq<char> {
    "Input is not a valid Xbox ISO/XISO image: "@ + input
}

pub open spec fn msg_mount() -> Seq<char> {
    "Failed to mount XDVDFS source image"@
}

pub open spec fn msg_open_output(output: Seq<char>) -> Seq<char> {
    "Failed to open output file: "@ + output
}

pub open spec fn msg_build() -> Seq<char> {
    "Failed while creating XISO image"@
}

pub open spec fn msg_flush() -> Seq<char> {
    "Failed to flush output image writer"@
}

/// A fresh machine for one conversion run.
pub open spec fn init(input: Seq<char>, output: Seq<char>) -> ConverterView {
    ConverterView { input: input, output: output, phase: PhaseView::CheckInput }
}

/// Once the collision guard has passed, directory preparation is skipped
/// when the output has no nonempty parent directory.
pub open spec fn after_guard_spec(output: Seq<char>) -> PhaseView {
    if parent_spec(output).len() == 0 {
        PhaseView::OpenInput
    } else {
        PhaseView::PrepareDirs
    }
}

/// Whether an event answers the action the machine asked for. Terminal
/// phases expect no event at all.
pub open spec fn expects(c: ConverterView, e: EventView) -> bool {
    match (c.phase, e) {
        (PhaseView::CheckInput, EventView::Stat { .. }) => true,
        (PhaseView::CheckCollision, EventView::OutputExists(_)) => true,
        (PhaseView::ResolveInput, EventView::Canonical(_)) => true,
        (PhaseView::ResolveInputCwd, EventView::Cwd(_)) => true,
        (PhaseView::ResolveOutput { .. }, EventView::Canonical(_)) => true,
        (PhaseView::ResolveOutputCwd { .. }, EventView::Cwd(_)) => true,
        (PhaseView::PrepareDirs, EventView::Outcome(_)) => true,
        (PhaseView::OpenInput, EventView::Outcome(_)) => true,
        (PhaseView::ValidateSource, EventView::Outcome(_)) => true,
        (PhaseView::Mount, EventView::Outcome(_)) => true,
        (PhaseView::OpenOutput, EventView::Outcome(_)) => true,
        (PhaseView::Build, EventView::Outcome(_)) => true,
        (PhaseView::Flush, EventView::Outcome(_)) => true,
        _ => false,
    }
}

/// The phase after one step. Total: an event that answers nothing, and any
/// event in a terminal phase, changes nothing.
pub open spec fn stepped_phase(c: ConverterView, e: EventView) -> PhaseView {
    match (c.phase, e) {
        (PhaseView::CheckInput, EventView::Stat { found, is_file }) => {
            if !found {
                PhaseView::Failed { message: msg_missing_input(c.input) }
            } else if !is_file {
                PhaseView::Failed { message: msg_not_a_file(c.input) }
            } else {
                PhaseView::CheckCollision
            }
        },
        (PhaseView::CheckCollision, EventView::OutputExists(b)) => {
            if b {
                PhaseView::ResolveInput
            } else {
                after_guard_spec(c.output)
            }
        },
        (PhaseView::ResolveInput, EventView::Canonical(o)) => {
            match o {
                Some(p) => PhaseView::ResolveOutput { in_abs: p },
                None => {
                    if is_absolute_spec(c.input) {
                        PhaseView::ResolveOutput { in_abs: c.input }
                    } else {
                        PhaseView::ResolveInputCwd
                    }
                },
            }
        },
        (PhaseView::ResolveInputCwd, EventView::Cwd(o)) => {
            match o {
                Some(d) => PhaseView::ResolveOutput { in_abs: join_spec(d, c.input) },
                None => PhaseView::Failed { message: msg_resolve_input(c.input) },
            }
        },
        (PhaseView::ResolveOutput { in_abs }, EventView::Canonical(o)) => {
            match o {
                Some(p) => {
                    if p == in_abs {
                        PhaseView::Failed { message: msg_same_file() }
                    } else {
                        after_guard_spec(c.output)
                    }
                },
                None => {
                    if is_absolute_spec(c.output) {
                        if c.output == in_abs {
                            PhaseView::Failed { message: msg_same_file() }
                        } else {
                            after_guard_spec(c.output)
                        }
                    } else {
                        PhaseView::ResolveOutputCwd { in_abs: in_abs }
                    }
                },
            }
        },
        (PhaseView::ResolveOutputCwd { in_abs }, EventView::Cwd(o)) => {
            match o {
                Some(d) => {
                    if join_spec(d, c.output) == in_abs {
                        PhaseView::Failed { message: msg_same_file() }
                    } else {
                        after_guard_spec(c.output)
                    }
                },
                None => PhaseView::Failed { message: msg_resolve_output(c.output) },
            }
        },
        (PhaseView::PrepareDirs, EventView::Outcome(ok)) => {
            if ok {
                PhaseView::OpenInput
            } else {
                PhaseView::Failed { message: msg_create_dir(parent_spec(c.output)) }
            }
        },
        (PhaseView::OpenInput, EventView::Outcome(ok)) => {
            if ok {
                PhaseView::ValidateSource
            } else {
                PhaseView::Failed { message: msg_open_input(c.input) }
            }
        },
        (PhaseView::ValidateSource, EventView::Outcome(ok)) => {
            if ok {
                PhaseView::Mount
            } else {
                PhaseView::Failed { message: msg_bad_image(c.input) }
            }
        },
        (PhaseView::Mount, EventView::Outcome(ok)) => {
            if ok {
                PhaseView::OpenOutput
            } else {
                PhaseView::Failed { message: msg_mount() }
            }
        },
        (PhaseView::OpenOutput, EventView::Outcome(ok)) => {
            if ok {
                PhaseView::Build
            } else {
                PhaseView::Failed { message: msg_open_output(c.output) }
            }
        },
        (PhaseView::Build, EventView::Outcome(ok)) => {
            if ok {
                PhaseView::Flush
            } else {
                PhaseView::Failed { message: msg_build() }
            }
        },
        (PhaseView::Flush, EventView::Outcome(ok)) => {
            if ok {
                PhaseView::Done
            } else {
                PhaseView::Failed { message: msg_flush() }
            }
        },
        _ => c.phase,
    }
}

/// The whole machine after one step: the paths never change.
pub open spec fn stepped(c: ConverterView, e: EventView) -> ConverterView {
    ConverterView { phase: stepped_phase(c, e), ..c }
}

/// What the machine asks the driver to do in each phase.
pub open spec fn action_of(c: ConverterView) -> ActionView {
    match c.phase {
        PhaseView::CheckInput => ActionView::StatInput,
        PhaseView::CheckCollision => ActionView::CheckOutputExists,
        PhaseView::ResolveInput => ActionView::CanonicalizeInput,
        PhaseView::ResolveInputCwd => ActionView::CurrentDir,
        PhaseView::ResolveOutput { .. } => ActionView::CanonicalizeOutput,
        PhaseView::ResolveOutputCwd { .. } => ActionView::CurrentDir,
        PhaseView::PrepareDirs => ActionView::CreateDirAll(parent_spec(c.output)),
        PhaseView::OpenInput => ActionView::OpenInput,
        PhaseView::ValidateSource => ActionView::ValidateSource,
        PhaseView::Mount => ActionView::Mount,
        PhaseView::OpenOutput => ActionView::OpenOutput,
        PhaseView::Build => ActionView::Build,
        PhaseView::Flush => ActionView::Flush,
        PhaseView::Done => ActionView::Finish(0),
        PhaseView::Failed { .. } => ActionView::Finish(1),
    }
}

fn fail_with(prefix: &str, path: &str) -> (p: Phase)
    ensures
        p@ == (PhaseView::Failed { message: prefix@ + path@ }),
{
    Phase::Failed { message: String::from_str(prefix).concat(path) }
}

fn fail_msg(msg: &str) -> (p: Phase)
    ensures
        p@ == (PhaseView::Failed { message: msg@ }),
{
    Phase::Failed { message: String::from_str(msg) }
}

fn phase_after_guard(output: &str) -> (p: Phase)
    ensures
        p@ == after_guard_spec(output@),
{
    let parent = parent_dir(output);
    if parent.as_str().unicode_len() == 0 {
        Phase::OpenInput
    } else {
        Phase::PrepareDirs
    }
}

impl Converter {
    /// A machine ready to convert `input` into `output`.
    pub fn new(input: String, output: String) -> (c: Converter)
        ensures
            c@ == init(input@, output@),
    {
        Converter { input, output, phase: Phase::CheckInput }
    }

    /// What the driver must do next.
    pub fn action(&self) -> (a: Action)
        ensures
            a@ == action_of(self@),
    {
        match &self.phase {
            Phase::CheckInput => Action::StatInput,
            Phase::CheckCollision => Action::CheckOutputExists,
            Phase::ResolveInput => Action::CanonicalizeInput,
            Phase::ResolveInputCwd => Action::CurrentDir,
            Phase::ResolveOutput { .. } => Action::CanonicalizeOutput,
            Phase::ResolveOutputCwd { .. } => Action::CurrentDir,
            Phase::PrepareDirs => Action::CreateDirAll(parent_dir(self.output.as_str())),
            Phase::OpenInput => Action::OpenInput,
            Phase::ValidateSource => Action::ValidateSource,
            Phase::Mount => Action::Mount,
            Phase::OpenOutput => Action::OpenOutput,
            Phase::Build => Action::Build,
            Phase::Flush => Action::Flush,
            Phase::Done => Action::Finish(0),
            Phase::Failed { .. } => Action::Finish(1),
        }
    }

    /// Whether `e` answers the action this machine is waiting on; a driver
    /// checks this before stepping, and treats a mismatch as its own fault.
    pub fn fits(&self, e: &Event) -> (b: bool)
        ensures
            b == expects(self@, e@),
    {
        match (&self.phase, e) {
            (Phase::CheckInput, Event::Stat { .. }) => true,
            (Phase::CheckCollision, Event::OutputExists(_)) => true,
            (Phase::ResolveInput, Event::Canonical(_)) => true,
            (Phase::ResolveInputCwd, Event::Cwd(_)) => true,
            (Phase::ResolveOutput { .. }, Event::Canonical(_)) => true,
            (Phase::ResolveOutputCwd { .. }, Event::Cwd(_)) => true,
            (Phase::PrepareDirs, Event::Outcome(_)) => true,
            (Phase::OpenInput, Event::Outcome(_)) => true,
            (Phase::ValidateSource, Event::Outcome(_)) => true,
            (Phase::Mount, Event::Outcome(_)) => true,
            (Phase::OpenOutput, Event::Outcome(_)) => true,
            (Phase::Build, Event::Outcome(_)) => true,
            (Phase::Flush, Event::Outcome(_)) => true,
            _ => false,
        }
    }

    /// Advance by one step on the driver's report.
    pub fn step(&mut self, e: Event)
        requires
            expects(old(self)@, e@),
        ensures
            final(self)@ == stepped(old(self)@, e@),
    {
        let next: Phase = match (&self.phase, e) {
            (Phase::CheckInput, Event::Stat { found, is_file }) => {
                if !found {
                    fail_with("Failed to read input metadata: ", self.input.as_str())
                } else if !is_file {
                    fail_with("Input path is not a file: ", self.input.as_str())
                } else {
                    Phase::CheckCollision
                }
            },
            (Phase::CheckCollision, Event::OutputExists(b)) => {
                if b {
                    Phase::ResolveInput
                } else {
                    phase_after_guard(self.output.as_str())
                }
            },
            (Phase::ResolveInput, Event::Canonical(o)) => {
                match o {
                    Some(p) => Phase::ResolveOutput { in_abs: p },
                    None => {
                        if is_absolute(self.input.as_str()) {
                            Phase::ResolveOutput { in_abs: self.input.clone() }
                        } else {
                            Phase::ResolveInputCwd
                        }
                    },
                }
            },
            (Phase::ResolveInputCwd, Event::Cwd(o)) => {
                match o {
                    Some(d) => Phase::ResolveOutput {
                        in_abs: crate::paths::join(d.as_str(), self.input.as_str()),
                    },
                    None => fail_with("Failed to resolve input path: ", self.input.as_str()),
                }
            },
            (Phase::ResolveOutput { in_abs }, Event::Canonical(o)) => {
                match o {
                    Some(p) => {
                        if in_abs.eq(&p) {
                            fail_msg("Input and output paths are the same file")
                        } else {
                            phase_after_guard(self.output.as_str())
                        }
                    },
                    None => {
                        if is_absolute(self.output.as_str()) {
                            if in_abs.eq(&self.output) {
                                fail_msg("Input and output paths are the same file")
                            } else {
                                phase_after_guard(self.output.as_str())
                            }
                        } else {
                            Phase::ResolveOutputCwd { in_abs: in_abs.clone() }
                        }
                    },
                }
            },
            (Phase::ResolveOutputCwd { in_abs }, Event::Cwd(o)) => {
                match o {
                    Some(d) => {
                        let out_abs = crate::paths::join(d.as_str(), self.output.as_str());
                        if in_abs.eq(&out_abs) {
                            fail_msg("Input and output paths are the same file")
                        } else {
                            phase_after_guard(self.output.as_str())
                        }
                    },
                    None => fail_with("Failed to resolve output path: ", self.output.as_str()),
                }
            },
            (Phase::PrepareDirs, Event::Outcome(ok)) => {
                if ok {
                    Phase::OpenInput
                } else {
                    fail_with(
                        "Failed to create output parent directory: ",
                        parent_dir(self.output.as_str()).as_str(),
                    )
                }
            },
            (Phase::OpenInput, Event::Outcome(ok)) => {
                if ok {
                    Phase::ValidateSource
                } else {
                    fail_with("Failed to open input file: ", self.input.as_str())
                }
            },
            (Phase::ValidateSource, Event::Outcome(ok)) => {
                if ok {
                    Phase::Mount
                } else {
                    fail_with("Input is not a valid Xbox ISO/XISO image: ", self.input.as_str())
                }
            },
            (Phase::Mount, Event::Outcome(ok)) => {
                if ok {
                    Phase::OpenOutput
                } else {
                    fail_msg("Failed to mount XDVDFS source image")
                }
            },
            (Phase::OpenOutput, Event::Outcome(ok)) => {
                if ok {
                    Phase::Build
                } else {
                    fail_with("Failed to open output file: ", self.output.as_str())
                }
            },
            (Phase::Build, Event::Outcome(ok)) => {
                if ok {
                    Phase::Flush
                } else {
                    fail_msg("Failed while creating XISO image")
                }
            },
            (Phase::Flush, Event::Outcome(ok)) => {
                if ok {
                    Phase::Done
                } else {
                    fail_msg("Failed to flush output image writer")
                }
            },
            _ => vstd::pervasive::unreached(),
        };
        self.phase = next;
    }

    /// The message of a failed run.
    pub fn failure_message(&self) -> (m: String)
        requires
            self@.phase is Failed,
        ensures
            self@.phase matches PhaseView::Failed { message } && m@ == message,
    {
        match &self.phase {
            Phase::Failed { message } => message.clone(),
            _ => vstd::pervasive::unreached(),
        }
    }
}

} // verus!
