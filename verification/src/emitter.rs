//! The emitter of the native-code backend.
//!
//! Emitting is work of the target toolkit and of the file system. What is
//! decided here is the order of that work: an emission is a session that
//! names one action at a time, learns how the action ended, and names the
//! next, until it is finished.

use vstd::prelude::*;
use vstd::string::StringExecFns;
use crate::optimizer::pipeline_text;
use crate::ports::{EmitError, Module, ModuleData, ModuleDataView, OptimizationLevel};

verus! {

/// The four artifacts.
#[derive(Debug, Clone, Copy, PartialEq, Eq, Structural)]
pub enum EmitFormat {
    /// An executable: an object file, linked.
    Binary,
    /// Assembly text of the target.
    Assembly,
    /// The portable text form of the module.
    LlvmIr,
    /// A relocatable object file.
    Object,
}

/// How hard the target machine works on the code it selects.
#[derive(Debug, Clone, Copy, PartialEq, Eq, Structural)]
pub enum CodeGenLevel {
    Unoptimized,
    Less,
    Default,
    Aggressive,
}

/// The effort of the target machine for a module generated at a level.
/// The two levels that ask for small code take the default effort.
pub open spec fn machine_level(level: OptimizationLevel) -> CodeGenLevel {
    match level {
        OptimizationLevel::Off => CodeGenLevel::Unoptimized,
        OptimizationLevel::Basic => CodeGenLevel::Less,
        OptimizationLevel::Default => CodeGenLevel::Default,
        OptimizationLevel::Aggressive => CodeGenLevel::Aggressive,
        OptimizationLevel::Size => CodeGenLevel::Default,
        OptimizationLevel::SizePerformance => CodeGenLevel::Default,
    }
}

/// The kinds of file that a target machine writes.
#[derive(Debug, Clone, Copy, PartialEq, Eq, Structural)]
pub enum FileType {
    Assembly,
    Object,
}

/// Where a file goes.
#[derive(Debug, Clone, Copy, PartialEq, Eq, Structural)]
pub enum Destination {
    /// The path that the caller gave.
    Output,
    /// The caller's path with the extension `o`.
    ObjectSibling,
}

/// Where a session stands.
#[derive(Debug, Clone, Copy, PartialEq, Eq, Structural)]
pub enum Stage {
    RunPasses,
    WriteIr,
    LookupTarget,
    CreateMachine,
    EmitFile,
    Link,
    /// The machine is to be disposed of; `failed` tells whether a step after
    /// its creation failed.
    DisposeMachine { failed: bool },
    Finished { failed: bool },
}

/// One action of the target toolkit or the file system.
#[derive(Debug, PartialEq, Eq)]
pub enum EmitAction {
    /// Run the module through these pass pipelines, in order.
    RunPasses { pipelines: Vec<String> },
    /// Render the module as portable text and write the text to the output.
    WriteIr,
    /// Find the target that the description names.
    LookupTarget { triple: String },
    /// Make a machine for the target, with no particular processor or
    /// feature, and the default relocation and code model.
    CreateMachine { triple: String, level: CodeGenLevel },
    /// Let the machine write the module to a file.
    EmitFile { file_type: FileType, destination: Destination },
    /// Link the object file beside the output into the output.
    Link,
    /// Dispose of the machine.
    DisposeMachine,
    /// Nothing is left to do; this is the result of the emission.
    Finish(Result<(), EmitError>),
}

/// What an [`EmitAction`] is, as a mathematical value.
pub enum EmitActionView {
    RunPasses { pipelines: Seq<Seq<char>> },
    WriteIr,
    LookupTarget { triple: Seq<char> },
    CreateMachine { triple: Seq<char>, level: CodeGenLevel },
    EmitFile { file_type: FileType, destination: Destination },
    Link,
    DisposeMachine,
    /// The result: success, or the text of the failure.
    Finish(Option<Seq<char>>),
}

impl View for EmitAction {
    type V = EmitActionView;

    open spec fn view(&self) -> EmitActionView {
        match self {
            EmitAction::RunPasses { pipelines } => EmitActionView::RunPasses {
                pipelines: pipelines@.map_values(|p: String| p@),
            },
            EmitAction::WriteIr => EmitActionView::WriteIr,
            EmitAction::LookupTarget { triple } => EmitActionView::LookupTarget { triple: triple@ },
            EmitAction::CreateMachine { triple, level } => EmitActionView::CreateMachine {
                triple: triple@,
                level: *level,
            },
            EmitAction::EmitFile { file_type, destination } => EmitActionView::EmitFile {
                file_type: *file_type,
                destination: *destination,
            },
            EmitAction::Link => EmitActionView::Link,
            EmitAction::DisposeMachine => EmitActionView::DisposeMachine,
            EmitAction::Finish(Ok(())) => EmitActionView::Finish(None),
            EmitAction::Finish(Err(e)) => EmitActionView::Finish(Some(e.detail())),
        }
    }
}

/// How an action ended.
#[derive(Debug, PartialEq, Eq)]
pub enum EmitEvent {
    Done,
    /// The action failed, with the toolchain's own words where it gave any.
    Failed(Option<String>),
}

/// What an [`EmitEvent`] is, as a mathematical value.
pub enum EmitEventView {
    Done,
    Failed(Option<Seq<char>>),
}

impl View for EmitEvent {
    type V = EmitEventView;

    open spec fn view(&self) -> EmitEventView {
        match self {
            EmitEvent::Done => EmitEventView::Done,
            EmitEvent::Failed(Some(text)) => EmitEventView::Failed(Some(text@)),
            EmitEvent::Failed(None) => EmitEventView::Failed(None),
        }
    }
}

/// What a session is, as a mathematical value.
pub struct EmitSessionView {
    pub format: EmitFormat,
    pub triple: Seq<char>,
    pub level: CodeGenLevel,
    /// The optimization runs that were asked for, in order.
    pub passes: Seq<OptimizationLevel>,
    pub stage: Stage,
    /// The text of the failure, once a step has failed.
    pub failure: Seq<char>,
}

/// What is said of a failure about which the toolchain said nothing.
pub open spec fn default_failure(format: EmitFormat, stage: Stage, triple: Seq<char>) -> Seq<char> {
    match stage {
        Stage::RunPasses => "Failed to run optimization passes"@,
        Stage::WriteIr => "Failed to generate LLVM IR"@,
        Stage::LookupTarget => if format == EmitFormat::Binary {
            "Failed to get target for triple: "@ + triple
        } else {
            "Failed to get target"@
        },
        Stage::CreateMachine => "Failed to create target machine"@,
        Stage::Link => "Failed to link"@,
        _ => "Unknown error"@,
    }
}

/// The text of a failure: the toolchain's where it gave one.
pub open spec fn failure_text(
    format: EmitFormat,
    stage: Stage,
    triple: Seq<char>,
    said: Option<Seq<char>>,
) -> Seq<char> {
    match said {
        Some(text) => text,
        None => default_failure(format, stage, triple),
    }
}

/// The stage in which the making of an artifact starts.
pub open spec fn first_stage(format: EmitFormat) -> Stage {
    if format == EmitFormat::LlvmIr {
        Stage::WriteIr
    } else {
        Stage::LookupTarget
    }
}

/// The stage in which a session starts: the passes that were asked for come
/// before the artifact is made.
pub open spec fn opening_stage(format: EmitFormat, passes: Seq<OptimizationLevel>) -> Stage {
    if passes.len() > 0 {
        Stage::RunPasses
    } else {
        first_stage(format)
    }
}

/// The stage after a stage whose action went well.
///
/// After the passes the artifact is made.
/// The text form is written in one step. The others need a machine for the
/// target: the target is looked up, the machine made, the file written; an
/// executable is linked from its object file; and the machine is disposed of.
pub open spec fn stage_after_success(format: EmitFormat, stage: Stage) -> Stage {
    match stage {
        Stage::RunPasses => first_stage(format),
        Stage::WriteIr => Stage::Finished { failed: false },
        Stage::LookupTarget => Stage::CreateMachine,
        Stage::CreateMachine => Stage::EmitFile,
        Stage::EmitFile => if format == EmitFormat::Binary {
            Stage::Link
        } else {
            Stage::DisposeMachine { failed: false }
        },
        Stage::Link => Stage::DisposeMachine { failed: false },
        Stage::DisposeMachine { failed } => Stage::Finished { failed },
        Stage::Finished { failed } => Stage::Finished { failed },
    }
}

/// The stage after a stage whose action failed. A failure ends the session,
/// but a machine that was made is disposed of first.
pub open spec fn stage_after_failure(stage: Stage) -> Stage {
    match stage {
        Stage::RunPasses => Stage::Finished { failed: true },
        Stage::WriteIr => Stage::Finished { failed: true },
        Stage::LookupTarget => Stage::Finished { failed: true },
        Stage::CreateMachine => Stage::Finished { failed: true },
        Stage::EmitFile => Stage::DisposeMachine { failed: true },
        Stage::Link => Stage::DisposeMachine { failed: true },
        Stage::DisposeMachine { failed } => Stage::Finished { failed },
        Stage::Finished { failed } => Stage::Finished { failed },
    }
}

/// Whether a failure in this stage is the failure of the emission. Once the
/// outcome is settled, what happens while the machine is disposed of does not
/// change it.
pub open spec fn failure_counts(stage: Stage) -> bool {
    !(stage is DisposeMachine) && !(stage is Finished)
}

impl EmitSessionView {
    /// The session after its action ended as the event says.
    pub open spec fn advance(self, event: EmitEventView) -> EmitSessionView {
        match event {
            EmitEventView::Done => EmitSessionView {
                stage: stage_after_success(self.format, self.stage),
                ..self
            },
            EmitEventView::Failed(said) => EmitSessionView {
                stage: stage_after_failure(self.stage),
                failure: if failure_counts(self.stage) {
                    failure_text(self.format, self.stage, self.triple, said)
                } else {
                    self.failure
                },
                ..self
            },
        }
    }

    /// The action that the session asks for.
    pub open spec fn action(self) -> EmitActionView {
        match self.stage {
            Stage::RunPasses => EmitActionView::RunPasses {
                pipelines: self.passes.map_values(|level: OptimizationLevel| pipeline_text(level)),
            },
            Stage::WriteIr => EmitActionView::WriteIr,
            Stage::LookupTarget => EmitActionView::LookupTarget { triple: self.triple },
            Stage::CreateMachine => EmitActionView::CreateMachine {
                triple: self.triple,
                level: self.level,
            },
            Stage::EmitFile => EmitActionView::EmitFile {
                file_type: if self.format == EmitFormat::Assembly {
                    FileType::Assembly
                } else {
                    FileType::Object
                },
                destination: if self.format == EmitFormat::Binary {
                    Destination::ObjectSibling
                } else {
                    Destination::Output
                },
            },
            Stage::Link => EmitActionView::Link,
            Stage::DisposeMachine { .. } => EmitActionView::DisposeMachine,
            Stage::Finished { failed } => EmitActionView::Finish(
                if failed {
                    Some(self.failure)
                } else {
                    None
                },
            ),
        }
    }

    /// How many actions the session asks for at most before it is finished.
    pub open spec fn remaining(self) -> nat {
        match self.stage {
            Stage::RunPasses => 6,
            Stage::WriteIr => 1,
            Stage::LookupTarget => 5,
            Stage::CreateMachine => 4,
            Stage::EmitFile => 3,
            Stage::Link => 2,
            Stage::DisposeMachine { .. } => 1,
            Stage::Finished { .. } => 0,
        }
    }

    /// Whether the session holds a machine that is yet to be disposed of.
    pub open spec fn holds_machine(self) -> bool {
        self.stage is EmitFile || self.stage is Link || self.stage is DisposeMachine
    }
}

/// The session that emits a module of this backend as an artifact.
pub open spec fn session_for(
    format: EmitFormat,
    triple: Seq<char>,
    level: OptimizationLevel,
    passes: Seq<OptimizationLevel>,
) -> EmitSessionView {
    EmitSessionView {
        format,
        triple,
        level: machine_level(level),
        passes,
        stage: opening_stage(format, passes),
        failure: Seq::empty(),
    }
}

/// An emission under way.
#[derive(Debug, PartialEq, Eq)]
pub struct EmitSession {
    format: EmitFormat,
    triple: String,
    level: CodeGenLevel,
    passes: Vec<OptimizationLevel>,
    stage: Stage,
    failure: String,
}

impl View for EmitSession {
    type V = EmitSessionView;

    closed spec fn view(&self) -> EmitSessionView {
        EmitSessionView {
            format: self.format,
            triple: self.triple@,
            level: self.level,
            passes: self.passes@,
            stage: self.stage,
            failure: self.failure@,
        }
    }
}

impl EmitSession {
    /// The action that the session asks for now. A finished session asks for
    /// nothing more and gives the result of the emission.
    pub fn action(&self) -> (action: EmitAction)
        ensures
            action@ == self@.action(),
    {
        match self.stage {
            Stage::RunPasses => {
                let mut pipelines: Vec<String> = Vec::new();
                let mut i: usize = 0;
                while i < self.passes.len()
                    invariant
                        i <= self.passes@.len(),
                        pipelines@.len() == i,
                        forall|j: int|
                            0 <= j < i ==> (#[trigger] pipelines@[j])@ == pipeline_text(
                                self.passes@[j],
                            ),
                    decreases self.passes@.len() - i,
                {
                    pipelines.push(String::from_str(self.passes[i].pipeline()));
                    i = i + 1;
                }
                let action = EmitAction::RunPasses { pipelines };
                assert(action@->RunPasses_pipelines =~= self@.action()->RunPasses_pipelines);
                action
            },
            Stage::WriteIr => EmitAction::WriteIr,
            Stage::LookupTarget => EmitAction::LookupTarget { triple: self.triple.clone() },
            Stage::CreateMachine => EmitAction::CreateMachine {
                triple: self.triple.clone(),
                level: self.level,
            },
            Stage::EmitFile => EmitAction::EmitFile {
                file_type: match self.format {
                    EmitFormat::Assembly => FileType::Assembly,
                    _ => FileType::Object,
                },
                destination: match self.format {
                    EmitFormat::Binary => Destination::ObjectSibling,
                    _ => Destination::Output,
                },
            },
            Stage::Link => EmitAction::Link,
            Stage::DisposeMachine { .. } => EmitAction::DisposeMachine,
            Stage::Finished { failed } => if failed {
                EmitAction::Finish(Err(EmitError::EmissionFailed(self.failure.clone())))
            } else {
                EmitAction::Finish(Ok(()))
            },
        }
    }

    /// Tells the session how its action ended. Each answer brings the
    /// session nearer to its end; a finished session stays as it is.
    pub fn advance(&mut self, event: EmitEvent)
        ensures
            final(self)@ == old(self)@.advance(event@),
            old(self)@.stage is Finished || final(self)@.remaining() < old(self)@.remaining(),
    {
        match event {
            EmitEvent::Done => {
                self.stage = match self.stage {
                    Stage::RunPasses => match self.format {
                        EmitFormat::LlvmIr => Stage::WriteIr,
                        _ => Stage::LookupTarget,
                    },
                    Stage::WriteIr => Stage::Finished { failed: false },
                    Stage::LookupTarget => Stage::CreateMachine,
                    Stage::CreateMachine => Stage::EmitFile,
                    Stage::EmitFile => match self.format {
                        EmitFormat::Binary => Stage::Link,
                        _ => Stage::DisposeMachine { failed: false },
                    },
                    Stage::Link => Stage::DisposeMachine { failed: false },
                    Stage::DisposeMachine { failed } => Stage::Finished { failed },
                    Stage::Finished { failed } => Stage::Finished { failed },
                };
            },
            EmitEvent::Failed(said) => {
                let counts = match self.stage {
                    Stage::DisposeMachine { .. } => false,
                    Stage::Finished { .. } => false,
                    _ => true,
                };
                if counts {
                    self.failure = match said {
                        Some(text) => text,
                        None => match self.stage {
                            Stage::RunPasses => String::from_str(
                                "Failed to run optimization passes",
                            ),
                            Stage::WriteIr => String::from_str("Failed to generate LLVM IR"),
                            Stage::LookupTarget => match self.format {
                                EmitFormat::Binary => String::from_str(
                                    "Failed to get target for triple: ",
                                ).concat(self.triple.as_str()),
                                _ => String::from_str("Failed to get target"),
                            },
                            Stage::CreateMachine => String::from_str(
                                "Failed to create target machine",
                            ),
                            Stage::Link => String::from_str("Failed to link"),
                            _ => String::from_str("Unknown error"),
                        },
                    };
                }
                self.stage = match self.stage {
                    Stage::RunPasses => Stage::Finished { failed: true },
                    Stage::WriteIr => Stage::Finished { failed: true },
                    Stage::LookupTarget => Stage::Finished { failed: true },
                    Stage::CreateMachine => Stage::Finished { failed: true },
                    Stage::EmitFile => Stage::DisposeMachine { failed: true },
                    Stage::Link => Stage::DisposeMachine { failed: true },
                    Stage::DisposeMachine { failed } => Stage::Finished { failed },
                    Stage::Finished { failed } => Stage::Finished { failed },
                };
            },
        }
    }

    /// Whether nothing is left to do.
    pub fn is_finished(&self) -> (finished: bool)
        ensures
            finished == (self@.stage is Finished),
    {
        match self.stage {
            Stage::Finished { .. } => true,
            _ => false,
        }
    }
}

/// What the emitter says of a module that is not this backend's.
pub open spec fn foreign_payload_message() -> Seq<char> {
    "Module does not contain LLVM module"@
}

/// The machine effort for a module generated at a level.
pub fn machine_level_of(level: OptimizationLevel) -> (effort: CodeGenLevel)
    ensures
        effort == machine_level(level),
{
    match level {
        OptimizationLevel::Off => CodeGenLevel::Unoptimized,
        OptimizationLevel::Basic => CodeGenLevel::Less,
        OptimizationLevel::Default => CodeGenLevel::Default,
        OptimizationLevel::Aggressive => CodeGenLevel::Aggressive,
        OptimizationLevel::Size => CodeGenLevel::Default,
        OptimizationLevel::SizePerformance => CodeGenLevel::Default,
    }
}

/// What beginning an emission gives: for a module of this backend the
/// session for the artifact, for the module's own target and level and with
/// the optimization runs that were asked for of it; for any other module a
/// refusal.
pub open spec fn begins(
    module: crate::ports::ModuleView,
    format: EmitFormat,
    result: Result<EmitSession, EmitError>,
) -> bool {
    match module.data {
        Some(ModuleDataView::Llvm(payload)) => result matches Ok(session) && session@
            == session_for(
            format,
            payload.module.target_triple,
            payload.opt_level,
            payload.passes,
        ),
        _ => result matches Err(EmitError::EmissionFailed(m)) && m@ == foreign_payload_message(),
    }
}

/// The emitter of the native-code backend.
#[derive(Debug, Clone, Copy, PartialEq, Eq, Structural)]
pub struct LlvmEmitter;

impl LlvmEmitter {
    /// An emitter. It holds nothing: all that an emission needs travels
    /// with the module.
    pub fn new() -> Self {
        Self
    }

    /// Begins the emission of a module as the given artifact.
    pub fn begin(&self, module: &Module, format: EmitFormat) -> (result: Result<
        EmitSession,
        EmitError,
    >)
        ensures
            begins(module@, format, result),
    {
        match &module.data {
            Some(ModuleData::Llvm(payload)) => {
                let passes = payload.passes.clone();
                assert(passes@ =~= payload.passes@);
                let stage = if passes.len() > 0 {
                    Stage::RunPasses
                } else {
                    match format {
                        EmitFormat::LlvmIr => Stage::WriteIr,
                        _ => Stage::LookupTarget,
                    }
                };
                Ok(
                    EmitSession {
                        format,
                        triple: payload.module.target_triple.clone(),
                        level: machine_level_of(payload.opt_level),
                        passes,
                        stage,
                        failure: String::new(),
                    },
                )
            },
            _ => Err(
                EmitError::EmissionFailed(String::from_str("Module does not contain LLVM module")),
            ),
        }
    }

    /// Begins the emission of an executable: an object file beside the
    /// output, linked into the output.
    pub fn emit_binary(&self, module: &Module) -> (result: Result<EmitSession, EmitError>)
        ensures
            begins(module@, EmitFormat::Binary, result),
    {
        self.begin(module, EmitFormat::Binary)
    }

    /// Begins the emission of assembly text.
    pub fn emit_assembly(&self, module: &Module) -> (result: Result<EmitSession, EmitError>)
        ensures
            begins(module@, EmitFormat::Assembly, result),
    {
        self.begin(module, EmitFormat::Assembly)
    }

    /// Begins the emission of the portable text form.
    pub fn emit_llvm_ir(&self, module: &Module) -> (result: Result<EmitSession, EmitError>)
        ensures
            begins(module@, EmitFormat::LlvmIr, result),
    {
        self.begin(module, EmitFormat::LlvmIr)
    }

    /// Begins the emission of an object file.
    pub fn emit_object(&self, module: &Module) -> (result: Result<EmitSession, EmitError>)
        ensures
            begins(module@, EmitFormat::Object, result),
    {
        self.begin(module, EmitFormat::Object)
    }
}

impl Default for LlvmEmitter {
    fn default() -> Self {
        Self::new()
    }
}

/// The session after a run of answers, in order.
pub open spec fn advance_all(session: EmitSessionView, events: Seq<EmitEventView>) -> EmitSessionView
    decreases events.len(),
{
    if events.len() == 0 {
        session
    } else {
        advance_all(session, events.drop_last()).advance(events.last())
    }
}

proof fn lemma_advance_all_counts_down(session: EmitSessionView, events: Seq<EmitEventView>)
    ensures
        advance_all(session, events).remaining() + events.len() <= session.remaining()
            || advance_all(session, events).stage is Finished,
    decreases events.len(),
{
    if events.len() > 0 {
        lemma_advance_all_counts_down(session, events.drop_last());
    }
}

/// Every session finishes: whatever the answers are, after six of them
/// nothing is left to do.
pub proof fn lemma_session_finishes(session: EmitSessionView, events: Seq<EmitEventView>)
    requires
        events.len() >= 6,
    ensures
        advance_all(session, events).stage is Finished,
        advance_all(session, events).action() is Finish,
{
    lemma_advance_all_counts_down(session, events);
}

/// A machine that was made is disposed of before the session finishes.
///
/// A session comes to hold a machine by making one, and in no other way. It
/// holds the machine until it asks for the machine to be disposed of, and
/// whatever the answer to that is, the session is finished after it and holds
/// no machine.
pub proof fn lemma_machine_is_disposed_of(session: EmitSessionView, event: EmitEventView)
    ensures
        !session.holds_machine() && session.advance(event).holds_machine() ==> session.stage
            is CreateMachine && event is Done,
        session.holds_machine() && !(session.stage is DisposeMachine) ==> session.advance(
            event,
        ).holds_machine(),
        session.stage is DisposeMachine ==> session.action() is DisposeMachine && session.advance(
            event,
        ).stage is Finished,
        session.stage is Finished ==> !session.holds_machine(),
{
}

/// A failure is the result of the emission, and the first failure is.
///
/// Once an action has failed in a stage where failures count, every later
/// state of the session is a failed one with the text of that failure, and
/// the result, when the session is finished, is that failure.
pub proof fn lemma_failure_is_the_result(
    session: EmitSessionView,
    said: Option<Seq<char>>,
    later: Seq<EmitEventView>,
)
    requires
        failure_counts(session.stage),
    ensures
        ({
            let failed = session.advance(EmitEventView::Failed(said));
            let end = advance_all(failed, later);
            let text = failure_text(session.format, session.stage, session.triple, said);
            &&& end.failure == text
            &&& end.stage is Finished ==> end.action() == EmitActionView::Finish(Some(text))
            &&& !(end.action() == EmitActionView::Finish(None))
        }),
    decreases later.len(),
{
    if later.len() > 0 {
        lemma_failure_is_the_result(session, said, later.drop_last());
        let failed = session.advance(EmitEventView::Failed(said));
        lemma_failed_stays_failed(failed, later.drop_last());
    }
}

proof fn lemma_failed_stays_failed(session: EmitSessionView, later: Seq<EmitEventView>)
    requires
        session.stage == (Stage::Finished { failed: true }) || session.stage == (
        Stage::DisposeMachine { failed: true }),
    ensures
        ({
            let end = advance_all(session, later);
            end.stage == (Stage::Finished { failed: true }) || end.stage == (
            Stage::DisposeMachine { failed: true })
        }),
    decreases later.len(),
{
    if later.len() > 0 {
        lemma_failed_stays_failed(session, later.drop_last());
    }
}

/// An emission succeeds only if every one of its actions did: a session that
/// is finished without a failure was given no failure in a stage where
/// failures count.
pub proof fn lemma_success_means_no_failure(
    session: EmitSessionView,
    events: Seq<EmitEventView>,
    k: int,
)
    requires
        0 <= k < events.len(),
        advance_all(session, events).action() == EmitActionView::Finish(None),
        events[k] is Failed,
    ensures
        !failure_counts(advance_all(session, events.take(k)).stage),
{
    let before = advance_all(session, events.take(k));
    if failure_counts(before.stage) {
        let said = events[k]->Failed_0;
        let rest = events.skip(k + 1);
        lemma_failure_is_the_result(before, said, rest);
        lemma_advance_all_splits(session, events, k + 1);
        assert(events.take(k + 1).drop_last() =~= events.take(k));
        assert(events[k] == EmitEventView::Failed(said));
    }
}

proof fn lemma_advance_all_splits(session: EmitSessionView, events: Seq<EmitEventView>, k: int)
    requires
        0 <= k <= events.len(),
    ensures
        advance_all(session, events) == advance_all(
            advance_all(session, events.take(k)),
            events.skip(k),
        ),
    decreases events.len(),
{
    if k == events.len() {
        assert(events.take(k) =~= events);
        assert(events.skip(k) =~= Seq::<EmitEventView>::empty());
    } else {
        lemma_advance_all_splits(session, events.drop_last(), k);
        assert(events.drop_last().take(k) =~= events.take(k));
        assert(events.skip(k).drop_last() =~= events.drop_last().skip(k));
        assert(events.skip(k).last() == events.last());
    }
}

} // verus!
