use vstd::prelude::*;
use crate::duration::OneOfDurationOrIso8601Expression;
use crate::error::OneOfErrorDefinitionOrReference;
use crate::event::{EventConsumptionStrategyDefinition, EventDefinition};
use crate::map::OrderedMap;
use crate::resource::{ExternalResourceDefinition, InputDataModelDefinition, OutputDataModelDefinition};
use crate::retry::OneOfRetryPolicyDefinitionOrReference;
use crate::timeout::OneOfTimeoutDefinitionOrReference;
use crate::value::AnyValue;

verus! {

/// The names of the task kinds; each is also the key that marks the kind on the wire.
pub struct TaskType;

impl TaskType {
    pub const CALL: &'static str = "call";
    pub const DO: &'static str = "do";
    pub const EMIT: &'static str = "emit";
    pub const FOR: &'static str = "for";
    pub const FORK: &'static str = "fork";
    pub const LISTEN: &'static str = "listen";
    pub const RAISE: &'static str = "raise";
    pub const RUN: &'static str = "run";
    pub const SET: &'static str = "set";
    pub const SWITCH: &'static str = "switch";
    pub const TRY: &'static str = "try";
    pub const WAIT: &'static str = "wait";
}

/// The names of the process kinds that a 'run' task can start.
pub struct ProcessType;

impl ProcessType {
    pub const CONTAINER: &'static str = "container";
    pub const SCRIPT: &'static str = "script";
    pub const SHELL: &'static str = "shell";
    pub const WORKFLOW: &'static str = "workflow";
}

/// A named, ordered sequence of tasks.
pub type TaskMap = OrderedMap<String, TaskDefinition>;

/// One step of a workflow: one of twelve kinds.
#[derive(Debug, PartialEq)]
pub enum TaskDefinition {
    Call(CallTaskDefinition),
    Do(DoTaskDefinition),
    Emit(EmitTaskDefinition),
    For(ForTaskDefinition),
    Fork(ForkTaskDefinition),
    Listen(ListenTaskDefinition),
    Raise(RaiseTaskDefinition),
    Run(RunTaskDefinition),
    SetData(SetTaskDefinition),
    Switch(SwitchTaskDefinition),
    Try(TryTaskDefinition),
    Wait(WaitTaskDefinition),
}

/// The name of a task's kind.
pub open spec fn kind_name(t: TaskDefinition) -> Seq<char> {
    match t {
        TaskDefinition::Call(_) => TaskType::CALL@,
        TaskDefinition::Do(_) => TaskType::DO@,
        TaskDefinition::Emit(_) => TaskType::EMIT@,
        TaskDefinition::For(_) => TaskType::FOR@,
        TaskDefinition::Fork(_) => TaskType::FORK@,
        TaskDefinition::Listen(_) => TaskType::LISTEN@,
        TaskDefinition::Raise(_) => TaskType::RAISE@,
        TaskDefinition::Run(_) => TaskType::RUN@,
        TaskDefinition::SetData(_) => TaskType::SET@,
        TaskDefinition::Switch(_) => TaskType::SWITCH@,
        TaskDefinition::Try(_) => TaskType::TRY@,
        TaskDefinition::Wait(_) => TaskType::WAIT@,
    }
}

impl TaskDefinition {
    /// The name of the task's kind.
    pub fn task_type(&self) -> (r: &'static str)
        ensures
            r@ == kind_name(*self),
    {
        match self {
            TaskDefinition::Call(_) => TaskType::CALL,
            TaskDefinition::Do(_) => TaskType::DO,
            TaskDefinition::Emit(_) => TaskType::EMIT,
            TaskDefinition::For(_) => TaskType::FOR,
            TaskDefinition::Fork(_) => TaskType::FORK,
            TaskDefinition::Listen(_) => TaskType::LISTEN,
            TaskDefinition::Raise(_) => TaskType::RAISE,
            TaskDefinition::Run(_) => TaskType::RUN,
            TaskDefinition::SetData(_) => TaskType::SET,
            TaskDefinition::Switch(_) => TaskType::SWITCH,
            TaskDefinition::Try(_) => TaskType::TRY,
            TaskDefinition::Wait(_) => TaskType::WAIT,
        }
    }
}

/// Implemented by every task kind.
pub trait TaskDefinitionBase {
    /// The name of the task's kind.
    fn task_type(&self) -> &str;
}

/// The fields that every task carries beside those of its kind.
#[derive(Debug, PartialEq)]
pub struct TaskDefinitionFields {
    /// A condition under which the task runs.
    pub if_: Option<String>,
    pub input: Option<InputDataModelDefinition>,
    pub output: Option<OutputDataModelDefinition>,
    pub export: Option<OutputDataModelDefinition>,
    pub timeout: Option<OneOfTimeoutDefinitionOrReference>,
    /// What to do next: the name of a task, or one of "continue", "exit" and "end".
    pub then_: Option<String>,
    pub metadata: Option<Vec<(String, AnyValue)>>,
}

/// Common fields with nothing set.
pub open spec fn no_fields() -> TaskDefinitionFields {
    TaskDefinitionFields {
        if_: None,
        input: None,
        output: None,
        export: None,
        timeout: None,
        then_: None,
        metadata: None,
    }
}

impl TaskDefinitionFields {
    /// Common fields with nothing set.
    pub fn new() -> (r: Self)
        ensures
            r == no_fields(),
    {
        TaskDefinitionFields {
            if_: None,
            input: None,
            output: None,
            export: None,
            timeout: None,
            then_: None,
            metadata: None,
        }
    }
}

/// A task that calls a function.
#[derive(Debug, PartialEq)]
pub struct CallTaskDefinition {
    pub call: String,
    pub with: Option<Vec<(String, AnyValue)>>,
    /// Whether to wait for the function to return; true when absent.
    pub await_: Option<bool>,
    pub common: TaskDefinitionFields,
}

impl CallTaskDefinition {
    /// A call of `call` with the given arguments.
    pub fn new(call: &str, with: Option<Vec<(String, AnyValue)>>, await_: Option<bool>) -> (r: Self)
        ensures
            r.call@ == call@,
            r.with == with,
            r.await_ == await_,
            r.common == no_fields(),
    {
        CallTaskDefinition { call: call.to_string(), with, await_, common: TaskDefinitionFields::new() }
    }
}

impl TaskDefinitionBase for CallTaskDefinition {
    fn task_type(&self) -> &str {
        TaskType::CALL
    }
}

/// A task that runs subtasks in order.
#[derive(Debug, PartialEq)]
pub struct DoTaskDefinition {
    pub do_: TaskMap,
    pub common: TaskDefinitionFields,
}

impl DoTaskDefinition {
    pub fn new(do_: TaskMap) -> (r: Self)
        ensures
            r.do_ == do_,
            r.common == no_fields(),
    {
        DoTaskDefinition { do_, common: TaskDefinitionFields::new() }
    }
}

impl TaskDefinitionBase for DoTaskDefinition {
    fn task_type(&self) -> &str {
        TaskType::DO
    }
}

/// A task that publishes an event.
#[derive(Debug, PartialEq)]
pub struct EmitTaskDefinition {
    pub emit: EventEmissionDefinition,
    pub common: TaskDefinitionFields,
}

impl EmitTaskDefinition {
    pub fn new(emit: EventEmissionDefinition) -> (r: Self)
        ensures
            r.emit == emit,
            r.common == no_fields(),
    {
        EmitTaskDefinition { emit, common: TaskDefinitionFields::new() }
    }
}

impl TaskDefinitionBase for EmitTaskDefinition {
    fn task_type(&self) -> &str {
        TaskType::EMIT
    }
}

/// The event that an 'emit' task publishes.
#[derive(Debug, PartialEq)]
pub struct EventEmissionDefinition {
    pub event: EventDefinition,
}

impl EventEmissionDefinition {
    pub fn new(event: EventDefinition) -> (r: Self)
        ensures
            r.event == event,
    {
        EventEmissionDefinition { event }
    }
}

/// A task that runs subtasks for each item of a collection.
#[derive(Debug, PartialEq)]
pub struct ForTaskDefinition {
    pub for_: ForLoopDefinition,
    /// A condition that must hold for the iteration to go on.
    pub while_: Option<String>,
    pub do_: TaskMap,
    pub common: TaskDefinitionFields,
}

impl ForTaskDefinition {
    pub fn new(for_: ForLoopDefinition, do_: TaskMap, while_: Option<String>) -> (r: Self)
        ensures
            r.for_ == for_,
            r.do_ == do_,
            r.while_ == while_,
            r.common == no_fields(),
    {
        ForTaskDefinition { for_, while_, do_, common: TaskDefinitionFields::new() }
    }
}

impl TaskDefinitionBase for ForTaskDefinition {
    fn task_type(&self) -> &str {
        TaskType::FOR
    }
}

/// The loop of a 'for' task: the item and index variables and the collection expression.
#[derive(Debug, PartialEq)]
pub struct ForLoopDefinition {
    pub each: String,
    pub in_: String,
    pub at: Option<String>,
    pub input: Option<InputDataModelDefinition>,
}

impl ForLoopDefinition {
    pub fn new(each: &str, in_: &str, at: Option<String>, input: Option<InputDataModelDefinition>) -> (r: Self)
        ensures
            r.each@ == each@,
            r.in_@ == in_@,
            r.at == at,
            r.input == input,
    {
        ForLoopDefinition { each: each.to_string(), in_: in_.to_string(), at, input }
    }
}

/// A task that runs branches concurrently.
#[derive(Debug, PartialEq)]
pub struct ForkTaskDefinition {
    pub fork: BranchingDefinition,
    pub common: TaskDefinitionFields,
}

impl ForkTaskDefinition {
    pub fn new(fork: BranchingDefinition) -> (r: Self)
        ensures
            r.fork == fork,
            r.common == no_fields(),
    {
        ForkTaskDefinition { fork, common: TaskDefinitionFields::new() }
    }
}

impl TaskDefinitionBase for ForkTaskDefinition {
    fn task_type(&self) -> &str {
        TaskType::FORK
    }
}

/// The branches of a 'fork' task; when `compete` holds, the first branch to finish wins.
#[derive(Debug, PartialEq)]
pub struct BranchingDefinition {
    pub branches: TaskMap,
    pub compete: bool,
}

impl BranchingDefinition {
    pub fn new(branches: TaskMap, compete: bool) -> (r: Self)
        ensures
            r.branches == branches,
            r.compete == compete,
    {
        BranchingDefinition { branches, compete }
    }
}

/// A task that waits for events.
#[derive(Debug, PartialEq)]
pub struct ListenTaskDefinition {
    pub listen: ListenerDefinition,
    pub foreach: Option<SubscriptionIteratorDefinition>,
    pub common: TaskDefinitionFields,
}

impl ListenTaskDefinition {
    pub fn new(listen: ListenerDefinition) -> (r: Self)
        ensures
            r.listen == listen,
            r.foreach is None,
            r.common == no_fields(),
    {
        ListenTaskDefinition { listen, foreach: None, common: TaskDefinitionFields::new() }
    }
}

impl TaskDefinitionBase for ListenTaskDefinition {
    fn task_type(&self) -> &str {
        TaskType::LISTEN
    }
}

/// The events a 'listen' task waits for.
#[derive(Debug, PartialEq)]
pub struct ListenerDefinition {
    pub to: EventConsumptionStrategyDefinition,
    pub read: Option<String>,
}

impl ListenerDefinition {
    pub fn new(to: EventConsumptionStrategyDefinition) -> (r: Self)
        ensures
            r.to == to,
            r.read is None,
    {
        ListenerDefinition { to, read: None }
    }
}

/// A task that raises an error.
#[derive(Debug, PartialEq)]
pub struct RaiseTaskDefinition {
    pub raise: RaiseErrorDefinition,
    pub common: TaskDefinitionFields,
}

impl RaiseTaskDefinition {
    pub fn new(raise: RaiseErrorDefinition) -> (r: Self)
        ensures
            r.raise == raise,
            r.common == no_fields(),
    {
        RaiseTaskDefinition { raise, common: TaskDefinitionFields::new() }
    }
}

impl TaskDefinitionBase for RaiseTaskDefinition {
    fn task_type(&self) -> &str {
        TaskType::RAISE
    }
}

/// The error that a 'raise' task raises.
#[derive(Debug, PartialEq)]
pub struct RaiseErrorDefinition {
    pub error: OneOfErrorDefinitionOrReference,
}

impl RaiseErrorDefinition {
    pub fn new(error: OneOfErrorDefinitionOrReference) -> (r: Self)
        ensures
            r.error == error,
    {
        RaiseErrorDefinition { error }
    }
}

/// A task that runs a process.
#[derive(Debug, PartialEq)]
pub struct RunTaskDefinition {
    pub run: ProcessTypeDefinition,
    pub common: TaskDefinitionFields,
}

impl RunTaskDefinition {
    pub fn new(run: ProcessTypeDefinition) -> (r: Self)
        ensures
            r.run == run,
            r.common == no_fields(),
    {
        RunTaskDefinition { run, common: TaskDefinitionFields::new() }
    }
}

impl TaskDefinitionBase for RunTaskDefinition {
    fn task_type(&self) -> &str {
        TaskType::RUN
    }
}

/// The process that a 'run' task starts. Exactly one of the four kinds is meant to be filled.
#[derive(Debug, PartialEq)]
pub struct ProcessTypeDefinition {
    pub container: Option<ContainerProcessDefinition>,
    pub script: Option<ScriptProcessDefinition>,
    pub shell: Option<ShellProcessDefinition>,
    pub workflow: Option<WorkflowProcessDefinition>,
    /// Whether to wait for the process to end; true when absent.
    pub await_: Option<bool>,
}

impl ProcessTypeDefinition {
    pub fn using_container(container: ContainerProcessDefinition, await_: Option<bool>) -> (r: Self)
        ensures
            r.container == Some(container),
            r.script is None && r.shell is None && r.workflow is None,
            r.await_ == await_,
    {
        ProcessTypeDefinition { container: Some(container), script: None, shell: None, workflow: None, await_ }
    }

    pub fn using_script(script: ScriptProcessDefinition, await_: Option<bool>) -> (r: Self)
        ensures
            r.script == Some(script),
            r.container is None && r.shell is None && r.workflow is None,
            r.await_ == await_,
    {
        ProcessTypeDefinition { container: None, script: Some(script), shell: None, workflow: None, await_ }
    }

    pub fn using_shell(shell: ShellProcessDefinition, await_: Option<bool>) -> (r: Self)
        ensures
            r.shell == Some(shell),
            r.container is None && r.script is None && r.workflow is None,
            r.await_ == await_,
    {
        ProcessTypeDefinition { container: None, script: None, shell: Some(shell), workflow: None, await_ }
    }

    pub fn using_workflow(workflow: WorkflowProcessDefinition, await_: Option<bool>) -> (r: Self)
        ensures
            r.workflow == Some(workflow),
            r.container is None && r.script is None && r.shell is None,
            r.await_ == await_,
    {
        ProcessTypeDefinition { container: None, script: None, shell: None, workflow: Some(workflow), await_ }
    }

    /// The kind of process: the first filled slot among container, script and shell, and
    /// workflow otherwise.
    pub fn get_process_type(&self) -> (r: &'static str)
        ensures
            r@ == if self.container is Some {
                ProcessType::CONTAINER@
            } else if self.script is Some {
                ProcessType::SCRIPT@
            } else if self.shell is Some {
                ProcessType::SHELL@
            } else {
                ProcessType::WORKFLOW@
            },
    {
        if self.container.is_some() {
            ProcessType::CONTAINER
        } else if self.script.is_some() {
            ProcessType::SCRIPT
        } else if self.shell.is_some() {
            ProcessType::SHELL
        } else {
            ProcessType::WORKFLOW
        }
    }
}

/// A container to run.
#[derive(Debug, PartialEq)]
pub struct ContainerProcessDefinition {
    pub image: String,
    pub name: Option<String>,
    pub command: Option<String>,
    /// Host port to container port.
    pub ports: Option<Vec<(u16, u16)>>,
    pub volumes: Option<Vec<(String, String)>>,
    pub environment: Option<Vec<(String, String)>>,
}

impl ContainerProcessDefinition {
    pub fn new(
        image: &str,
        name: Option<String>,
        command: Option<String>,
        ports: Option<Vec<(u16, u16)>>,
        volumes: Option<Vec<(String, String)>>,
        environment: Option<Vec<(String, String)>>,
    ) -> (r: Self)
        ensures
            r.image@ == image@,
            r.name == name,
            r.command == command,
            r.ports == ports,
            r.volumes == volumes,
            r.environment == environment,
    {
        ContainerProcessDefinition { image: image.to_string(), name, command, ports, volumes, environment }
    }
}

/// A script to run: its language, and its code inline or as an external resource.
#[derive(Debug, PartialEq)]
pub struct ScriptProcessDefinition {
    pub language: String,
    pub code: Option<String>,
    pub source: Option<ExternalResourceDefinition>,
    pub stdin: Option<String>,
    pub arguments: Option<Vec<String>>,
    pub environment: Option<Vec<(String, String)>>,
}

impl ScriptProcessDefinition {
    /// A script given by its code.
    pub fn from_code(
        language: &str,
        code: String,
        arguments: Option<Vec<String>>,
        environment: Option<Vec<(String, String)>>,
    ) -> (r: Self)
        ensures
            r.language@ == language@,
            r.code == Some(code),
            r.source is None,
            r.stdin is None,
            r.arguments == arguments,
            r.environment == environment,
    {
        ScriptProcessDefinition {
            language: language.to_string(),
            code: Some(code),
            source: None,
            stdin: None,
            arguments,
            environment,
        }
    }

    /// A script read from an external resource.
    pub fn from_source(
        language: &str,
        source: ExternalResourceDefinition,
        arguments: Option<Vec<String>>,
        environment: Option<Vec<(String, String)>>,
    ) -> (r: Self)
        ensures
            r.language@ == language@,
            r.code is None,
            r.source == Some(source),
            r.stdin is None,
            r.arguments == arguments,
            r.environment == environment,
    {
        ScriptProcessDefinition {
            language: language.to_string(),
            code: None,
            source: Some(source),
            stdin: None,
            arguments,
            environment,
        }
    }
}

/// A shell command to run.
#[derive(Debug, PartialEq)]
pub struct ShellProcessDefinition {
    pub command: String,
    pub arguments: Option<Vec<String>>,
    pub environment: Option<Vec<(String, String)>>,
}

impl ShellProcessDefinition {
    pub fn new(
        command: &str,
        arguments: Option<Vec<String>>,
        environment: Option<Vec<(String, String)>>,
    ) -> (r: Self)
        ensures
            r.command@ == command@,
            r.arguments == arguments,
            r.environment == environment,
    {
        ShellProcessDefinition { command: command.to_string(), arguments, environment }
    }
}

/// Another workflow to run, by namespace, name and version.
#[derive(Debug, PartialEq)]
pub struct WorkflowProcessDefinition {
    pub namespace: String,
    pub name: String,
    pub version: String,
    pub input: Option<AnyValue>,
}

impl WorkflowProcessDefinition {
    pub fn new(namespace: &str, name: &str, version: &str, input: Option<AnyValue>) -> (r: Self)
        ensures
            r.namespace@ == namespace@,
            r.name@ == name@,
            r.version@ == version@,
            r.input == input,
    {
        WorkflowProcessDefinition {
            namespace: namespace.to_string(),
            name: name.to_string(),
            version: version.to_string(),
            input,
        }
    }
}

/// What a 'set' task sets: named values, or one runtime expression.
#[derive(Debug, PartialEq)]
pub enum SetValue {
    Entries(Vec<(String, AnyValue)>),
    Expression(String),
}

/// A task that sets data.
#[derive(Debug, PartialEq)]
pub struct SetTaskDefinition {
    pub set: SetValue,
    pub common: TaskDefinitionFields,
}

impl SetTaskDefinition {
    /// A task that sets nothing yet.
    pub fn new() -> (r: Self)
        ensures
            r.set is Entries && r.set->Entries_0@.len() == 0,
            r.common == no_fields(),
    {
        SetTaskDefinition { set: SetValue::Entries(Vec::new()), common: TaskDefinitionFields::new() }
    }
}

impl TaskDefinitionBase for SetTaskDefinition {
    fn task_type(&self) -> &str {
        TaskType::SET
    }
}

/// A task that picks the first matching case.
#[derive(Debug, PartialEq)]
pub struct SwitchTaskDefinition {
    pub switch: OrderedMap<String, SwitchCaseDefinition>,
    pub common: TaskDefinitionFields,
}

impl SwitchTaskDefinition {
    pub fn new() -> (r: Self)
        ensures
            r.switch@.len() == 0,
            r.common == no_fields(),
    {
        SwitchTaskDefinition { switch: OrderedMap::new(), common: TaskDefinitionFields::new() }
    }
}

impl TaskDefinitionBase for SwitchTaskDefinition {
    fn task_type(&self) -> &str {
        TaskType::SWITCH
    }
}

/// A case of a 'switch' task: a condition and what to do when it holds.
#[derive(Debug, Clone, PartialEq)]
pub struct SwitchCaseDefinition {
    pub when: Option<String>,
    pub then_: Option<String>,
}

/// A task that runs subtasks and handles their errors.
#[derive(Debug, PartialEq)]
pub struct TryTaskDefinition {
    pub try_: TaskMap,
    pub catch: ErrorCatcherDefinition,
    pub common: TaskDefinitionFields,
}

impl TryTaskDefinition {
    pub fn new(try_: TaskMap, catch: ErrorCatcherDefinition) -> (r: Self)
        ensures
            r.try_ == try_,
            r.catch == catch,
            r.common == no_fields(),
    {
        TryTaskDefinition { try_, catch, common: TaskDefinitionFields::new() }
    }
}

impl TaskDefinitionBase for TryTaskDefinition {
    fn task_type(&self) -> &str {
        TaskType::TRY
    }
}

/// Which errors a 'try' task catches, and what it does with them.
#[derive(Debug, PartialEq)]
pub struct ErrorCatcherDefinition {
    pub errors: Option<ErrorFilterDefinition>,
    pub as_: Option<String>,
    pub when: Option<String>,
    pub except_when: Option<String>,
    pub retry: Option<OneOfRetryPolicyDefinitionOrReference>,
    pub do_: Option<TaskMap>,
}

impl ErrorCatcherDefinition {
    /// A catcher with nothing set.
    pub open spec fn empty() -> Self {
        ErrorCatcherDefinition { errors: None, as_: None, when: None, except_when: None, retry: None, do_: None }
    }

    pub fn new() -> (r: Self)
        ensures
            r == Self::empty(),
    {
        ErrorCatcherDefinition { errors: None, as_: None, when: None, except_when: None, retry: None, do_: None }
    }
}

/// A filter on errors, by their attributes.
#[derive(Debug, PartialEq)]
pub struct ErrorFilterDefinition {
    pub with: Option<Vec<(String, AnyValue)>>,
}

/// A task that waits for a length of time.
#[derive(Debug, PartialEq)]
pub struct WaitTaskDefinition {
    pub wait: OneOfDurationOrIso8601Expression,
    pub common: TaskDefinitionFields,
}

impl WaitTaskDefinition {
    pub fn new(wait: OneOfDurationOrIso8601Expression) -> (r: Self)
        ensures
            r.wait == wait,
            r.common == no_fields(),
    {
        WaitTaskDefinition { wait, common: TaskDefinitionFields::new() }
    }
}

impl TaskDefinitionBase for WaitTaskDefinition {
    fn task_type(&self) -> &str {
        TaskType::WAIT
    }
}

/// How a 'listen' task handles each event it consumes.
#[derive(Debug, PartialEq)]
pub struct SubscriptionIteratorDefinition {
    pub item: Option<String>,
    pub at: Option<String>,
    pub do_: Option<TaskMap>,
    pub output: Option<OutputDataModelDefinition>,
    pub export: Option<OutputDataModelDefinition>,
}

impl SubscriptionIteratorDefinition {
    /// An iterator with nothing set.
    pub open spec fn empty() -> Self {
        SubscriptionIteratorDefinition { item: None, at: None, do_: None, output: None, export: None }
    }

    pub fn new() -> (r: Self)
        ensures
            r == Self::empty(),
    {
        SubscriptionIteratorDefinition { item: None, at: None, do_: None, output: None, export: None }
    }
}

} // verus!
