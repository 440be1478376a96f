use vstd::prelude::*;
use crate::auth_builder::{holds_str, AuthenticationPolicyDefinitionBuilder};
use crate::duration::{Duration, OneOfDurationOrIso8601Expression, empty_duration};
use crate::entries::{entries_or_empty, insert_optional_entry, keys_unique, put_entry};
use crate::error::{ErrorDefinition, OneOfErrorDefinitionOrReference};
use crate::event::{
    EventConsumptionStrategyDefinition, EventDefinition, EventFilterDefinition,
    OneOfEventConsumptionStrategyDefinitionOrExpression,
};
use crate::map::OrderedMap;
use crate::resource::{
    EndpointDefinition, ExternalResourceDefinition, InputDataModelDefinition,
    OneOfEndpointDefinitionUri, OutputDataModelDefinition, SchemaDefinition, default_schema_format,
};
use crate::retry::{
    BackoffStrategyDefinition, ConstantBackoffDefinition, ExponentialBackoffDefinition,
    JitterDefinition, LinearBackoffDefinition, OneOfRetryPolicyDefinitionOrReference,
    RetryAttemptLimitDefinition, RetryPolicyDefinition, RetryPolicyLimitDefinition,
};
use crate::task::{
    BranchingDefinition, CallTaskDefinition, ContainerProcessDefinition, DoTaskDefinition,
    EmitTaskDefinition, ErrorCatcherDefinition, ErrorFilterDefinition, EventEmissionDefinition,
    ForLoopDefinition, ForTaskDefinition, ForkTaskDefinition, ListenTaskDefinition,
    ListenerDefinition, ProcessTypeDefinition, RaiseErrorDefinition, RaiseTaskDefinition,
    RunTaskDefinition, ScriptProcessDefinition, SetTaskDefinition, SetValue,
    ShellProcessDefinition, SubscriptionIteratorDefinition, SwitchCaseDefinition,
    SwitchTaskDefinition, TaskDefinition, TaskDefinitionFields, TaskMap, TryTaskDefinition,
    WaitTaskDefinition, WorkflowProcessDefinition, no_fields,
};
use crate::timeout::OneOfTimeoutDefinitionOrReference;
use crate::timeout_builder::TimeoutDefinitionBuilder;
use crate::value::AnyValue;

verus! {

/// `new` is `old` with one more entry at the end, named `name`.
pub open spec fn appended<V>(new: Seq<(String, V)>, old: Seq<(String, V)>, name: &str) -> bool {
    &&& new.len() == old.len() + 1
    &&& new.subrange(0, old.len() as int) == old
    &&& new.last().0@ == name@
}

/// What every task builder offers: the fields common to all tasks, and `build`.
pub trait TaskDefinitionBuilderBase: Sized {
    /// The common fields configured so far.
    spec fn fields(&self) -> TaskDefinitionFields;

    /// The builder with its common fields replaced.
    spec fn with_fields(&self, f: TaskDefinitionFields) -> Self;

    /// Whether `build` may be called: every required choice was made.
    spec fn buildable(&self) -> bool;

    /// The task that `build` yields.
    spec fn result(&self) -> TaskDefinition;

    /// Replacing the common fields replaces them and nothing else.
    proof fn lemma_fields_with(&self, f: TaskDefinitionFields)
        ensures
            self.with_fields(f).fields() == f,
            self.with_fields(f).buildable() == self.buildable();

    /// The common fields, to change in place.
    fn common_mut(&mut self) -> (r: &mut TaskDefinitionFields)
        ensures
            *r == old(self).fields(),
            *final(self) == old(self).with_fields(*final(r));

    /// The configured task.
    fn build(self) -> (r: TaskDefinition)
        requires
            self.buildable(),
        ensures
            r == self.result();

    /// Runs the task only when the condition holds.
    fn if_(&mut self, condition: &str) -> (r: &mut Self)
        ensures
            *r == old(self).with_fields(r.fields()),
            r.fields() == (TaskDefinitionFields { if_: r.fields().if_, ..old(self).fields() }),
            holds_str(r.fields().if_, condition),
            *final(self) == *final(r),
    {
        let ghost before = *self;
        let c = self.common_mut();
        c.if_ = Some(condition.to_string());
        proof {
            before.lemma_fields_with(*c);
        }
        self
    }

    /// Uses the reusable timeout of the given name.
    fn with_timeout_reference(&mut self, reference: &str) -> (r: &mut Self)
        ensures
            *r == old(self).with_fields(r.fields()),
            r.fields() == (TaskDefinitionFields { timeout: r.fields().timeout, ..old(self).fields() }),
            r.fields().timeout matches Some(OneOfTimeoutDefinitionOrReference::Reference(n)) && n@ == reference@,
            *final(self) == *final(r),
    {
        let ghost before = *self;
        let c = self.common_mut();
        c.timeout = Some(OneOfTimeoutDefinitionOrReference::Reference(reference.to_string()));
        proof {
            before.lemma_fields_with(*c);
        }
        self
    }

    /// Sets the timeout, as configured by `setup`.
    fn with_timeout<F>(&mut self, setup: F) -> (r: &mut Self)
        where
            F: FnOnce(&mut TimeoutDefinitionBuilder),
        requires
            forall|b: &mut TimeoutDefinitionBuilder| setup.requires((b,)),
        ensures
            *r == old(self).with_fields(r.fields()),
            r.fields() == (TaskDefinitionFields { timeout: r.fields().timeout, ..old(self).fields() }),
            r.fields().timeout matches Some(OneOfTimeoutDefinitionOrReference::Timeout(_)),
            exists|b: &mut TimeoutDefinitionBuilder| #[trigger] setup.ensures((b,), ()) && b.is_fresh()
                && r.fields().timeout == Some(OneOfTimeoutDefinitionOrReference::Timeout(final(b).value())),
            *final(self) == *final(r),
    {
        let mut builder = TimeoutDefinitionBuilder::new();
        setup(&mut builder);
        let v = builder.build();
        let ghost before = *self;
        let c = self.common_mut();
        c.timeout = Some(OneOfTimeoutDefinitionOrReference::Timeout(v));
        proof {
            before.lemma_fields_with(*c);
        }
        self
    }

    /// Sets the input, as configured by `setup`.
    fn with_input<F>(&mut self, setup: F) -> (r: &mut Self)
        where
            F: FnOnce(&mut InputDataModelDefinitionBuilder),
        requires
            forall|b: &mut InputDataModelDefinitionBuilder| setup.requires((b,)),
        ensures
            *r == old(self).with_fields(r.fields()),
            r.fields() == (TaskDefinitionFields { input: r.fields().input, ..old(self).fields() }),
            r.fields().input is Some,
            exists|b: &mut InputDataModelDefinitionBuilder| #[trigger] setup.ensures((b,), ()) && b.is_fresh()
                && r.fields().input == Some(final(b).value()),
            *final(self) == *final(r),
    {
        let mut builder = InputDataModelDefinitionBuilder::new();
        setup(&mut builder);
        let v = builder.build();
        let ghost before = *self;
        let c = self.common_mut();
        c.input = Some(v);
        proof {
            before.lemma_fields_with(*c);
        }
        self
    }

    /// Sets the output, as configured by `setup`.
    fn with_output<F>(&mut self, setup: F) -> (r: &mut Self)
        where
            F: FnOnce(&mut OutputDataModelDefinitionBuilder),
        requires
            forall|b: &mut OutputDataModelDefinitionBuilder| setup.requires((b,)),
        ensures
            *r == old(self).with_fields(r.fields()),
            r.fields() == (TaskDefinitionFields { output: r.fields().output, ..old(self).fields() }),
            r.fields().output is Some,
            exists|b: &mut OutputDataModelDefinitionBuilder| #[trigger] setup.ensures((b,), ()) && b.is_fresh()
                && r.fields().output == Some(final(b).value()),
            *final(self) == *final(r),
    {
        let mut builder = OutputDataModelDefinitionBuilder::new();
        setup(&mut builder);
        let v = builder.build();
        let ghost before = *self;
        let c = self.common_mut();
        c.output = Some(v);
        proof {
            before.lemma_fields_with(*c);
        }
        self
    }

    /// Sets the export, as configured by `setup`.
    fn with_export<F>(&mut self, setup: F) -> (r: &mut Self)
        where
            F: FnOnce(&mut OutputDataModelDefinitionBuilder),
        requires
            forall|b: &mut OutputDataModelDefinitionBuilder| setup.requires((b,)),
        ensures
            *r == old(self).with_fields(r.fields()),
            r.fields() == (TaskDefinitionFields { export: r.fields().export, ..old(self).fields() }),
            r.fields().export is Some,
            exists|b: &mut OutputDataModelDefinitionBuilder| #[trigger] setup.ensures((b,), ()) && b.is_fresh()
                && r.fields().export == Some(final(b).value()),
            *final(self) == *final(r),
    {
        let mut builder = OutputDataModelDefinitionBuilder::new();
        setup(&mut builder);
        let v = builder.build();
        let ghost before = *self;
        let c = self.common_mut();
        c.export = Some(v);
        proof {
            before.lemma_fields_with(*c);
        }
        self
    }

    /// Sets what to do once the task is done.
    fn then_(&mut self, directive: &str) -> (r: &mut Self)
        ensures
            *r == old(self).with_fields(r.fields()),
            r.fields() == (TaskDefinitionFields { then_: r.fields().then_, ..old(self).fields() }),
            holds_str(r.fields().then_, directive),
            *final(self) == *final(r),
    {
        let ghost before = *self;
        let c = self.common_mut();
        c.then_ = Some(directive.to_string());
        proof {
            before.lemma_fields_with(*c);
        }
        self
    }
}

/// Builds a task of any kind: select the kind, then configure it. Selecting a kind replaces the
/// one selected before.
pub struct GenericTaskDefinitionBuilder {
    pub builder: Option<TaskDefinitionBuilder>,
}

/// The builder of the selected task kind.
pub enum TaskDefinitionBuilder {
    Call(CalltaskDefinitionBuilder),
    Do(DoTaskDefinitionBuilder),
    Emit(EmitTaskDefinitionBuilder),
    For(ForTaskDefinitionBuilder),
    Fork(ForkTaskDefinitionBuilder),
    Listen(ListenTaskDefinitionBuilder),
    Raise(RaiseTaskDefinitionBuilder),
    Run(RunTaskDefinitionBuilder),
    SetData(SetTaskDefinitionBuilder),
    Switch(SwitchTaskDefinitionBuilder),
    Try(TryTaskDefinitionBuilder),
    Wait(WaitTaskDefinitionBuilder),
}

impl GenericTaskDefinitionBuilder {
    /// Whether a kind was selected, and its builder is ready.
    pub open spec fn buildable(&self) -> bool {
        match self.builder {
            Some(b) => match b {
                TaskDefinitionBuilder::Call(x) => x.buildable(),
                TaskDefinitionBuilder::Do(x) => x.buildable(),
                TaskDefinitionBuilder::Emit(x) => x.buildable(),
                TaskDefinitionBuilder::For(x) => x.buildable(),
                TaskDefinitionBuilder::Fork(x) => x.buildable(),
                TaskDefinitionBuilder::Listen(x) => x.buildable(),
                TaskDefinitionBuilder::Raise(x) => x.buildable(),
                TaskDefinitionBuilder::Run(x) => x.buildable(),
                TaskDefinitionBuilder::SetData(x) => x.buildable(),
                TaskDefinitionBuilder::Switch(x) => x.buildable(),
                TaskDefinitionBuilder::Try(x) => x.buildable(),
                TaskDefinitionBuilder::Wait(x) => x.buildable(),
            },
            None => false,
        }
    }

    /// The task that `build` yields.
    pub open spec fn result(&self) -> TaskDefinition {
        match self.builder->0 {
            TaskDefinitionBuilder::Call(x) => x.result(),
            TaskDefinitionBuilder::Do(x) => x.result(),
            TaskDefinitionBuilder::Emit(x) => x.result(),
            TaskDefinitionBuilder::For(x) => x.result(),
            TaskDefinitionBuilder::Fork(x) => x.result(),
            TaskDefinitionBuilder::Listen(x) => x.result(),
            TaskDefinitionBuilder::Raise(x) => x.result(),
            TaskDefinitionBuilder::Run(x) => x.result(),
            TaskDefinitionBuilder::SetData(x) => x.result(),
            TaskDefinitionBuilder::Switch(x) => x.result(),
            TaskDefinitionBuilder::Try(x) => x.result(),
            TaskDefinitionBuilder::Wait(x) => x.result(),
        }
    }

    pub fn new() -> (r: Self)
        ensures
            r.builder is None,
    {
        GenericTaskDefinitionBuilder { builder: None }
    }

    /// Makes the task call the given function.
    pub fn call(&mut self, function: &str) -> (r: &mut CalltaskDefinitionBuilder)
        ensures
            r.task.call@ == function@ && r.task.with is None && r.task.await_ is None && r.task.common == no_fields(),
            final(self).builder == Some(TaskDefinitionBuilder::Call(*final(r))),
    {
        self.builder = Some(TaskDefinitionBuilder::Call(CalltaskDefinitionBuilder::new(function)));
        match &mut self.builder {
            Some(TaskDefinitionBuilder::Call(b)) => b,
            _ => vstd::pervasive::unreached(),
        }
    }

    /// Makes the task run subtasks in order.
    pub fn do_(&mut self) -> (r: &mut DoTaskDefinitionBuilder)
        ensures
            r.task.do_@.len() == 0 && r.task.common == no_fields(),
            final(self).builder == Some(TaskDefinitionBuilder::Do(*final(r))),
    {
        self.builder = Some(TaskDefinitionBuilder::Do(DoTaskDefinitionBuilder::new()));
        match &mut self.builder {
            Some(TaskDefinitionBuilder::Do(b)) => b,
            _ => vstd::pervasive::unreached(),
        }
    }

    /// Makes the task publish the event configured by `setup`.
    pub fn emit<F>(&mut self, setup: F) -> (r: &mut EmitTaskDefinitionBuilder)
        where
            F: FnOnce(&mut EventDefinitionBuilder),
        requires
            forall|b: &mut EventDefinitionBuilder| setup.requires((b,)),
        ensures
            r.task.common == no_fields(),
            exists|b: &mut EventDefinitionBuilder| #[trigger] setup.ensures((b,), ()) && b.is_fresh()
                && r.task.emit.event == final(b).value(),
            final(self).builder == Some(TaskDefinitionBuilder::Emit(*final(r))),
    {
        let mut event_builder = EventDefinitionBuilder::new();
        setup(&mut event_builder);
        let event = event_builder.build();
        self.builder = Some(TaskDefinitionBuilder::Emit(EmitTaskDefinitionBuilder::new(event)));
        match &mut self.builder {
            Some(TaskDefinitionBuilder::Emit(b)) => b,
            _ => vstd::pervasive::unreached(),
        }
    }

    /// Makes the task iterate over a collection.
    pub fn for_(&mut self) -> (r: &mut ForTaskDefinitionBuilder)
        ensures
            r.task.do_@.len() == 0 && r.task.common == no_fields(),
            final(self).builder == Some(TaskDefinitionBuilder::For(*final(r))),
    {
        self.builder = Some(TaskDefinitionBuilder::For(ForTaskDefinitionBuilder::new()));
        match &mut self.builder {
            Some(TaskDefinitionBuilder::For(b)) => b,
            _ => vstd::pervasive::unreached(),
        }
    }

    /// Makes the task run branches concurrently.
    pub fn fork(&mut self) -> (r: &mut ForkTaskDefinitionBuilder)
        ensures
            r.task.fork.branches@.len() == 0 && r.task.common == no_fields(),
            final(self).builder == Some(TaskDefinitionBuilder::Fork(*final(r))),
    {
        self.builder = Some(TaskDefinitionBuilder::Fork(ForkTaskDefinitionBuilder::new()));
        match &mut self.builder {
            Some(TaskDefinitionBuilder::Fork(b)) => b,
            _ => vstd::pervasive::unreached(),
        }
    }

    /// Makes the task wait for events.
    pub fn listen(&mut self) -> (r: &mut ListenTaskDefinitionBuilder)
        ensures
            !r.buildable() && r.common == no_fields(),
            final(self).builder == Some(TaskDefinitionBuilder::Listen(*final(r))),
    {
        self.builder = Some(TaskDefinitionBuilder::Listen(ListenTaskDefinitionBuilder::new()));
        match &mut self.builder {
            Some(TaskDefinitionBuilder::Listen(b)) => b,
            _ => vstd::pervasive::unreached(),
        }
    }

    /// Makes the task raise an error.
    pub fn raise(&mut self) -> (r: &mut RaiseTaskDefinitionBuilder)
        ensures
            !r.buildable() && r.common == no_fields(),
            final(self).builder == Some(TaskDefinitionBuilder::Raise(*final(r))),
    {
        self.builder = Some(TaskDefinitionBuilder::Raise(RaiseTaskDefinitionBuilder::new()));
        match &mut self.builder {
            Some(TaskDefinitionBuilder::Raise(b)) => b,
            _ => vstd::pervasive::unreached(),
        }
    }

    /// Makes the task run a process.
    pub fn run(&mut self) -> (r: &mut RunTaskDefinitionBuilder)
        ensures
            !r.buildable() && r.common == no_fields(),
            final(self).builder == Some(TaskDefinitionBuilder::Run(*final(r))),
    {
        self.builder = Some(TaskDefinitionBuilder::Run(RunTaskDefinitionBuilder::new()));
        match &mut self.builder {
            Some(TaskDefinitionBuilder::Run(b)) => b,
            _ => vstd::pervasive::unreached(),
        }
    }

    /// Makes the task set data.
    pub fn set(&mut self) -> (r: &mut SetTaskDefinitionBuilder)
        ensures
            r.task.set is Entries && r.task.common == no_fields(),
            final(self).builder == Some(TaskDefinitionBuilder::SetData(*final(r))),
    {
        self.builder = Some(TaskDefinitionBuilder::SetData(SetTaskDefinitionBuilder::new()));
        match &mut self.builder {
            Some(TaskDefinitionBuilder::SetData(b)) => b,
            _ => vstd::pervasive::unreached(),
        }
    }

    /// Makes the task pick the first matching case.
    pub fn switch(&mut self) -> (r: &mut SwitchTaskDefinitionBuilder)
        ensures
            r.task.switch@.len() == 0 && r.task.common == no_fields(),
            final(self).builder == Some(TaskDefinitionBuilder::Switch(*final(r))),
    {
        self.builder = Some(TaskDefinitionBuilder::Switch(SwitchTaskDefinitionBuilder::new()));
        match &mut self.builder {
            Some(TaskDefinitionBuilder::Switch(b)) => b,
            _ => vstd::pervasive::unreached(),
        }
    }

    /// Makes the task run subtasks and handle their errors.
    pub fn try_(&mut self) -> (r: &mut TryTaskDefinitionBuilder)
        ensures
            r.task.try_@.len() == 0 && r.task.common == no_fields(),
            final(self).builder == Some(TaskDefinitionBuilder::Try(*final(r))),
    {
        self.builder = Some(TaskDefinitionBuilder::Try(TryTaskDefinitionBuilder::new()));
        match &mut self.builder {
            Some(TaskDefinitionBuilder::Try(b)) => b,
            _ => vstd::pervasive::unreached(),
        }
    }

    /// Makes the task wait for the given length of time.
    pub fn wait(&mut self, duration: OneOfDurationOrIso8601Expression) -> (r: &mut WaitTaskDefinitionBuilder)
        ensures
            r.task.wait == duration && r.task.common == no_fields(),
            final(self).builder == Some(TaskDefinitionBuilder::Wait(*final(r))),
    {
        self.builder = Some(TaskDefinitionBuilder::Wait(WaitTaskDefinitionBuilder::new(duration)));
        match &mut self.builder {
            Some(TaskDefinitionBuilder::Wait(b)) => b,
            _ => vstd::pervasive::unreached(),
        }
    }

    /// The configured task. A kind must have been selected, and configured as far as it
    /// requires.
    pub fn build(self) -> (r: TaskDefinition)
        requires
            self.buildable(),
        ensures
            r == self.result(),
    {
        match self.builder {
            Some(builder) => match builder {
                TaskDefinitionBuilder::Call(b) => b.build(),
                TaskDefinitionBuilder::Do(b) => b.build(),
                TaskDefinitionBuilder::Emit(b) => b.build(),
                TaskDefinitionBuilder::For(b) => b.build(),
                TaskDefinitionBuilder::Fork(b) => b.build(),
                TaskDefinitionBuilder::Listen(b) => b.build(),
                TaskDefinitionBuilder::Raise(b) => b.build(),
                TaskDefinitionBuilder::Run(b) => b.build(),
                TaskDefinitionBuilder::SetData(b) => b.build(),
                TaskDefinitionBuilder::Switch(b) => b.build(),
                TaskDefinitionBuilder::Try(b) => b.build(),
                TaskDefinitionBuilder::Wait(b) => b.build(),
            },
            None => vstd::pervasive::unreached(),
        }
    }

    /// The configured task, or `None` when it is not ready to be built.
    pub fn try_build(self) -> (r: Option<TaskDefinition>)
        ensures
            self.buildable() ==> r == Some(self.result()),
            !self.buildable() ==> r is None,
    {
        if self.is_ready() {
            Some(self.build())
        } else {
            None
        }
    }

    /// Whether the task is ready to be built.
    pub fn is_ready(&self) -> (r: bool)
        ensures
            r == self.buildable(),
    {
        match &self.builder {
            Some(TaskDefinitionBuilder::Raise(b)) => b.builder.is_some() || b.reference.is_some(),
            Some(TaskDefinitionBuilder::Run(b)) => b.builder.is_some(),
            Some(TaskDefinitionBuilder::Listen(b)) => b.to.is_some(),
            Some(_) => true,
            None => false,
        }
    }
}

/// Builds a 'call' task.
pub struct CalltaskDefinitionBuilder {
    pub task: CallTaskDefinition,
}

impl CalltaskDefinitionBuilder {
    pub fn new(function: &str) -> (r: Self)
        ensures
            r.task.call@ == function@,
            r.task.with is None,
            r.task.await_ is None,
            r.task.common == no_fields(),
    {
        CalltaskDefinitionBuilder { task: CallTaskDefinition::new(function, None, None) }
    }

    /// Sets the argument of the given name.
    pub fn with(&mut self, name: &str, value: AnyValue) -> (r: &mut Self)
        ensures
            r.task.with is Some,
            exists|k: String, v: AnyValue| k@ == name@ && v == value && entries_or_empty(r.task.with)
                == put_entry(entries_or_empty(old(self).task.with), k, v),
            r.task == (CallTaskDefinition { with: r.task.with, ..old(self).task }),
            *final(self) == *final(r),
    {
        insert_optional_entry(&mut self.task.with, name.to_string(), value);
        self
    }

    /// Sets all the arguments.
    pub fn with_arguments(&mut self, arguments: Vec<(String, AnyValue)>) -> (r: &mut Self)
        requires
            keys_unique(arguments@),
        ensures
            r.task.with == Some(arguments),
            r.task == (CallTaskDefinition { with: r.task.with, ..old(self).task }),
            *final(self) == *final(r),
    {
        self.task.with = Some(arguments);
        self
    }
}

impl TaskDefinitionBuilderBase for CalltaskDefinitionBuilder {
    open spec fn fields(&self) -> TaskDefinitionFields {
        self.task.common
    }

    open spec fn with_fields(&self, f: TaskDefinitionFields) -> Self {
        CalltaskDefinitionBuilder { task: CallTaskDefinition { common: f, ..self.task } }
    }

    open spec fn buildable(&self) -> bool {
        true
    }

    open spec fn result(&self) -> TaskDefinition {
        TaskDefinition::Call(self.task)
    }

    proof fn lemma_fields_with(&self, f: TaskDefinitionFields) {
        assert(self.with_fields(f).buildable() == self.buildable());
    }

    fn common_mut(&mut self) -> (r: &mut TaskDefinitionFields) {
        &mut self.task.common
    }

    fn build(self) -> (r: TaskDefinition) {
        TaskDefinition::Call(self.task)
    }
}

/// Builds a 'do' task.
pub struct DoTaskDefinitionBuilder {
    pub task: DoTaskDefinition,
}

impl DoTaskDefinitionBuilder {
    pub fn new() -> (r: Self)
        ensures
            r.task.do_@.len() == 0,
            r.task.common == no_fields(),
    {
        DoTaskDefinitionBuilder { task: DoTaskDefinition::new(OrderedMap::new()) }
    }

    /// Appends a subtask of the given name, as configured by `setup`.
    pub fn do_<F>(&mut self, name: &str, setup: F) -> (r: &mut Self)
        where
            F: FnOnce(&mut GenericTaskDefinitionBuilder),
        requires
            forall|b: &mut GenericTaskDefinitionBuilder| setup.requires((b,)),
            forall|b: &mut GenericTaskDefinitionBuilder| #[trigger] setup.ensures((b,), ()) ==> final(b).buildable(),
        ensures
            appended(r.task.do_@, old(self).task.do_@, name),
            exists|b: &mut GenericTaskDefinitionBuilder| #[trigger] setup.ensures((b,), ()) && b.is_fresh()
                && (exists|k: String| k@ == name@ && r.task.do_@ == old(self).task.do_@.push((k, final(b).value()))),
            r.task.common == old(self).task.common,
            *final(self) == *final(r),
    {
        let mut builder = GenericTaskDefinitionBuilder::new();
        setup(&mut builder);
        let task = builder.build();
        self.task.do_.add(name.to_string(), task);
        proof {
            assert(self.task.do_@.subrange(0, old(self).task.do_@.len() as int)
                =~= old(self).task.do_@);
        }
        self
    }
}

impl TaskDefinitionBuilderBase for DoTaskDefinitionBuilder {
    open spec fn fields(&self) -> TaskDefinitionFields {
        self.task.common
    }

    open spec fn with_fields(&self, f: TaskDefinitionFields) -> Self {
        DoTaskDefinitionBuilder { task: DoTaskDefinition { common: f, ..self.task } }
    }

    open spec fn buildable(&self) -> bool {
        true
    }

    open spec fn result(&self) -> TaskDefinition {
        TaskDefinition::Do(self.task)
    }

    proof fn lemma_fields_with(&self, f: TaskDefinitionFields) {
        assert(self.with_fields(f).buildable() == self.buildable());
    }

    fn common_mut(&mut self) -> (r: &mut TaskDefinitionFields) {
        &mut self.task.common
    }

    fn build(self) -> (r: TaskDefinition) {
        TaskDefinition::Do(self.task)
    }
}

/// Builds an 'emit' task.
pub struct EmitTaskDefinitionBuilder {
    pub task: EmitTaskDefinition,
}

impl EmitTaskDefinitionBuilder {
    pub fn new(event: EventDefinition) -> (r: Self)
        ensures
            r.task.emit.event == event,
            r.task.common == no_fields(),
    {
        EmitTaskDefinitionBuilder { task: EmitTaskDefinition::new(EventEmissionDefinition::new(event)) }
    }
}

impl TaskDefinitionBuilderBase for EmitTaskDefinitionBuilder {
    open spec fn fields(&self) -> TaskDefinitionFields {
        self.task.common
    }

    open spec fn with_fields(&self, f: TaskDefinitionFields) -> Self {
        EmitTaskDefinitionBuilder { task: EmitTaskDefinition { common: f, ..self.task } }
    }

    open spec fn buildable(&self) -> bool {
        true
    }

    open spec fn result(&self) -> TaskDefinition {
        TaskDefinition::Emit(self.task)
    }

    proof fn lemma_fields_with(&self, f: TaskDefinitionFields) {
        assert(self.with_fields(f).buildable() == self.buildable());
    }

    fn common_mut(&mut self) -> (r: &mut TaskDefinitionFields) {
        &mut self.task.common
    }

    fn build(self) -> (r: TaskDefinition) {
        TaskDefinition::Emit(self.task)
    }
}

/// Builds a 'for' task.
pub struct ForTaskDefinitionBuilder {
    pub task: ForTaskDefinition,
}

impl ForTaskDefinitionBuilder {
    pub fn new() -> (r: Self)
        ensures
            r.task.for_.each@.len() == 0 && r.task.for_.in_@.len() == 0,
            r.task.for_.at is None && r.task.for_.input is None && r.task.while_ is None,
            r.task.do_@.len() == 0,
            r.task.common == no_fields(),
    {
        proof {
            reveal_strlit("");
        }
        ForTaskDefinitionBuilder {
            task: ForTaskDefinition::new(ForLoopDefinition::new("", "", None, None), OrderedMap::new(), None),
        }
    }

    /// Names the variable that holds each item.
    pub fn each(&mut self, variable_name: &str) -> (r: &mut Self)
        ensures
            r.task.for_.each@ == variable_name@,
            r.task.for_ == (ForLoopDefinition { each: r.task.for_.each, ..old(self).task.for_ }),
            r.task == (ForTaskDefinition { for_: r.task.for_, ..old(self).task }),
            *final(self) == *final(r),
    {
        self.task.for_.each = variable_name.to_string();
        self
    }

    /// Sets the expression of the collection to iterate over.
    pub fn in_(&mut self, expression: &str) -> (r: &mut Self)
        ensures
            r.task.for_.in_@ == expression@,
            r.task.for_ == (ForLoopDefinition { in_: r.task.for_.in_, ..old(self).task.for_ }),
            r.task == (ForTaskDefinition { for_: r.task.for_, ..old(self).task }),
            *final(self) == *final(r),
    {
        self.task.for_.in_ = expression.to_string();
        self
    }

    /// Names the variable that holds each item's index.
    pub fn at(&mut self, variable_name: &str) -> (r: &mut Self)
        ensures
            holds_str(r.task.for_.at, variable_name),
            r.task.for_ == (ForLoopDefinition { at: r.task.for_.at, ..old(self).task.for_ }),
            r.task == (ForTaskDefinition { for_: r.task.for_, ..old(self).task }),
            *final(self) == *final(r),
    {
        self.task.for_.at = Some(variable_name.to_string());
        self
    }

    /// Sets the condition for the iteration to go on.
    pub fn while_(&mut self, condition: &str) -> (r: &mut Self)
        ensures
            holds_str(r.task.while_, condition),
            r.task == (ForTaskDefinition { while_: r.task.while_, ..old(self).task }),
            *final(self) == *final(r),
    {
        self.task.while_ = Some(condition.to_string());
        self
    }

    /// Appends a subtask of the given name, as configured by `setup`.
    pub fn do_<F>(&mut self, name: &str, setup: F) -> (r: &mut Self)
        where
            F: FnOnce(&mut GenericTaskDefinitionBuilder),
        requires
            forall|b: &mut GenericTaskDefinitionBuilder| setup.requires((b,)),
            forall|b: &mut GenericTaskDefinitionBuilder| #[trigger] setup.ensures((b,), ()) ==> final(b).buildable(),
        ensures
            appended(r.task.do_@, old(self).task.do_@, name),
            exists|b: &mut GenericTaskDefinitionBuilder| #[trigger] setup.ensures((b,), ()) && b.is_fresh()
                && (exists|k: String| k@ == name@ && r.task.do_@ == old(self).task.do_@.push((k, final(b).value()))),
            r.task.for_ == old(self).task.for_ && r.task.while_ == old(self).task.while_ && r.task.common == old(self).task.common,
            *final(self) == *final(r),
    {
        let mut builder = GenericTaskDefinitionBuilder::new();
        setup(&mut builder);
        let task = builder.build();
        self.task.do_.add(name.to_string(), task);
        proof {
            assert(self.task.do_@.subrange(0, old(self).task.do_@.len() as int)
                =~= old(self).task.do_@);
        }
        self
    }
}

impl TaskDefinitionBuilderBase for ForTaskDefinitionBuilder {
    open spec fn fields(&self) -> TaskDefinitionFields {
        self.task.common
    }

    open spec fn with_fields(&self, f: TaskDefinitionFields) -> Self {
        ForTaskDefinitionBuilder { task: ForTaskDefinition { common: f, ..self.task } }
    }

    open spec fn buildable(&self) -> bool {
        true
    }

    open spec fn result(&self) -> TaskDefinition {
        TaskDefinition::For(self.task)
    }

    proof fn lemma_fields_with(&self, f: TaskDefinitionFields) {
        assert(self.with_fields(f).buildable() == self.buildable());
    }

    fn common_mut(&mut self) -> (r: &mut TaskDefinitionFields) {
        &mut self.task.common
    }

    fn build(self) -> (r: TaskDefinition) {
        TaskDefinition::For(self.task)
    }
}

/// Builds a 'fork' task.
pub struct ForkTaskDefinitionBuilder {
    pub task: ForkTaskDefinition,
}

impl ForkTaskDefinitionBuilder {
    pub fn new() -> (r: Self)
        ensures
            r.task.fork.branches@.len() == 0,
            !r.task.fork.compete,
            r.task.common == no_fields(),
    {
        ForkTaskDefinitionBuilder { task: ForkTaskDefinition::new(BranchingDefinition::new(OrderedMap::new(), false)) }
    }

    /// Sets the branches, as configured by `setup`.
    pub fn branch<F>(&mut self, setup: F) -> (r: &mut Self)
        where
            F: FnOnce(&mut TaskDefinitionMapBuilder),
        requires
            forall|b: &mut TaskDefinitionMapBuilder| setup.requires((b,)),
        ensures
            exists|b: &mut TaskDefinitionMapBuilder| #[trigger] setup.ensures((b,), ()) && b.is_fresh()
                && r.task.fork.branches == final(b).value(),
            r.task.fork.compete == old(self).task.fork.compete,
            r.task.common == old(self).task.common,
            *final(self) == *final(r),
    {
        let mut builder = TaskDefinitionMapBuilder::new();
        setup(&mut builder);
        self.task.fork.branches = builder.build();
        self
    }

    /// Makes the first branch to finish win.
    pub fn compete(&mut self, compete: bool) -> (r: &mut Self)
        ensures
            r.task.fork.compete == compete,
            r.task.fork.branches == old(self).task.fork.branches,
            r.task.common == old(self).task.common,
            *final(self) == *final(r),
    {
        self.task.fork.compete = compete;
        self
    }
}

impl TaskDefinitionBuilderBase for ForkTaskDefinitionBuilder {
    open spec fn fields(&self) -> TaskDefinitionFields {
        self.task.common
    }

    open spec fn with_fields(&self, f: TaskDefinitionFields) -> Self {
        ForkTaskDefinitionBuilder { task: ForkTaskDefinition { common: f, ..self.task } }
    }

    open spec fn buildable(&self) -> bool {
        true
    }

    open spec fn result(&self) -> TaskDefinition {
        TaskDefinition::Fork(self.task)
    }

    proof fn lemma_fields_with(&self, f: TaskDefinitionFields) {
        assert(self.with_fields(f).buildable() == self.buildable());
    }

    fn common_mut(&mut self) -> (r: &mut TaskDefinitionFields) {
        &mut self.task.common
    }

    fn build(self) -> (r: TaskDefinition) {
        TaskDefinition::Fork(self.task)
    }
}

/// Builds a 'listen' task. The events to listen to must be configured.
pub struct ListenTaskDefinitionBuilder {
    pub common: TaskDefinitionFields,
    pub to: Option<EventConsumptionStrategyDefinition>,
    pub foreach: Option<SubscriptionIteratorDefinition>,
}

impl ListenTaskDefinitionBuilder {
    pub fn new() -> (r: Self)
        ensures
            r.to is None && r.foreach is None,
            r.common == no_fields(),
    {
        ListenTaskDefinitionBuilder { common: TaskDefinitionFields::new(), to: None, foreach: None }
    }

    /// Sets the events to listen to, as configured by `setup`.
    pub fn to<F>(&mut self, setup: F) -> (r: &mut Self)
        where
            F: FnOnce(&mut EventConsumptionStrategyDefinitionBuilder),
        requires
            forall|b: &mut EventConsumptionStrategyDefinitionBuilder| setup.requires((b,)),
            forall|b: &mut EventConsumptionStrategyDefinitionBuilder| #[trigger] setup.ensures((b,), ()) ==> final(b).buildable(),
        ensures
            r.to is Some,
            exists|b: &mut EventConsumptionStrategyDefinitionBuilder| #[trigger] setup.ensures((b,), ())
                && b.is_fresh() && r.to == Some(final(b).value()),
            r.common == old(self).common && r.foreach == old(self).foreach,
            *final(self) == *final(r),
    {
        let mut builder = EventConsumptionStrategyDefinitionBuilder::new();
        setup(&mut builder);
        self.to = Some(builder.build());
        self
    }

    /// Sets how each consumed event is handled, as configured by `setup`.
    pub fn foreach<F>(&mut self, setup: F) -> (r: &mut Self)
        where
            F: FnOnce(&mut SubscriptionIteratorDefinitionBuilder),
        requires
            forall|b: &mut SubscriptionIteratorDefinitionBuilder| setup.requires((b,)),
        ensures
            r.foreach is Some,
            exists|b: &mut SubscriptionIteratorDefinitionBuilder| #[trigger] setup.ensures((b,), ())
                && b.is_fresh() && r.foreach == Some(final(b).value()),
            r.common == old(self).common && r.to == old(self).to,
            *final(self) == *final(r),
    {
        let mut builder = SubscriptionIteratorDefinitionBuilder::new();
        setup(&mut builder);
        self.foreach = Some(builder.build());
        self
    }
}

impl TaskDefinitionBuilderBase for ListenTaskDefinitionBuilder {
    open spec fn fields(&self) -> TaskDefinitionFields {
        self.common
    }

    open spec fn with_fields(&self, f: TaskDefinitionFields) -> Self {
        ListenTaskDefinitionBuilder { common: f, ..*self }
    }

    open spec fn buildable(&self) -> bool {
        self.to is Some
    }

    open spec fn result(&self) -> TaskDefinition {
        TaskDefinition::Listen(ListenTaskDefinition { listen: ListenerDefinition { to: self.to->0, read: None }, foreach: self.foreach, common: self.common })
    }

    proof fn lemma_fields_with(&self, f: TaskDefinitionFields) {
        assert(self.with_fields(f).buildable() == self.buildable());
    }

    fn common_mut(&mut self) -> (r: &mut TaskDefinitionFields) {
        &mut self.common
    }

    fn build(self) -> (r: TaskDefinition) {
        match self.to {
            Some(to) => {
                let mut task = ListenTaskDefinition::new(ListenerDefinition::new(to));
                task.foreach = self.foreach;
                task.common = self.common;
                TaskDefinition::Listen(task)
            },
            None => vstd::pervasive::unreached(),
        }
    }
}

/// Builds a 'raise' task. The error must be configured, inline or by reference; the last of
/// the two choices wins.
pub struct RaiseTaskDefinitionBuilder {
    pub common: TaskDefinitionFields,
    pub builder: Option<ErrorDefinitionBuilder>,
    pub reference: Option<String>,
}

impl RaiseTaskDefinitionBuilder {
    pub fn new() -> (r: Self)
        ensures
            r.builder is None && r.reference is None,
            r.common == no_fields(),
    {
        RaiseTaskDefinitionBuilder { common: TaskDefinitionFields::new(), builder: None, reference: None }
    }

    /// Raises an inline error, configured through the returned builder.
    pub fn error(&mut self) -> (r: &mut ErrorDefinitionBuilder)
        ensures
            r.is_fresh(),
            final(self).builder == Some(*final(r)),
            final(self).reference is None,
            final(self).common == old(self).common,
    {
        self.reference = None;
        self.builder = Some(ErrorDefinitionBuilder::new());
        match &mut self.builder {
            Some(b) => b,
            None => vstd::pervasive::unreached(),
        }
    }

    /// Raises the reusable error of the given name.
    pub fn referenced_error(&mut self, reference: &str)
        ensures
            holds_str(final(self).reference, reference),
            final(self).builder is None,
            final(self).common == old(self).common,
    {
        self.builder = None;
        self.reference = Some(reference.to_string());
    }
}

impl TaskDefinitionBuilderBase for RaiseTaskDefinitionBuilder {
    open spec fn fields(&self) -> TaskDefinitionFields {
        self.common
    }

    open spec fn with_fields(&self, f: TaskDefinitionFields) -> Self {
        RaiseTaskDefinitionBuilder { common: f, ..*self }
    }

    open spec fn buildable(&self) -> bool {
        self.builder is Some || self.reference is Some
    }

    open spec fn result(&self) -> TaskDefinition {
        TaskDefinition::Raise(RaiseTaskDefinition {
            raise: RaiseErrorDefinition {
                error: if self.builder is Some {
                    OneOfErrorDefinitionOrReference::Error(self.builder->0.error)
                } else {
                    OneOfErrorDefinitionOrReference::Reference(self.reference->0)
                },
            },
            common: self.common,
        })
    }

    proof fn lemma_fields_with(&self, f: TaskDefinitionFields) {
        assert(self.with_fields(f).buildable() == self.buildable());
    }

    fn common_mut(&mut self) -> (r: &mut TaskDefinitionFields) {
        &mut self.common
    }

    fn build(self) -> (r: TaskDefinition) {
        let error = match self.builder {
            Some(builder) => OneOfErrorDefinitionOrReference::Error(builder.build()),
            None => match self.reference {
                Some(reference) => OneOfErrorDefinitionOrReference::Reference(reference),
                None => vstd::pervasive::unreached(),
            },
        };
        let mut task = RaiseTaskDefinition::new(RaiseErrorDefinition::new(error));
        task.common = self.common;
        TaskDefinition::Raise(task)
    }
}

/// Builds a 'run' task. The process must be selected; selecting one replaces the one selected
/// before.
pub struct RunTaskDefinitionBuilder {
    pub common: TaskDefinitionFields,
    pub builder: Option<ProcessDefinitionBuilder>,
}

/// The builder of the selected process kind.
pub enum ProcessDefinitionBuilder {
    Container(ContainerProcessDefinitionBuilder),
    Script(ScriptProcessDefinitionBuilder),
    Shell(ShellProcessDefinitionBuilder),
    Workflow(WorkflowProcessDefinitionBuilder),
}

/// The process that a process builder yields: the process in its slot, the others empty.
pub open spec fn process_of(b: ProcessDefinitionBuilder) -> ProcessTypeDefinition {
    match b {
        ProcessDefinitionBuilder::Container(p) => ProcessTypeDefinition {
            container: Some(p.process), script: None, shell: None, workflow: None, await_: None },
        ProcessDefinitionBuilder::Script(p) => ProcessTypeDefinition {
            container: None, script: Some(p.process), shell: None, workflow: None, await_: None },
        ProcessDefinitionBuilder::Shell(p) => ProcessTypeDefinition {
            container: None, script: None, shell: Some(p.process), workflow: None, await_: None },
        ProcessDefinitionBuilder::Workflow(p) => ProcessTypeDefinition {
            container: None, script: None, shell: None, workflow: Some(p.process), await_: None },
    }
}

impl RunTaskDefinitionBuilder {
    pub fn new() -> (r: Self)
        ensures
            r.builder is None,
            r.common == no_fields(),
    {
        RunTaskDefinitionBuilder { common: TaskDefinitionFields::new(), builder: None }
    }

    /// Runs a container process, configured through the returned builder.
    pub fn container(&mut self) -> (r: &mut ContainerProcessDefinitionBuilder)
        ensures
            r.is_fresh(),
            final(self).builder == Some(ProcessDefinitionBuilder::Container(*final(r))),
            final(self).common == old(self).common,
    {
        self.builder = Some(ProcessDefinitionBuilder::Container(ContainerProcessDefinitionBuilder::new()));
        match &mut self.builder {
            Some(ProcessDefinitionBuilder::Container(b)) => b,
            _ => vstd::pervasive::unreached(),
        }
    }

    /// Runs a script process, configured through the returned builder.
    pub fn script(&mut self) -> (r: &mut ScriptProcessDefinitionBuilder)
        ensures
            r.is_fresh(),
            final(self).builder == Some(ProcessDefinitionBuilder::Script(*final(r))),
            final(self).common == old(self).common,
    {
        self.builder = Some(ProcessDefinitionBuilder::Script(ScriptProcessDefinitionBuilder::new()));
        match &mut self.builder {
            Some(ProcessDefinitionBuilder::Script(b)) => b,
            _ => vstd::pervasive::unreached(),
        }
    }

    /// Runs a shell process, configured through the returned builder.
    pub fn shell(&mut self) -> (r: &mut ShellProcessDefinitionBuilder)
        ensures
            r.is_fresh(),
            final(self).builder == Some(ProcessDefinitionBuilder::Shell(*final(r))),
            final(self).common == old(self).common,
    {
        self.builder = Some(ProcessDefinitionBuilder::Shell(ShellProcessDefinitionBuilder::new()));
        match &mut self.builder {
            Some(ProcessDefinitionBuilder::Shell(b)) => b,
            _ => vstd::pervasive::unreached(),
        }
    }

    /// Runs a workflow process, configured through the returned builder.
    pub fn workflow(&mut self) -> (r: &mut WorkflowProcessDefinitionBuilder)
        ensures
            r.is_fresh(),
            final(self).builder == Some(ProcessDefinitionBuilder::Workflow(*final(r))),
            final(self).common == old(self).common,
    {
        self.builder = Some(ProcessDefinitionBuilder::Workflow(WorkflowProcessDefinitionBuilder::new()));
        match &mut self.builder {
            Some(ProcessDefinitionBuilder::Workflow(b)) => b,
            _ => vstd::pervasive::unreached(),
        }
    }
}

impl TaskDefinitionBuilderBase for RunTaskDefinitionBuilder {
    open spec fn fields(&self) -> TaskDefinitionFields {
        self.common
    }

    open spec fn with_fields(&self, f: TaskDefinitionFields) -> Self {
        RunTaskDefinitionBuilder { common: f, ..*self }
    }

    open spec fn buildable(&self) -> bool {
        self.builder is Some
    }

    open spec fn result(&self) -> TaskDefinition {
        TaskDefinition::Run(RunTaskDefinition { run: process_of(self.builder->0), common: self.common })
    }

    proof fn lemma_fields_with(&self, f: TaskDefinitionFields) {
        assert(self.with_fields(f).buildable() == self.buildable());
    }

    fn common_mut(&mut self) -> (r: &mut TaskDefinitionFields) {
        &mut self.common
    }

    fn build(self) -> (r: TaskDefinition) {
        match self.builder {
            Some(builder) => {
                let mut task = match builder {
                    ProcessDefinitionBuilder::Container(b) => b.build(),
                    ProcessDefinitionBuilder::Script(b) => b.build(),
                    ProcessDefinitionBuilder::Shell(b) => b.build(),
                    ProcessDefinitionBuilder::Workflow(b) => b.build(),
                };
                task.common = self.common;
                TaskDefinition::Run(task)
            },
            None => vstd::pervasive::unreached(),
        }
    }
}

/// Builds a 'set' task.
pub struct SetTaskDefinitionBuilder {
    pub task: SetTaskDefinition,
}

/// The named values of a 'set' value; none for an expression.
pub open spec fn set_entries(v: SetValue) -> Seq<(String, AnyValue)> {
    match v {
        SetValue::Entries(m) => m@,
        SetValue::Expression(_) => Seq::empty(),
    }
}

impl SetTaskDefinitionBuilder {
    pub fn new() -> (r: Self)
        ensures
            r.task.set is Entries && set_entries(r.task.set).len() == 0,
            r.task.common == no_fields(),
    {
        SetTaskDefinitionBuilder { task: SetTaskDefinition::new() }
    }

    /// Sets the variable of the given name. An expression set before is dropped.
    pub fn variable(&mut self, name: &str, value: AnyValue) -> (r: &mut Self)
        ensures
            r.task.set is Entries,
            exists|k: String| k@ == name@ && set_entries(r.task.set)
                == put_entry(set_entries(old(self).task.set), k, value),
            r.task.common == old(self).task.common,
            *final(self) == *final(r),
    {
        match &mut self.task.set {
            SetValue::Entries(m) => {
                crate::entries::insert_entry(m, name.to_string(), value);
            },
            SetValue::Expression(_) => {
                let mut m: Vec<(String, AnyValue)> = Vec::new();
                crate::entries::insert_entry(&mut m, name.to_string(), value);
                self.task.set = SetValue::Entries(m);
            },
        }
        self
    }

    /// Makes the task set the result of the given expression.
    pub fn variable_expression(&mut self, expression: String) -> (r: &mut Self)
        ensures
            r.task.set == SetValue::Expression(expression),
            r.task.common == old(self).task.common,
            *final(self) == *final(r),
    {
        self.task.set = SetValue::Expression(expression);
        self
    }

    /// Sets all the variables.
    pub fn variables(&mut self, variables: Vec<(String, AnyValue)>) -> (r: &mut Self)
        requires
            keys_unique(variables@),
        ensures
            r.task.set == SetValue::Entries(variables),
            r.task.common == old(self).task.common,
            *final(self) == *final(r),
    {
        self.task.set = SetValue::Entries(variables);
        self
    }
}

impl TaskDefinitionBuilderBase for SetTaskDefinitionBuilder {
    open spec fn fields(&self) -> TaskDefinitionFields {
        self.task.common
    }

    open spec fn with_fields(&self, f: TaskDefinitionFields) -> Self {
        SetTaskDefinitionBuilder { task: SetTaskDefinition { common: f, ..self.task } }
    }

    open spec fn buildable(&self) -> bool {
        true
    }

    open spec fn result(&self) -> TaskDefinition {
        TaskDefinition::SetData(self.task)
    }

    proof fn lemma_fields_with(&self, f: TaskDefinitionFields) {
        assert(self.with_fields(f).buildable() == self.buildable());
    }

    fn common_mut(&mut self) -> (r: &mut TaskDefinitionFields) {
        &mut self.task.common
    }

    fn build(self) -> (r: TaskDefinition) {
        TaskDefinition::SetData(self.task)
    }
}

/// Builds a 'switch' task.
pub struct SwitchTaskDefinitionBuilder {
    pub task: SwitchTaskDefinition,
}

impl SwitchTaskDefinitionBuilder {
    pub fn new() -> (r: Self)
        ensures
            r.task.switch@.len() == 0,
            r.task.common == no_fields(),
    {
        SwitchTaskDefinitionBuilder { task: SwitchTaskDefinition::new() }
    }

    /// Appends a case of the given name, as configured by `setup`.
    pub fn case<F>(&mut self, name: &str, setup: F) -> (r: &mut Self)
        where
            F: FnOnce(&mut SwitchCaseDefinitionBuilder),
        requires
            forall|b: &mut SwitchCaseDefinitionBuilder| setup.requires((b,)),
        ensures
            appended(r.task.switch@, old(self).task.switch@, name),
            exists|b: &mut SwitchCaseDefinitionBuilder| #[trigger] setup.ensures((b,), ()) && b.is_fresh()
                && (exists|k: String| k@ == name@ && r.task.switch@ == old(self).task.switch@.push((k, final(b).value()))),
            r.task.common == old(self).task.common,
            *final(self) == *final(r),
    {
        let mut builder = SwitchCaseDefinitionBuilder::new();
        setup(&mut builder);
        let case = builder.build();
        self.task.switch.add(name.to_string(), case);
        proof {
            assert(self.task.switch@.subrange(0, old(self).task.switch@.len() as int) =~= old(self).task.switch@);
        }
        self
    }
}

impl TaskDefinitionBuilderBase for SwitchTaskDefinitionBuilder {
    open spec fn fields(&self) -> TaskDefinitionFields {
        self.task.common
    }

    open spec fn with_fields(&self, f: TaskDefinitionFields) -> Self {
        SwitchTaskDefinitionBuilder { task: SwitchTaskDefinition { common: f, ..self.task } }
    }

    open spec fn buildable(&self) -> bool {
        true
    }

    open spec fn result(&self) -> TaskDefinition {
        TaskDefinition::Switch(self.task)
    }

    proof fn lemma_fields_with(&self, f: TaskDefinitionFields) {
        assert(self.with_fields(f).buildable() == self.buildable());
    }

    fn common_mut(&mut self) -> (r: &mut TaskDefinitionFields) {
        &mut self.task.common
    }

    fn build(self) -> (r: TaskDefinition) {
        TaskDefinition::Switch(self.task)
    }
}

/// Builds a 'try' task.
pub struct TryTaskDefinitionBuilder {
    pub task: TryTaskDefinition,
}

impl TryTaskDefinitionBuilder {
    pub fn new() -> (r: Self)
        ensures
            r.task.try_@.len() == 0,
            r.task.common == no_fields(),
    {
        TryTaskDefinitionBuilder { task: TryTaskDefinition::new(OrderedMap::new(), ErrorCatcherDefinition::new()) }
    }

    /// Sets the tasks to attempt, as configured by `setup`.
    pub fn do_<F>(&mut self, setup: F) -> (r: &mut Self)
        where
            F: FnOnce(&mut TaskDefinitionMapBuilder),
        requires
            forall|b: &mut TaskDefinitionMapBuilder| setup.requires((b,)),
        ensures
            exists|b: &mut TaskDefinitionMapBuilder| #[trigger] setup.ensures((b,), ()) && b.is_fresh()
                && r.task.try_ == final(b).value(),
            r.task.catch == old(self).task.catch && r.task.common == old(self).task.common,
            *final(self) == *final(r),
    {
        let mut builder = TaskDefinitionMapBuilder::new();
        setup(&mut builder);
        self.task.try_ = builder.build();
        self
    }

    /// Sets how errors are caught, as configured by `setup`.
    pub fn catch<F>(&mut self, setup: F) -> (r: &mut Self)
        where
            F: FnOnce(&mut ErrorCatcherDefinitionBuilder),
        requires
            forall|b: &mut ErrorCatcherDefinitionBuilder| setup.requires((b,)),
        ensures
            exists|b: &mut ErrorCatcherDefinitionBuilder| #[trigger] setup.ensures((b,), ()) && b.is_fresh()
                && r.task.catch == final(b).value(),
            r.task.try_ == old(self).task.try_ && r.task.common == old(self).task.common,
            *final(self) == *final(r),
    {
        let mut builder = ErrorCatcherDefinitionBuilder::new();
        setup(&mut builder);
        self.task.catch = builder.build();
        self
    }
}

impl TaskDefinitionBuilderBase for TryTaskDefinitionBuilder {
    open spec fn fields(&self) -> TaskDefinitionFields {
        self.task.common
    }

    open spec fn with_fields(&self, f: TaskDefinitionFields) -> Self {
        TryTaskDefinitionBuilder { task: TryTaskDefinition { common: f, ..self.task } }
    }

    open spec fn buildable(&self) -> bool {
        true
    }

    open spec fn result(&self) -> TaskDefinition {
        TaskDefinition::Try(self.task)
    }

    proof fn lemma_fields_with(&self, f: TaskDefinitionFields) {
        assert(self.with_fields(f).buildable() == self.buildable());
    }

    fn common_mut(&mut self) -> (r: &mut TaskDefinitionFields) {
        &mut self.task.common
    }

    fn build(self) -> (r: TaskDefinition) {
        TaskDefinition::Try(self.task)
    }
}

/// Builds a 'wait' task.
pub struct WaitTaskDefinitionBuilder {
    pub task: WaitTaskDefinition,
}

impl WaitTaskDefinitionBuilder {
    pub fn new(duration: OneOfDurationOrIso8601Expression) -> (r: Self)
        ensures
            r.task.wait == duration,
            r.task.common == no_fields(),
    {
        WaitTaskDefinitionBuilder { task: WaitTaskDefinition::new(duration) }
    }
}

impl TaskDefinitionBuilderBase for WaitTaskDefinitionBuilder {
    open spec fn fields(&self) -> TaskDefinitionFields {
        self.task.common
    }

    open spec fn with_fields(&self, f: TaskDefinitionFields) -> Self {
        WaitTaskDefinitionBuilder { task: WaitTaskDefinition { common: f, ..self.task } }
    }

    open spec fn buildable(&self) -> bool {
        true
    }

    open spec fn result(&self) -> TaskDefinition {
        TaskDefinition::Wait(self.task)
    }

    proof fn lemma_fields_with(&self, f: TaskDefinitionFields) {
        assert(self.with_fields(f).buildable() == self.buildable());
    }

    fn common_mut(&mut self) -> (r: &mut TaskDefinitionFields) {
        &mut self.task.common
    }

    fn build(self) -> (r: TaskDefinition) {
        TaskDefinition::Wait(self.task)
    }
}

/// Builds a named, ordered sequence of tasks.
pub struct TaskDefinitionMapBuilder {
    pub map: TaskMap,
}

impl TaskDefinitionMapBuilder {
    pub fn new() -> (r: Self)
        ensures
            r.map@.len() == 0,
    {
        TaskDefinitionMapBuilder { map: OrderedMap::new() }
    }

    /// Appends a task of the given name, as configured by `setup`.
    pub fn do_<F>(&mut self, name: &str, setup: F) -> (r: &mut Self)
        where
            F: FnOnce(&mut GenericTaskDefinitionBuilder),
        requires
            forall|b: &mut GenericTaskDefinitionBuilder| setup.requires((b,)),
            forall|b: &mut GenericTaskDefinitionBuilder| #[trigger] setup.ensures((b,), ()) ==> final(b).buildable(),
        ensures
            appended(r.map@, old(self).map@, name),
            exists|b: &mut GenericTaskDefinitionBuilder| #[trigger] setup.ensures((b,), ()) && b.is_fresh()
                && (exists|k: String| k@ == name@ && r.map@ == old(self).map@.push((k, final(b).value()))),
            true,
            *final(self) == *final(r),
    {
        let mut builder = GenericTaskDefinitionBuilder::new();
        setup(&mut builder);
        let task = builder.build();
        self.map.add(name.to_string(), task);
        proof {
            assert(self.map@.subrange(0, old(self).map@.len() as int)
                =~= old(self).map@);
        }
        self
    }

    pub fn build(self) -> (r: TaskMap)
        ensures
            r == self.map,
    {
        self.map
    }
}

/// Builds an event.
pub struct EventDefinitionBuilder {
    pub event: EventDefinition,
}

impl EventDefinitionBuilder {
    pub fn new() -> (r: Self)
        ensures
            r.event.with@.len() == 0,
    {
        EventDefinitionBuilder { event: EventDefinition::new(Vec::new()) }
    }

    /// Sets the attribute of the given name.
    pub fn with(&mut self, name: &str, value: AnyValue) -> (r: &mut Self)
        ensures
            exists|k: String| k@ == name@ && r.event.with@ == put_entry(old(self).event.with@, k, value),
            *final(self) == *final(r),
    {
        crate::entries::insert_entry(&mut self.event.with, name.to_string(), value);
        self
    }

    /// Sets all the attributes.
    pub fn with_attributes(&mut self, attributes: Vec<(String, AnyValue)>) -> (r: &mut Self)
        requires
            keys_unique(attributes@),
        ensures
            r.event.with == attributes,
            *final(self) == *final(r),
    {
        self.event.with = attributes;
        self
    }

    pub fn build(self) -> (r: EventDefinition)
        ensures
            r == self.event,
    {
        self.event
    }
}

/// Builds the events a task consumes: select all, any or one, then configure the filters.
/// Selecting replaces the selection made before.
pub struct EventConsumptionStrategyDefinitionBuilder {
    pub selection: Option<ConsumptionSelection>,
    pub until_condition: Option<String>,
    pub until_events: Option<EventConsumptionStrategyDefinition>,
}

/// The selected way to consume events, with the builder of its filters.
pub enum ConsumptionSelection {
    All(EventFilterDefinitionCollectionBuilder),
    Any(EventFilterDefinitionCollectionBuilder),
    One(EventFilterDefinitionBuilder),
}

impl EventConsumptionStrategyDefinitionBuilder {
    /// Whether a way to consume events was selected.
    pub open spec fn buildable(&self) -> bool {
        self.selection is Some
    }

    /// The strategy that `build` yields. Only 'any' takes a stop condition: an expression if
    /// one was given, else the events configured by `until`.
    pub open spec fn result(&self) -> EventConsumptionStrategyDefinition {
        match self.selection->0 {
            ConsumptionSelection::All(b) => EventConsumptionStrategyDefinition {
                all: Some(b.events), any: None, one: None, until: None },
            ConsumptionSelection::Any(b) => EventConsumptionStrategyDefinition {
                all: None,
                any: Some(b.events),
                one: None,
                until: if self.until_condition is Some {
                    Some(Box::new(OneOfEventConsumptionStrategyDefinitionOrExpression::Expression(self.until_condition->0)))
                } else if self.until_events is Some {
                    Some(Box::new(OneOfEventConsumptionStrategyDefinitionOrExpression::Strategy(self.until_events->0)))
                } else {
                    None
                },
            },
            ConsumptionSelection::One(b) => EventConsumptionStrategyDefinition {
                all: None, any: None, one: Some(b.filter), until: None },
        }
    }

    pub fn new() -> (r: Self)
        ensures
            r.selection is None && r.until_condition is None && r.until_events is None,
    {
        EventConsumptionStrategyDefinitionBuilder { selection: None, until_condition: None, until_events: None }
    }

    /// Consumes all of the configured events.
    pub fn all(&mut self) -> (r: &mut EventFilterDefinitionCollectionBuilder)
        ensures
            r.events@.len() == 0,
            final(self).selection == Some(ConsumptionSelection::All(*final(r))),
            final(self).until_condition == old(self).until_condition,
            final(self).until_events == old(self).until_events,
    {
        self.selection = Some(ConsumptionSelection::All(EventFilterDefinitionCollectionBuilder::new()));
        match &mut self.selection {
            Some(ConsumptionSelection::All(b)) => b,
            _ => vstd::pervasive::unreached(),
        }
    }

    /// Consumes any of the configured events.
    pub fn any(&mut self) -> (r: &mut EventFilterDefinitionCollectionBuilder)
        ensures
            r.events@.len() == 0,
            final(self).selection == Some(ConsumptionSelection::Any(*final(r))),
            final(self).until_condition == old(self).until_condition,
            final(self).until_events == old(self).until_events,
    {
        self.selection = Some(ConsumptionSelection::Any(EventFilterDefinitionCollectionBuilder::new()));
        match &mut self.selection {
            Some(ConsumptionSelection::Any(b)) => b,
            _ => vstd::pervasive::unreached(),
        }
    }

    /// Consumes one event, as configured.
    pub fn one(&mut self) -> (r: &mut EventFilterDefinitionBuilder)
        ensures
            r.filter.with is None && r.filter.correlate is None,
            final(self).selection == Some(ConsumptionSelection::One(*final(r))),
            final(self).until_condition == old(self).until_condition,
            final(self).until_events == old(self).until_events,
    {
        self.selection = Some(ConsumptionSelection::One(EventFilterDefinitionBuilder::new()));
        match &mut self.selection {
            Some(ConsumptionSelection::One(b)) => b,
            _ => vstd::pervasive::unreached(),
        }
    }

    /// Consumes any events until those configured by `setup` are consumed.
    pub fn until<F>(&mut self, setup: F)
        where
            F: FnOnce(&mut EventConsumptionStrategyDefinitionBuilder),
        requires
            forall|b: &mut EventConsumptionStrategyDefinitionBuilder| setup.requires((b,)),
            forall|b: &mut EventConsumptionStrategyDefinitionBuilder| #[trigger] setup.ensures((b,), ()) ==> final(b).buildable(),
        ensures
            final(self).until_events is Some,
            exists|b: &mut EventConsumptionStrategyDefinitionBuilder| #[trigger] setup.ensures((b,), ())
                && b.is_fresh() && final(self).until_events == Some(final(b).value()),
            final(self).selection == old(self).selection,
            final(self).until_condition == old(self).until_condition,
    {
        let mut builder = EventConsumptionStrategyDefinitionBuilder::new();
        setup(&mut builder);
        self.until_events = Some(builder.build());
    }

    /// Consumes any events until the given condition holds.
    pub fn until_condition_matches(&mut self, expression: &str)
        ensures
            holds_str(final(self).until_condition, expression),
            final(self).selection == old(self).selection,
            final(self).until_events == old(self).until_events,
    {
        self.until_condition = Some(expression.to_string());
    }

    /// The configured strategy. A way to consume events must have been selected.
    pub fn build(self) -> (r: EventConsumptionStrategyDefinition)
        requires
            self.buildable(),
        ensures
            r == self.result(),
    {
        let mut strategy = EventConsumptionStrategyDefinition::new();
        match self.selection {
            Some(ConsumptionSelection::All(b)) => {
                strategy.all = Some(b.build());
            },
            Some(ConsumptionSelection::Any(b)) => {
                strategy.any = Some(b.build());
                match self.until_condition {
                    Some(expression) => {
                        strategy.until = Some(Box::new(
                            OneOfEventConsumptionStrategyDefinitionOrExpression::Expression(expression),
                        ));
                    },
                    None => match self.until_events {
                        Some(events) => {
                            strategy.until = Some(Box::new(
                                OneOfEventConsumptionStrategyDefinitionOrExpression::Strategy(events),
                            ));
                        },
                        None => {},
                    },
                }
            },
            Some(ConsumptionSelection::One(b)) => {
                strategy.one = Some(b.build());
            },
            None => vstd::pervasive::unreached(),
        }
        strategy
    }
}

/// Builds a list of event filters.
pub struct EventFilterDefinitionCollectionBuilder {
    pub events: Vec<EventFilterDefinition>,
}

impl EventFilterDefinitionCollectionBuilder {
    pub fn new() -> (r: Self)
        ensures
            r.events@.len() == 0,
    {
        EventFilterDefinitionCollectionBuilder { events: Vec::new() }
    }

    /// Appends the filter configured by `setup`.
    pub fn event<F>(&mut self, setup: F) -> (r: &mut Self)
        where
            F: FnOnce(&mut EventFilterDefinitionBuilder),
        requires
            forall|b: &mut EventFilterDefinitionBuilder| setup.requires((b,)),
        ensures
            r.events@.len() == old(self).events@.len() + 1,
            exists|b: &mut EventFilterDefinitionBuilder| #[trigger] setup.ensures((b,), ()) && b.is_fresh()
                && r.events@ == old(self).events@.push(final(b).value()),
            r.events@.subrange(0, old(self).events@.len() as int) == old(self).events@,
            *final(self) == *final(r),
    {
        let mut builder = EventFilterDefinitionBuilder::new();
        setup(&mut builder);
        self.events.push(builder.build());
        self
    }

    pub fn build(self) -> (r: Vec<EventFilterDefinition>)
        ensures
            r == self.events,
    {
        self.events
    }
}

/// Builds an event filter.
pub struct EventFilterDefinitionBuilder {
    pub filter: EventFilterDefinition,
}

impl EventFilterDefinitionBuilder {
    pub fn new() -> (r: Self)
        ensures
            r.filter.with is None && r.filter.correlate is None,
    {
        EventFilterDefinitionBuilder { filter: EventFilterDefinition { with: None, correlate: None } }
    }

    /// Sets the attribute of the given name to match.
    pub fn with(&mut self, name: &str, value: AnyValue) -> (r: &mut Self)
        ensures
            r.filter.with is Some,
            exists|k: String, v: AnyValue| k@ == name@ && v == value && entries_or_empty(r.filter.with)
                == put_entry(entries_or_empty(old(self).filter.with), k, v),
            r.filter == (EventFilterDefinition { with: r.filter.with, ..old(self).filter }),
            *final(self) == *final(r),
    {
        insert_optional_entry(&mut self.filter.with, name.to_string(), value);
        self
    }

    /// Sets all the attributes to match.
    pub fn with_attributes(&mut self, attributes: Vec<(String, AnyValue)>) -> (r: &mut Self)
        requires
            keys_unique(attributes@),
        ensures
            r.filter.with == Some(attributes),
            r.filter == (EventFilterDefinition { with: r.filter.with, ..old(self).filter }),
            *final(self) == *final(r),
    {
        self.filter.with = Some(attributes);
        self
    }

    pub fn build(self) -> (r: EventFilterDefinition)
        ensures
            r == self.filter,
    {
        self.filter
    }
}

/// Builds the handling of each event that a 'listen' task consumes.
pub struct SubscriptionIteratorDefinitionBuilder {
    pub iterator: SubscriptionIteratorDefinition,
}

impl SubscriptionIteratorDefinitionBuilder {
    pub fn new() -> (r: Self)
        ensures
            r.iterator == SubscriptionIteratorDefinition::empty(),
    {
        SubscriptionIteratorDefinitionBuilder { iterator: SubscriptionIteratorDefinition::new() }
    }

    /// Names the variable that holds each event.
    pub fn with_item(&mut self, variable: &str) -> (r: &mut Self)
        ensures
            holds_str(r.iterator.item, variable),
            r.iterator == (SubscriptionIteratorDefinition { item: r.iterator.item, ..old(self).iterator }),
            *final(self) == *final(r),
    {
        self.iterator.item = Some(variable.to_string());
        self
    }

    /// Names the variable that holds each event's index.
    pub fn at(&mut self, variable: &str) -> (r: &mut Self)
        ensures
            holds_str(r.iterator.at, variable),
            r.iterator == (SubscriptionIteratorDefinition { at: r.iterator.at, ..old(self).iterator }),
            *final(self) == *final(r),
    {
        self.iterator.at = Some(variable.to_string());
        self
    }

    /// Sets the tasks to run for each event, as configured by `setup`.
    pub fn do_<F>(&mut self, setup: F) -> (r: &mut Self)
        where
            F: FnOnce(&mut TaskDefinitionMapBuilder),
        requires
            forall|b: &mut TaskDefinitionMapBuilder| setup.requires((b,)),
        ensures
            r.iterator.do_ is Some,
            exists|b: &mut TaskDefinitionMapBuilder| #[trigger] setup.ensures((b,), ()) && b.is_fresh()
                && r.iterator.do_ == Some(final(b).value()),
            r.iterator == (SubscriptionIteratorDefinition { do_: r.iterator.do_, ..old(self).iterator }),
            *final(self) == *final(r),
    {
        let mut builder = TaskDefinitionMapBuilder::new();
        setup(&mut builder);
        let v = builder.build();
        self.iterator.do_ = Some(v);
        self
    }

    /// Sets the output, as configured by `setup`.
    pub fn with_output<F>(&mut self, setup: F) -> (r: &mut Self)
        where
            F: FnOnce(&mut OutputDataModelDefinitionBuilder),
        requires
            forall|b: &mut OutputDataModelDefinitionBuilder| setup.requires((b,)),
        ensures
            r.iterator.output is Some,
            exists|b: &mut OutputDataModelDefinitionBuilder| #[trigger] setup.ensures((b,), ()) && b.is_fresh()
                && r.iterator.output == Some(final(b).value()),
            r.iterator == (SubscriptionIteratorDefinition { output: r.iterator.output, ..old(self).iterator }),
            *final(self) == *final(r),
    {
        let mut builder = OutputDataModelDefinitionBuilder::new();
        setup(&mut builder);
        let v = builder.build();
        self.iterator.output = Some(v);
        self
    }

    /// Sets the export, as configured by `setup`.
    pub fn with_export<F>(&mut self, setup: F) -> (r: &mut Self)
        where
            F: FnOnce(&mut OutputDataModelDefinitionBuilder),
        requires
            forall|b: &mut OutputDataModelDefinitionBuilder| setup.requires((b,)),
        ensures
            r.iterator.export is Some,
            exists|b: &mut OutputDataModelDefinitionBuilder| #[trigger] setup.ensures((b,), ()) && b.is_fresh()
                && r.iterator.export == Some(final(b).value()),
            r.iterator == (SubscriptionIteratorDefinition { export: r.iterator.export, ..old(self).iterator }),
            *final(self) == *final(r),
    {
        let mut builder = OutputDataModelDefinitionBuilder::new();
        setup(&mut builder);
        let v = builder.build();
        self.iterator.export = Some(v);
        self
    }

    pub fn build(self) -> (r: SubscriptionIteratorDefinition)
        ensures
            r == self.iterator,
    {
        self.iterator
    }
}

/// Builds an error. Fields left unset stay empty.
pub struct ErrorDefinitionBuilder {
    pub error: ErrorDefinition,
}

impl ErrorDefinitionBuilder {
    /// Nothing was set yet.
    pub open spec fn is_fresh(&self) -> bool {
        &&& self.error.type_@.len() == 0
        &&& self.error.title@.len() == 0
        &&& self.error.status == AnyValue::Null
        &&& self.error.detail is None
        &&& self.error.instance is None
    }

    pub fn new() -> (r: Self)
        ensures
            r.is_fresh(),
    {
        proof {
            reveal_strlit("");
        }
        ErrorDefinitionBuilder { error: ErrorDefinition::new("", "", AnyValue::Null, None, None) }
    }

    /// Sets the error's type URI.
    pub fn with_type(&mut self, type_: &str) -> (r: &mut Self)
        ensures
            r.error.type_@ == type_@,
            r.error == (ErrorDefinition { type_: r.error.type_, ..old(self).error }),
            *final(self) == *final(r),
    {
        self.error.type_ = type_.to_string();
        self
    }

    /// Sets the error's status.
    pub fn with_status(&mut self, status: AnyValue) -> (r: &mut Self)
        ensures
            r.error.status == status,
            r.error == (ErrorDefinition { status: r.error.status, ..old(self).error }),
            *final(self) == *final(r),
    {
        self.error.status = status;
        self
    }

    /// Sets the error's title.
    pub fn with_title(&mut self, title: &str) -> (r: &mut Self)
        ensures
            r.error.title@ == title@,
            r.error == (ErrorDefinition { title: r.error.title, ..old(self).error }),
            *final(self) == *final(r),
    {
        self.error.title = title.to_string();
        self
    }

    /// Sets the error's detail.
    pub fn with_detail(&mut self, detail: &str) -> (r: &mut Self)
        ensures
            holds_str(r.error.detail, detail),
            r.error == (ErrorDefinition { detail: r.error.detail, ..old(self).error }),
            *final(self) == *final(r),
    {
        self.error.detail = Some(detail.to_string());
        self
    }

    /// Sets the error's instance.
    pub fn with_instance(&mut self, instance: &str) -> (r: &mut Self)
        ensures
            holds_str(r.error.instance, instance),
            r.error == (ErrorDefinition { instance: r.error.instance, ..old(self).error }),
            *final(self) == *final(r),
    {
        self.error.instance = Some(instance.to_string());
        self
    }

    pub fn build(self) -> (r: ErrorDefinition)
        ensures
            r == self.error,
    {
        self.error
    }
}

/// The 'run' task that holds the given process and nothing else.
pub open spec fn run_of(p: ProcessTypeDefinition) -> RunTaskDefinition {
    RunTaskDefinition { run: p, common: no_fields() }
}

/// Builds a container process.
pub struct ContainerProcessDefinitionBuilder {
    pub process: ContainerProcessDefinition,
}

impl ContainerProcessDefinitionBuilder {
    /// Nothing was set yet.
    pub open spec fn is_fresh(&self) -> bool {
        &&& self.process.image@.len() == 0
        &&& self.process.name is None && self.process.command is None
        &&& self.process.ports is None && self.process.volumes is None
        &&& self.process.environment is None
    }

    pub fn new() -> (r: Self)
        ensures
            r.is_fresh(),
    {
        proof {
            reveal_strlit("");
        }
        ContainerProcessDefinitionBuilder {
            process: ContainerProcessDefinition::new("", None, None, None, None, None),
        }
    }

    /// Sets the container's name.
    pub fn with_name(&mut self, name: &str) -> (r: &mut Self)
        ensures
            holds_str(r.process.name, name),
            r.process == (ContainerProcessDefinition { name: r.process.name, ..old(self).process }),
            *final(self) == *final(r),
    {
        self.process.name = Some(name.to_string());
        self
    }

    /// Sets the image to run.
    pub fn with_image(&mut self, image: &str) -> (r: &mut Self)
        ensures
            r.process.image@ == image@,
            r.process == (ContainerProcessDefinition { image: r.process.image, ..old(self).process }),
            *final(self) == *final(r),
    {
        self.process.image = image.to_string();
        self
    }

    /// Sets the command to run.
    pub fn with_command(&mut self, command: &str) -> (r: &mut Self)
        ensures
            holds_str(r.process.command, command),
            r.process == (ContainerProcessDefinition { command: r.process.command, ..old(self).process }),
            *final(self) == *final(r),
    {
        self.process.command = Some(command.to_string());
        self
    }

    /// Maps a host port to a container port; a host port mapped before is mapped anew.
    pub fn with_port(&mut self, host_port: u16, container_port: u16) -> (r: &mut Self)
        ensures
            r.process.ports is Some,
            r.process.ports->0@ == put_port(port_entries(old(self).process.ports), host_port, container_port),
            r.process == (ContainerProcessDefinition { ports: r.process.ports, ..old(self).process }),
            *final(self) == *final(r),
    {
        let mut ports = match self.process.ports.take() {
            Some(p) => p,
            None => Vec::new(),
        };
        match port_position(&ports, host_port) {
            Some(i) => {
                ports.set(i, (host_port, container_port));
            },
            None => {
                ports.push((host_port, container_port));
            },
        }
        self.process.ports = Some(ports);
        self
    }

    /// Sets all the port mappings.
    pub fn with_ports(&mut self, ports: Vec<(u16, u16)>) -> (r: &mut Self)
        requires
            hosts_unique(ports@),
        ensures
            r.process.ports == Some(ports),
            r.process == (ContainerProcessDefinition { ports: r.process.ports, ..old(self).process }),
            *final(self) == *final(r),
    {
        self.process.ports = Some(ports);
        self
    }

    /// Mounts the volume of the given name at a path.
    pub fn with_volume(&mut self, key: &str, value: &str) -> (r: &mut Self)
        ensures
            r.process.volumes is Some,
            exists|k: String, v: String| k@ == key@ && v@ == value@ && entries_or_empty(r.process.volumes)
                == put_entry(entries_or_empty(old(self).process.volumes), k, v),
            r.process == (ContainerProcessDefinition { volumes: r.process.volumes, ..old(self).process }),
            *final(self) == *final(r),
    {
        insert_optional_entry(&mut self.process.volumes, key.to_string(), value.to_string());
        self
    }

    /// Sets all the volumes.
    pub fn with_volumes(&mut self, volumes: Vec<(String, String)>) -> (r: &mut Self)
        requires
            keys_unique(volumes@),
        ensures
            r.process.volumes == Some(volumes),
            r.process == (ContainerProcessDefinition { volumes: r.process.volumes, ..old(self).process }),
            *final(self) == *final(r),
    {
        self.process.volumes = Some(volumes);
        self
    }

    /// Sets the environment variable of the given name.
    pub fn with_environment(&mut self, name: &str, value: &str) -> (r: &mut Self)
        ensures
            r.process.environment is Some,
            exists|k: String, v: String| k@ == name@ && v@ == value@ && entries_or_empty(r.process.environment)
                == put_entry(entries_or_empty(old(self).process.environment), k, v),
            r.process == (ContainerProcessDefinition { environment: r.process.environment, ..old(self).process }),
            *final(self) == *final(r),
    {
        insert_optional_entry(&mut self.process.environment, name.to_string(), value.to_string());
        self
    }

    /// Sets all the environment variables.
    pub fn with_environment_variables(&mut self, environment: Vec<(String, String)>) -> (r: &mut Self)
        requires
            keys_unique(environment@),
        ensures
            r.process.environment == Some(environment),
            r.process == (ContainerProcessDefinition { environment: r.process.environment, ..old(self).process }),
            *final(self) == *final(r),
    {
        self.process.environment = Some(environment);
        self
    }

    /// A 'run' task for the container.
    pub fn build(self) -> (r: RunTaskDefinition)
        ensures
            r == run_of(process_of(ProcessDefinitionBuilder::Container(self))),
    {
        RunTaskDefinition::new(ProcessTypeDefinition::using_container(self.process, None))
    }
}

/// No two mappings are for the same host port.
pub open spec fn hosts_unique(d: Seq<(u16, u16)>) -> bool {
    forall|i: int, j: int| 0 <= i < j < d.len() ==> #[trigger] d[i].0 != #[trigger] d[j].0
}

/// Whether some mapping is for `host`; `i` is the first such.
pub open spec fn first_port_at(d: Seq<(u16, u16)>, host: u16, i: int) -> bool {
    &&& 0 <= i < d.len()
    &&& d[i].0 == host
    &&& forall|j: int| 0 <= j < i ==> #[trigger] d[j].0 != host
}

/// Position of the first mapping of `host`.
fn port_position(ports: &Vec<(u16, u16)>, host: u16) -> (r: Option<usize>)
    ensures
        match r {
            Some(i) => first_port_at(ports@, host, i as int)
                && i as int == choose|k: int| first_port_at(ports@, host, k),
            None => !exists|k: int| first_port_at(ports@, host, k),
        },
{
    let mut i: usize = 0;
    while i < ports.len()
        invariant
            0 <= i <= ports.len(),
            forall|j: int| 0 <= j < i ==> #[trigger] ports@[j].0 != host,
        decreases ports.len() - i,
    {
        if ports[i].0 == host {
            proof {
                assert(first_port_at(ports@, host, i as int));
                let k = choose|k: int| first_port_at(ports@, host, k);
                assert(k == i as int);
            }
            return Some(i);
        }
        i = i + 1;
    }
    None
}

/// The port mappings of an optional collection; none when absent.
pub open spec fn port_entries(d: Option<Vec<(u16, u16)>>) -> Seq<(u16, u16)> {
    match d {
        Some(v) => v@,
        None => Seq::empty(),
    }
}

/// The mappings with `host` mapped to `target`: the first mapping of `host` is replaced, or
/// the pair is appended.
pub open spec fn put_port(d: Seq<(u16, u16)>, host: u16, target: u16) -> Seq<(u16, u16)> {
    if exists|i: int| first_port_at(d, host, i) {
        d.update(choose|i: int| first_port_at(d, host, i), (host, target))
    } else {
        d.push((host, target))
    }
}

/// Builds a script process.
pub struct ScriptProcessDefinitionBuilder {
    pub process: ScriptProcessDefinition,
}

impl ScriptProcessDefinitionBuilder {
    /// Nothing was set yet.
    pub open spec fn is_fresh(&self) -> bool {
        &&& self.process.language@.len() == 0
        &&& self.process.code is None && self.process.source is None
        &&& self.process.stdin is None && self.process.arguments is None
        &&& self.process.environment is None
    }

    pub fn new() -> (r: Self)
        ensures
            r.is_fresh(),
    {
        ScriptProcessDefinitionBuilder {
            process: ScriptProcessDefinition {
                language: String::new(),
                code: None,
                source: None,
                stdin: None,
                arguments: None,
                environment: None,
            },
        }
    }

    /// Sets the script's language.
    pub fn with_language(&mut self, language: &str) -> (r: &mut Self)
        ensures
            r.process.language@ == language@,
            r.process == (ScriptProcessDefinition { language: r.process.language, ..old(self).process }),
            *final(self) == *final(r),
    {
        self.process.language = language.to_string();
        self
    }

    /// Sets the script's code.
    pub fn with_code(&mut self, code: &str) -> (r: &mut Self)
        ensures
            holds_str(r.process.code, code),
            r.process == (ScriptProcessDefinition { code: r.process.code, ..old(self).process }),
            *final(self) == *final(r),
    {
        self.process.code = Some(code.to_string());
        self
    }

    /// Reads the script from the resource configured by `setup`.
    pub fn with_source<F>(&mut self, setup: F) -> (r: &mut Self)
        where
            F: FnOnce(&mut ExternalResourceDefinitionBuilder),
        requires
            forall|b: &mut ExternalResourceDefinitionBuilder| setup.requires((b,)),
        ensures
            r.process.source is Some,
            exists|b: &mut ExternalResourceDefinitionBuilder| #[trigger] setup.ensures((b,), ()) && b.is_fresh()
                && r.process.source == Some(final(b).value()),
            r.process == (ScriptProcessDefinition { source: r.process.source, ..old(self).process }),
            *final(self) == *final(r),
    {
        let mut builder = ExternalResourceDefinitionBuilder::new();
        setup(&mut builder);
        let v = builder.build();
        self.process.source = Some(v);
        self
    }

    /// Appends an argument.
    pub fn with_argument(&mut self, value: &str) -> (r: &mut Self)
        ensures
            r.process.arguments is Some,
            r.process.arguments->0@.len() == string_list(old(self).process.arguments).len() + 1,
            r.process.arguments->0@.drop_last() == string_list(old(self).process.arguments),
            r.process.arguments->0@.last()@ == value@,
            r.process == (ScriptProcessDefinition { arguments: r.process.arguments, ..old(self).process }),
            *final(self) == *final(r),
    {
        let mut arguments = match self.process.arguments.take() {
            Some(a) => a,
            None => Vec::new(),
        };
        arguments.push(value.to_string());
        self.process.arguments = Some(arguments);
        self
    }

    /// Sets all the arguments.
    pub fn with_arguments(&mut self, arguments: Vec<String>) -> (r: &mut Self)
        ensures
            r.process.arguments == Some(arguments),
            r.process == (ScriptProcessDefinition { arguments: r.process.arguments, ..old(self).process }),
            *final(self) == *final(r),
    {
        self.process.arguments = Some(arguments);
        self
    }

    /// Sets the environment variable of the given name.
    pub fn with_environment(&mut self, name: &str, value: &str) -> (r: &mut Self)
        ensures
            r.process.environment is Some,
            exists|k: String, v: String| k@ == name@ && v@ == value@ && entries_or_empty(r.process.environment)
                == put_entry(entries_or_empty(old(self).process.environment), k, v),
            r.process == (ScriptProcessDefinition { environment: r.process.environment, ..old(self).process }),
            *final(self) == *final(r),
    {
        insert_optional_entry(&mut self.process.environment, name.to_string(), value.to_string());
        self
    }

    /// Sets all the environment variables.
    pub fn with_environment_variables(&mut self, environment: Vec<(String, String)>) -> (r: &mut Self)
        requires
            keys_unique(environment@),
        ensures
            r.process.environment == Some(environment),
            r.process == (ScriptProcessDefinition { environment: r.process.environment, ..old(self).process }),
            *final(self) == *final(r),
    {
        self.process.environment = Some(environment);
        self
    }

    /// Sets the script's standard input.
    pub fn with_stdin(&mut self, stdin: &str) -> (r: &mut Self)
        ensures
            holds_str(r.process.stdin, stdin),
            r.process == (ScriptProcessDefinition { stdin: r.process.stdin, ..old(self).process }),
            *final(self) == *final(r),
    {
        self.process.stdin = Some(stdin.to_string());
        self
    }

    /// A 'run' task for the script.
    pub fn build(self) -> (r: RunTaskDefinition)
        ensures
            r == run_of(process_of(ProcessDefinitionBuilder::Script(self))),
    {
        RunTaskDefinition::new(ProcessTypeDefinition::using_script(self.process, None))
    }
}

/// The strings of an optional list; none when absent.
pub open spec fn string_list(d: Option<Vec<String>>) -> Seq<String> {
    match d {
        Some(v) => v@,
        None => Seq::empty(),
    }
}

/// Builds a shell process.
pub struct ShellProcessDefinitionBuilder {
    pub process: ShellProcessDefinition,
}

impl ShellProcessDefinitionBuilder {
    /// Nothing was set yet.
    pub open spec fn is_fresh(&self) -> bool {
        &&& self.process.command@.len() == 0
        &&& self.process.arguments is None && self.process.environment is None
    }

    pub fn new() -> (r: Self)
        ensures
            r.is_fresh(),
    {
        proof {
            reveal_strlit("");
        }
        ShellProcessDefinitionBuilder { process: ShellProcessDefinition::new("", None, None) }
    }

    /// Sets the command to run.
    pub fn with_command(&mut self, command: &str) -> (r: &mut Self)
        ensures
            r.process.command@ == command@,
            r.process == (ShellProcessDefinition { command: r.process.command, ..old(self).process }),
            *final(self) == *final(r),
    {
        self.process.command = command.to_string();
        self
    }

    /// Appends an argument.
    pub fn with_argument(&mut self, argument: &str) -> (r: &mut Self)
        ensures
            r.process.arguments is Some,
            r.process.arguments->0@.len() == string_list(old(self).process.arguments).len() + 1,
            r.process.arguments->0@.drop_last() == string_list(old(self).process.arguments),
            r.process.arguments->0@.last()@ == argument@,
            r.process == (ShellProcessDefinition { arguments: r.process.arguments, ..old(self).process }),
            *final(self) == *final(r),
    {
        let mut arguments = match self.process.arguments.take() {
            Some(a) => a,
            None => Vec::new(),
        };
        arguments.push(argument.to_string());
        self.process.arguments = Some(arguments);
        self
    }

    /// Sets all the arguments.
    pub fn with_arguments(&mut self, arguments: Vec<String>) -> (r: &mut Self)
        ensures
            r.process.arguments == Some(arguments),
            r.process == (ShellProcessDefinition { arguments: r.process.arguments, ..old(self).process }),
            *final(self) == *final(r),
    {
        self.process.arguments = Some(arguments);
        self
    }

    /// Sets the environment variable of the given name.
    pub fn with_environment(&mut self, name: &str, value: &str) -> (r: &mut Self)
        ensures
            r.process.environment is Some,
            exists|k: String, v: String| k@ == name@ && v@ == value@ && entries_or_empty(r.process.environment)
                == put_entry(entries_or_empty(old(self).process.environment), k, v),
            r.process == (ShellProcessDefinition { environment: r.process.environment, ..old(self).process }),
            *final(self) == *final(r),
    {
        insert_optional_entry(&mut self.process.environment, name.to_string(), value.to_string());
        self
    }

    /// Sets all the environment variables.
    pub fn with_environment_variables(&mut self, environment: Vec<(String, String)>) -> (r: &mut Self)
        requires
            keys_unique(environment@),
        ensures
            r.process.environment == Some(environment),
            r.process == (ShellProcessDefinition { environment: r.process.environment, ..old(self).process }),
            *final(self) == *final(r),
    {
        self.process.environment = Some(environment);
        self
    }

    /// A 'run' task for the shell command.
    pub fn build(self) -> (r: RunTaskDefinition)
        ensures
            r == run_of(process_of(ProcessDefinitionBuilder::Shell(self))),
    {
        RunTaskDefinition::new(ProcessTypeDefinition::using_shell(self.process, None))
    }
}

/// Builds a workflow process.
pub struct WorkflowProcessDefinitionBuilder {
    pub process: WorkflowProcessDefinition,
}

impl WorkflowProcessDefinitionBuilder {
    /// Nothing was set yet.
    pub open spec fn is_fresh(&self) -> bool {
        &&& self.process.namespace@.len() == 0 && self.process.name@.len() == 0
        &&& self.process.version@.len() == 0 && self.process.input is None
    }

    pub fn new() -> (r: Self)
        ensures
            r.is_fresh(),
    {
        proof {
            reveal_strlit("");
        }
        WorkflowProcessDefinitionBuilder { process: WorkflowProcessDefinition::new("", "", "", None) }
    }

    /// Sets the namespace of the workflow to run.
    pub fn with_namespace(&mut self, namespace: &str) -> (r: &mut Self)
        ensures
            r.process.namespace@ == namespace@,
            r.process == (WorkflowProcessDefinition { namespace: r.process.namespace, ..old(self).process }),
            *final(self) == *final(r),
    {
        self.process.namespace = namespace.to_string();
        self
    }

    /// Sets the name of the workflow to run.
    pub fn with_name(&mut self, name: &str) -> (r: &mut Self)
        ensures
            r.process.name@ == name@,
            r.process == (WorkflowProcessDefinition { name: r.process.name, ..old(self).process }),
            *final(self) == *final(r),
    {
        self.process.name = name.to_string();
        self
    }

    /// Sets the version of the workflow to run.
    pub fn with_version(&mut self, version: &str) -> (r: &mut Self)
        ensures
            r.process.version@ == version@,
            r.process == (WorkflowProcessDefinition { version: r.process.version, ..old(self).process }),
            *final(self) == *final(r),
    {
        self.process.version = version.to_string();
        self
    }

    /// Sets the input of the workflow to run.
    pub fn with_input(&mut self, input: AnyValue) -> (r: &mut Self)
        ensures
            r.process.input == Some(input),
            r.process == (WorkflowProcessDefinition { input: r.process.input, ..old(self).process }),
            *final(self) == *final(r),
    {
        self.process.input = Some(input);
        self
    }

    /// A 'run' task for the workflow.
    pub fn build(self) -> (r: RunTaskDefinition)
        ensures
            r == run_of(process_of(ProcessDefinitionBuilder::Workflow(self))),
    {
        RunTaskDefinition::new(ProcessTypeDefinition::using_workflow(self.process, None))
    }
}

/// Builds an external resource.
pub struct ExternalResourceDefinitionBuilder {
    pub resource: ExternalResourceDefinition,
}

impl ExternalResourceDefinitionBuilder {
    pub fn new() -> (r: Self)
        ensures
            r.resource.name is None,
            r.resource.endpoint matches OneOfEndpointDefinitionUri::Uri(u) && u@.len() == 0,
    {
        ExternalResourceDefinitionBuilder {
            resource: ExternalResourceDefinition { name: None, endpoint: OneOfEndpointDefinitionUri::Uri(String::new()) },
        }
    }

    /// Sets the resource's name.
    pub fn with_name(&mut self, name: &str) -> (r: &mut Self)
        ensures
            holds_str(r.resource.name, name),
            r.resource == (ExternalResourceDefinition { name: r.resource.name, ..old(self).resource }),
            *final(self) == *final(r),
    {
        self.resource.name = Some(name.to_string());
        self
    }

    /// Sets the endpoint, as configured by `setup`.
    pub fn with_endpoint<F>(&mut self, setup: F) -> (r: &mut Self)
        where
            F: FnOnce(&mut EndpointDefinitionBuilder),
        requires
            forall|b: &mut EndpointDefinitionBuilder| setup.requires((b,)),
        ensures
            r.resource.endpoint is EndpointDefinition,
            exists|b: &mut EndpointDefinitionBuilder| #[trigger] setup.ensures((b,), ()) && b.is_fresh()
                && r.resource.endpoint == OneOfEndpointDefinitionUri::EndpointDefinition(final(b).value()),
            r.resource.name == old(self).resource.name,
            *final(self) == *final(r),
    {
        let mut builder = EndpointDefinitionBuilder::new();
        setup(&mut builder);
        self.resource.endpoint = OneOfEndpointDefinitionUri::EndpointDefinition(builder.build());
        self
    }

    /// Sets the endpoint to a bare URI.
    pub fn with_endpoint_uri(&mut self, uri: &str) -> (r: &mut Self)
        ensures
            r.resource.endpoint matches OneOfEndpointDefinitionUri::Uri(u) && u@ == uri@,
            r.resource.name == old(self).resource.name,
            *final(self) == *final(r),
    {
        self.resource.endpoint = OneOfEndpointDefinitionUri::Uri(uri.to_string());
        self
    }

    pub fn build(self) -> (r: ExternalResourceDefinition)
        ensures
            r == self.resource,
    {
        self.resource
    }
}

/// Builds an endpoint.
pub struct EndpointDefinitionBuilder {
    pub endpoint: EndpointDefinition,
}

impl EndpointDefinitionBuilder {
    pub fn new() -> (r: Self)
        ensures
            r.endpoint.uri@.len() == 0,
            r.endpoint.authentication is None,
    {
        EndpointDefinitionBuilder { endpoint: EndpointDefinition { uri: String::new(), authentication: None } }
    }

    /// Sets the endpoint's URI.
    pub fn with_uri(&mut self, uri: &str) -> (r: &mut Self)
        ensures
            r.endpoint.uri@ == uri@,
            r.endpoint == (EndpointDefinition { uri: r.endpoint.uri, ..old(self).endpoint }),
            *final(self) == *final(r),
    {
        self.endpoint.uri = uri.to_string();
        self
    }

    /// Sets the authentication, as configured by `setup`.
    pub fn with_authentication<F>(&mut self, setup: F) -> (r: &mut Self)
        where
            F: FnOnce(&mut AuthenticationPolicyDefinitionBuilder),
        requires
            forall|b: &mut AuthenticationPolicyDefinitionBuilder| setup.requires((b,)),
            forall|b: &mut AuthenticationPolicyDefinitionBuilder| #[trigger] setup.ensures((b,), ()) ==> final(b).is_configured(),
        ensures
            r.endpoint.authentication is Some,
            exists|b: &mut AuthenticationPolicyDefinitionBuilder| #[trigger] setup.ensures((b,), ()) && b.is_fresh()
                && r.endpoint.authentication == Some(final(b).value()),
            r.endpoint == (EndpointDefinition { authentication: r.endpoint.authentication, ..old(self).endpoint }),
            *final(self) == *final(r),
    {
        let mut builder = AuthenticationPolicyDefinitionBuilder::new();
        setup(&mut builder);
        let v = builder.build();
        self.endpoint.authentication = Some(v);
        self
    }

    pub fn build(self) -> (r: EndpointDefinition)
        ensures
            r == self.endpoint,
    {
        self.endpoint
    }
}

/// Builds a case of a 'switch' task.
pub struct SwitchCaseDefinitionBuilder {
    pub case: SwitchCaseDefinition,
}

impl SwitchCaseDefinitionBuilder {
    pub fn new() -> (r: Self)
        ensures
            r.case.when is None && r.case.then_ is None,
    {
        SwitchCaseDefinitionBuilder { case: SwitchCaseDefinition { when: None, then_: None } }
    }

    /// Sets the condition of the case.
    pub fn when(&mut self, expression: &str) -> (r: &mut Self)
        ensures
            holds_str(r.case.when, expression),
            r.case == (SwitchCaseDefinition { when: r.case.when, ..old(self).case }),
            *final(self) == *final(r),
    {
        self.case.when = Some(expression.to_string());
        self
    }

    /// Sets what to do when the case matches.
    pub fn then_(&mut self, directive: &str) -> (r: &mut Self)
        ensures
            holds_str(r.case.then_, directive),
            r.case == (SwitchCaseDefinition { then_: r.case.then_, ..old(self).case }),
            *final(self) == *final(r),
    {
        self.case.then_ = Some(directive.to_string());
        self
    }

    pub fn build(self) -> (r: SwitchCaseDefinition)
        ensures
            r == self.case,
    {
        self.case
    }
}

/// Builds the error handling of a 'try' task.
pub struct ErrorCatcherDefinitionBuilder {
    pub catch: ErrorCatcherDefinition,
}

impl ErrorCatcherDefinitionBuilder {
    pub fn new() -> (r: Self)
        ensures
            r.catch == ErrorCatcherDefinition::empty(),
    {
        ErrorCatcherDefinitionBuilder { catch: ErrorCatcherDefinition::new() }
    }

    /// Sets the errors to catch, as configured by `setup`.
    pub fn errors<F>(&mut self, setup: F) -> (r: &mut Self)
        where
            F: FnOnce(&mut ErrroFilterDefinitionBuilder),
        requires
            forall|b: &mut ErrroFilterDefinitionBuilder| setup.requires((b,)),
        ensures
            r.catch.errors is Some,
            exists|b: &mut ErrroFilterDefinitionBuilder| #[trigger] setup.ensures((b,), ()) && b.is_fresh()
                && r.catch.errors == Some(final(b).value()),
            r.catch == (ErrorCatcherDefinition { errors: r.catch.errors, ..old(self).catch }),
            *final(self) == *final(r),
    {
        let mut builder = ErrroFilterDefinitionBuilder::new();
        setup(&mut builder);
        let v = builder.build();
        self.catch.errors = Some(v);
        self
    }

    /// Names the variable that holds the caught error.
    pub fn as_(&mut self, variable: &str) -> (r: &mut Self)
        ensures
            holds_str(r.catch.as_, variable),
            r.catch == (ErrorCatcherDefinition { as_: r.catch.as_, ..old(self).catch }),
            *final(self) == *final(r),
    {
        self.catch.as_ = Some(variable.to_string());
        self
    }

    /// Catches only when the condition holds.
    pub fn when(&mut self, expression: &str) -> (r: &mut Self)
        ensures
            holds_str(r.catch.when, expression),
            r.catch == (ErrorCatcherDefinition { when: r.catch.when, ..old(self).catch }),
            *final(self) == *final(r),
    {
        self.catch.when = Some(expression.to_string());
        self
    }

    /// Catches only when the condition does not hold.
    pub fn except_when(&mut self, expression: &str) -> (r: &mut Self)
        ensures
            holds_str(r.catch.except_when, expression),
            r.catch == (ErrorCatcherDefinition { except_when: r.catch.except_when, ..old(self).catch }),
            *final(self) == *final(r),
    {
        self.catch.except_when = Some(expression.to_string());
        self
    }

    /// Retries as configured by `setup`.
    pub fn retry<F>(&mut self, setup: F) -> (r: &mut Self)
        where
            F: FnOnce(&mut RetryPolicyDefinitionBuilder),
        requires
            forall|b: &mut RetryPolicyDefinitionBuilder| setup.requires((b,)),
        ensures
            r.catch.retry is Some,
            exists|b: &mut RetryPolicyDefinitionBuilder| #[trigger] setup.ensures((b,), ()) && b.is_fresh()
                && r.catch.retry == Some(OneOfRetryPolicyDefinitionOrReference::Retry(final(b).value())),
            r.catch == (ErrorCatcherDefinition { retry: r.catch.retry, ..old(self).catch }),
            *final(self) == *final(r),
    {
        let mut builder = RetryPolicyDefinitionBuilder::new();
        setup(&mut builder);
        let v = builder.build();
        self.catch.retry = Some(OneOfRetryPolicyDefinitionOrReference::Retry(v));
        self
    }

    /// Retries as the reusable policy of the given name says.
    pub fn retry_using(&mut self, reference: &str) -> (r: &mut Self)
        ensures
            r.catch.retry matches Some(OneOfRetryPolicyDefinitionOrReference::Reference(n)) && n@ == reference@,
            r.catch == (ErrorCatcherDefinition { retry: r.catch.retry, ..old(self).catch }),
            *final(self) == *final(r),
    {
        self.catch.retry = Some(OneOfRetryPolicyDefinitionOrReference::Reference(reference.to_string()));
        self
    }

    /// Sets the tasks to run when an error is caught, as configured by `setup`.
    pub fn do_<F>(&mut self, setup: F) -> (r: &mut Self)
        where
            F: FnOnce(&mut TaskDefinitionMapBuilder),
        requires
            forall|b: &mut TaskDefinitionMapBuilder| setup.requires((b,)),
        ensures
            r.catch.do_ is Some,
            exists|b: &mut TaskDefinitionMapBuilder| #[trigger] setup.ensures((b,), ()) && b.is_fresh()
                && r.catch.do_ == Some(final(b).value()),
            r.catch == (ErrorCatcherDefinition { do_: r.catch.do_, ..old(self).catch }),
            *final(self) == *final(r),
    {
        let mut builder = TaskDefinitionMapBuilder::new();
        setup(&mut builder);
        let v = builder.build();
        self.catch.do_ = Some(v);
        self
    }

    pub fn build(self) -> (r: ErrorCatcherDefinition)
        ensures
            r == self.catch,
    {
        self.catch
    }
}

/// Builds a filter on errors.
pub struct ErrroFilterDefinitionBuilder {
    pub filter: ErrorFilterDefinition,
}

impl ErrroFilterDefinitionBuilder {
    pub fn new() -> (r: Self)
        ensures
            r.filter.with is None,
    {
        ErrroFilterDefinitionBuilder { filter: ErrorFilterDefinition { with: None } }
    }

    /// Sets the attribute of the given name to match.
    pub fn with(&mut self, name: &str, value: AnyValue) -> (r: &mut Self)
        ensures
            r.filter.with is Some,
            exists|k: String, v: AnyValue| k@ == name@ && v == value && entries_or_empty(r.filter.with)
                == put_entry(entries_or_empty(old(self).filter.with), k, v),
            r.filter == (ErrorFilterDefinition { with: r.filter.with, ..old(self).filter }),
            *final(self) == *final(r),
    {
        insert_optional_entry(&mut self.filter.with, name.to_string(), value);
        self
    }

    /// Sets all the attributes to match.
    pub fn with_attributes(&mut self, attributes: Vec<(String, AnyValue)>) -> (r: &mut Self)
        requires
            keys_unique(attributes@),
        ensures
            r.filter.with == Some(attributes),
            r.filter == (ErrorFilterDefinition { with: r.filter.with, ..old(self).filter }),
            *final(self) == *final(r),
    {
        self.filter.with = Some(attributes);
        self
    }

    pub fn build(self) -> (r: ErrorFilterDefinition)
        ensures
            r == self.filter,
    {
        self.filter
    }
}

/// Builds a retry policy.
pub struct RetryPolicyDefinitionBuilder {
    pub retry: RetryPolicyDefinition,
}

impl RetryPolicyDefinitionBuilder {
    pub fn new() -> (r: Self)
        ensures
            r.retry.when is None && r.retry.except_when is None && r.retry.limit is None,
            r.retry.delay is None && r.retry.backoff is None && r.retry.jitter is None,
    {
        RetryPolicyDefinitionBuilder {
            retry: RetryPolicyDefinition {
                when: None,
                except_when: None,
                limit: None,
                delay: None,
                backoff: None,
                jitter: None,
            },
        }
    }

    /// Retries only when the condition holds.
    pub fn when(&mut self, expression: &str) -> (r: &mut Self)
        ensures
            holds_str(r.retry.when, expression),
            r.retry == (RetryPolicyDefinition { when: r.retry.when, ..old(self).retry }),
            *final(self) == *final(r),
    {
        self.retry.when = Some(expression.to_string());
        self
    }

    /// Retries only when the condition does not hold.
    pub fn except_when(&mut self, expression: &str) -> (r: &mut Self)
        ensures
            holds_str(r.retry.except_when, expression),
            r.retry == (RetryPolicyDefinition { except_when: r.retry.except_when, ..old(self).retry }),
            *final(self) == *final(r),
    {
        self.retry.except_when = Some(expression.to_string());
        self
    }

    /// Sets the limits, as configured by `setup`.
    pub fn limit<F>(&mut self, setup: F) -> (r: &mut Self)
        where
            F: FnOnce(&mut RetryPolicyLimitDefinitionBuilder),
        requires
            forall|b: &mut RetryPolicyLimitDefinitionBuilder| setup.requires((b,)),
        ensures
            r.retry.limit is Some,
            exists|b: &mut RetryPolicyLimitDefinitionBuilder| #[trigger] setup.ensures((b,), ()) && b.is_fresh()
                && r.retry.limit == Some(final(b).value()),
            r.retry == (RetryPolicyDefinition { limit: r.retry.limit, ..old(self).retry }),
            *final(self) == *final(r),
    {
        let mut builder = RetryPolicyLimitDefinitionBuilder::new();
        setup(&mut builder);
        let v = builder.build();
        self.retry.limit = Some(v);
        self
    }

    /// Sets the delay between attempts.
    pub fn delay(&mut self, duration: Duration) -> (r: &mut Self)
        ensures
            r.retry.delay == Some(duration),
            r.retry == (RetryPolicyDefinition { delay: r.retry.delay, ..old(self).retry }),
            *final(self) == *final(r),
    {
        self.retry.delay = Some(duration);
        self
    }

    /// Sets the backoff, as configured by `setup`.
    pub fn backoff<F>(&mut self, setup: F) -> (r: &mut Self)
        where
            F: FnOnce(&mut GenericBackoffStrategyDefinitionBuilder),
        requires
            forall|b: &mut GenericBackoffStrategyDefinitionBuilder| setup.requires((b,)),
            forall|b: &mut GenericBackoffStrategyDefinitionBuilder| #[trigger] setup.ensures((b,), ()) ==> final(b).buildable(),
        ensures
            r.retry.backoff is Some,
            exists|b: &mut GenericBackoffStrategyDefinitionBuilder| #[trigger] setup.ensures((b,), ()) && b.is_fresh()
                && r.retry.backoff == Some(final(b).value()),
            r.retry == (RetryPolicyDefinition { backoff: r.retry.backoff, ..old(self).retry }),
            *final(self) == *final(r),
    {
        let mut builder = GenericBackoffStrategyDefinitionBuilder::new();
        setup(&mut builder);
        let v = builder.build();
        self.retry.backoff = Some(v);
        self
    }

    /// Sets the jitter, as configured by `setup`.
    pub fn jitter<F>(&mut self, setup: F) -> (r: &mut Self)
        where
            F: FnOnce(&mut JitterDefinitionBuilder),
        requires
            forall|b: &mut JitterDefinitionBuilder| setup.requires((b,)),
        ensures
            r.retry.jitter is Some,
            exists|b: &mut JitterDefinitionBuilder| #[trigger] setup.ensures((b,), ()) && b.is_fresh()
                && r.retry.jitter == Some(final(b).value()),
            r.retry == (RetryPolicyDefinition { jitter: r.retry.jitter, ..old(self).retry }),
            *final(self) == *final(r),
    {
        let mut builder = JitterDefinitionBuilder::new();
        setup(&mut builder);
        let v = builder.build();
        self.retry.jitter = Some(v);
        self
    }

    pub fn build(self) -> (r: RetryPolicyDefinition)
        ensures
            r == self.retry,
    {
        self.retry
    }
}

/// Builds the limits of a retry policy.
pub struct RetryPolicyLimitDefinitionBuilder {
    pub limit: RetryPolicyLimitDefinition,
}

impl RetryPolicyLimitDefinitionBuilder {
    pub fn new() -> (r: Self)
        ensures
            r.limit.attempt is None && r.limit.duration is None,
    {
        RetryPolicyLimitDefinitionBuilder { limit: RetryPolicyLimitDefinition { attempt: None, duration: None } }
    }

    /// Sets the limits on attempts, as configured by `setup`.
    pub fn attempt<F>(&mut self, setup: F) -> (r: &mut Self)
        where
            F: FnOnce(&mut RetryAttemptLimitDefinitionBuilder),
        requires
            forall|b: &mut RetryAttemptLimitDefinitionBuilder| setup.requires((b,)),
        ensures
            r.limit.attempt is Some,
            exists|b: &mut RetryAttemptLimitDefinitionBuilder| #[trigger] setup.ensures((b,), ()) && b.is_fresh()
                && r.limit.attempt == Some(final(b).value()),
            r.limit == (RetryPolicyLimitDefinition { attempt: r.limit.attempt, ..old(self).limit }),
            *final(self) == *final(r),
    {
        let mut builder = RetryAttemptLimitDefinitionBuilder::new();
        setup(&mut builder);
        let v = builder.build();
        self.limit.attempt = Some(v);
        self
    }

    /// Sets the longest time to keep retrying.
    pub fn duration(&mut self, duration: Duration) -> (r: &mut Self)
        ensures
            r.limit.duration == Some(duration),
            r.limit == (RetryPolicyLimitDefinition { duration: r.limit.duration, ..old(self).limit }),
            *final(self) == *final(r),
    {
        self.limit.duration = Some(duration);
        self
    }

    pub fn build(self) -> (r: RetryPolicyLimitDefinition)
        ensures
            r == self.limit,
    {
        self.limit
    }
}

/// Builds the limits on attempts.
pub struct RetryAttemptLimitDefinitionBuilder {
    pub attempt: RetryAttemptLimitDefinition,
}

impl RetryAttemptLimitDefinitionBuilder {
    pub fn new() -> (r: Self)
        ensures
            r.attempt.count is None && r.attempt.duration is None,
    {
        RetryAttemptLimitDefinitionBuilder { attempt: RetryAttemptLimitDefinition { count: None, duration: None } }
    }

    /// Sets the most attempts.
    pub fn count(&mut self, count: u16) -> (r: &mut Self)
        ensures
            r.attempt.count == Some(count),
            r.attempt == (RetryAttemptLimitDefinition { count: r.attempt.count, ..old(self).attempt }),
            *final(self) == *final(r),
    {
        self.attempt.count = Some(count);
        self
    }

    /// Sets the longest time an attempt may last.
    pub fn duration(&mut self, duration: Duration) -> (r: &mut Self)
        ensures
            r.attempt.duration == Some(duration),
            r.attempt == (RetryAttemptLimitDefinition { duration: r.attempt.duration, ..old(self).attempt }),
            *final(self) == *final(r),
    {
        self.attempt.duration = Some(duration);
        self
    }

    pub fn build(self) -> (r: RetryAttemptLimitDefinition)
        ensures
            r == self.attempt,
    {
        self.attempt
    }
}

/// Builds a backoff strategy: select constant, exponential or linear. Selecting replaces the
/// selection made before.
pub struct GenericBackoffStrategyDefinitionBuilder {
    pub builder: Option<BackoffStrategyDefinitionBuilder>,
}

/// The builder of the selected backoff strategy.
pub enum BackoffStrategyDefinitionBuilder {
    Constant(ConstantBackoffDefinitionBuilder),
    Exponential(ExponentialBackoffDefinitionBuilder),
    Linear(LinearBackoffDefinitionBuilder),
}

/// The strategy that a selected builder yields: its slot filled, the others empty.
pub open spec fn backoff_of(b: BackoffStrategyDefinitionBuilder) -> BackoffStrategyDefinition {
    match b {
        BackoffStrategyDefinitionBuilder::Constant(_) => BackoffStrategyDefinition {
            constant: Some(ConstantBackoffDefinition {}), exponential: None, linear: None },
        BackoffStrategyDefinitionBuilder::Exponential(_) => BackoffStrategyDefinition {
            constant: None, exponential: Some(ExponentialBackoffDefinition {}), linear: None },
        BackoffStrategyDefinitionBuilder::Linear(l) => BackoffStrategyDefinition {
            constant: None, exponential: None, linear: Some(LinearBackoffDefinition { increment: l.increment }) },
    }
}

impl GenericBackoffStrategyDefinitionBuilder {
    /// Whether a strategy was selected.
    pub open spec fn buildable(&self) -> bool {
        self.builder is Some
    }

    pub fn new() -> (r: Self)
        ensures
            r.builder is None,
    {
        GenericBackoffStrategyDefinitionBuilder { builder: None }
    }

    /// Selects a constant delay.
    pub fn constant(&mut self) -> (r: &mut ConstantBackoffDefinitionBuilder)
        ensures
            final(self).builder == Some(BackoffStrategyDefinitionBuilder::Constant(*final(r))),
    {
        self.builder = Some(BackoffStrategyDefinitionBuilder::Constant(ConstantBackoffDefinitionBuilder::new()));
        match &mut self.builder {
            Some(BackoffStrategyDefinitionBuilder::Constant(b)) => b,
            _ => vstd::pervasive::unreached(),
        }
    }

    /// Selects an exponentially growing delay.
    pub fn exponential(&mut self) -> (r: &mut ExponentialBackoffDefinitionBuilder)
        ensures
            final(self).builder == Some(BackoffStrategyDefinitionBuilder::Exponential(*final(r))),
    {
        self.builder = Some(BackoffStrategyDefinitionBuilder::Exponential(ExponentialBackoffDefinitionBuilder::new()));
        match &mut self.builder {
            Some(BackoffStrategyDefinitionBuilder::Exponential(b)) => b,
            _ => vstd::pervasive::unreached(),
        }
    }

    /// Selects a linearly growing delay.
    pub fn linear(&mut self) -> (r: &mut LinearBackoffDefinitionBuilder)
        ensures
            r.increment is None,
            final(self).builder == Some(BackoffStrategyDefinitionBuilder::Linear(*final(r))),
    {
        self.builder = Some(BackoffStrategyDefinitionBuilder::Linear(LinearBackoffDefinitionBuilder::new()));
        match &mut self.builder {
            Some(BackoffStrategyDefinitionBuilder::Linear(b)) => b,
            _ => vstd::pervasive::unreached(),
        }
    }

    /// The configured strategy. One must have been selected.
    pub fn build(self) -> (r: BackoffStrategyDefinition)
        requires
            self.buildable(),
        ensures
            r == backoff_of(self.builder->0),
    {
        match self.builder {
            Some(builder) => match builder {
                BackoffStrategyDefinitionBuilder::Constant(b) => b.build(),
                BackoffStrategyDefinitionBuilder::Exponential(b) => b.build(),
                BackoffStrategyDefinitionBuilder::Linear(b) => b.build(),
            },
            None => vstd::pervasive::unreached(),
        }
    }
}

/// Builds a constant backoff.
pub struct ConstantBackoffDefinitionBuilder;

impl ConstantBackoffDefinitionBuilder {
    pub fn new() -> (r: Self) {
        ConstantBackoffDefinitionBuilder
    }

    pub fn build(self) -> (r: BackoffStrategyDefinition)
        ensures
            r == backoff_of(BackoffStrategyDefinitionBuilder::Constant(self)),
    {
        let mut strategy = BackoffStrategyDefinition::new();
        strategy.constant = Some(ConstantBackoffDefinition::new());
        strategy
    }
}

/// Builds an exponential backoff.
pub struct ExponentialBackoffDefinitionBuilder;

impl ExponentialBackoffDefinitionBuilder {
    pub fn new() -> (r: Self) {
        ExponentialBackoffDefinitionBuilder
    }

    pub fn build(self) -> (r: BackoffStrategyDefinition)
        ensures
            r == backoff_of(BackoffStrategyDefinitionBuilder::Exponential(self)),
    {
        let mut strategy = BackoffStrategyDefinition::new();
        strategy.exponential = Some(ExponentialBackoffDefinition::new());
        strategy
    }
}

/// Builds a linear backoff.
pub struct LinearBackoffDefinitionBuilder {
    pub increment: Option<Duration>,
}

impl LinearBackoffDefinitionBuilder {
    pub fn new() -> (r: Self)
        ensures
            r.increment is None,
    {
        LinearBackoffDefinitionBuilder { increment: None }
    }

    /// Sets how much the delay grows per attempt.
    pub fn with_increment(&mut self, increment: Duration) -> (r: &mut Self)
        ensures
            r.increment == Some(increment),
            *final(self) == *final(r),
    {
        self.increment = Some(increment);
        self
    }

    pub fn build(self) -> (r: BackoffStrategyDefinition)
        ensures
            r == backoff_of(BackoffStrategyDefinitionBuilder::Linear(self)),
    {
        let mut linear = LinearBackoffDefinition::new();
        linear.increment = self.increment;
        let mut strategy = BackoffStrategyDefinition::new();
        strategy.linear = Some(linear);
        strategy
    }
}

/// Builds the bounds of a jitter.
pub struct JitterDefinitionBuilder {
    pub jitter: JitterDefinition,
}

impl JitterDefinitionBuilder {
    pub fn new() -> (r: Self)
        ensures
            r.jitter.from == empty_duration() && r.jitter.to == empty_duration(),
    {
        JitterDefinitionBuilder { jitter: JitterDefinition { from: Duration::default(), to: Duration::default() } }
    }

    /// Sets the lower bound.
    pub fn from(&mut self, duration: Duration) -> (r: &mut Self)
        ensures
            r.jitter.from == duration,
            r.jitter == (JitterDefinition { from: r.jitter.from, ..old(self).jitter }),
            *final(self) == *final(r),
    {
        self.jitter.from = duration;
        self
    }

    /// Sets the upper bound.
    pub fn to(&mut self, duration: Duration) -> (r: &mut Self)
        ensures
            r.jitter.to == duration,
            r.jitter == (JitterDefinition { to: r.jitter.to, ..old(self).jitter }),
            *final(self) == *final(r),
    {
        self.jitter.to = duration;
        self
    }

    pub fn build(self) -> (r: JitterDefinition)
        ensures
            r == self.jitter,
    {
        self.jitter
    }
}

/// Builds the handling of an input.
pub struct InputDataModelDefinitionBuilder {
    pub input: InputDataModelDefinition,
}

impl InputDataModelDefinitionBuilder {
    pub fn new() -> (r: Self)
        ensures
            r.input.schema is None && r.input.from is None,
    {
        InputDataModelDefinitionBuilder { input: InputDataModelDefinition { schema: None, from: None } }
    }

    /// Sets the schema, as configured by `setup`.
    pub fn with_schema<F>(&mut self, setup: F) -> (r: &mut Self)
        where
            F: FnOnce(&mut SchemaDefinitionBuilder),
        requires
            forall|b: &mut SchemaDefinitionBuilder| setup.requires((b,)),
        ensures
            r.input.schema is Some,
            exists|b: &mut SchemaDefinitionBuilder| #[trigger] setup.ensures((b,), ()) && b.is_fresh()
                && r.input.schema == Some(final(b).value()),
            r.input == (InputDataModelDefinition { schema: r.input.schema, ..old(self).input }),
            *final(self) == *final(r),
    {
        let mut builder = SchemaDefinitionBuilder::new();
        setup(&mut builder);
        let v = builder.build();
        self.input.schema = Some(v);
        self
    }

    /// Sets how the input is transformed.
    pub fn from(&mut self, expression: AnyValue) -> (r: &mut Self)
        ensures
            r.input.from == Some(expression),
            r.input == (InputDataModelDefinition { from: r.input.from, ..old(self).input }),
            *final(self) == *final(r),
    {
        self.input.from = Some(expression);
        self
    }

    pub fn build(self) -> (r: InputDataModelDefinition)
        ensures
            r == self.input,
    {
        self.input
    }
}

/// Builds the handling of an output.
pub struct OutputDataModelDefinitionBuilder {
    pub output: OutputDataModelDefinition,
}

impl OutputDataModelDefinitionBuilder {
    pub fn new() -> (r: Self)
        ensures
            r.output.schema is None && r.output.as_ is None,
    {
        OutputDataModelDefinitionBuilder { output: OutputDataModelDefinition { schema: None, as_: None } }
    }

    /// Sets how the output is transformed.
    pub fn as_(&mut self, expression: AnyValue) -> (r: &mut Self)
        ensures
            r.output.as_ == Some(expression),
            r.output == (OutputDataModelDefinition { as_: r.output.as_, ..old(self).output }),
            *final(self) == *final(r),
    {
        self.output.as_ = Some(expression);
        self
    }

    pub fn build(self) -> (r: OutputDataModelDefinition)
        ensures
            r == self.output,
    {
        self.output
    }
}

/// Builds a schema.
pub struct SchemaDefinitionBuilder {
    pub schema: SchemaDefinition,
}

impl SchemaDefinitionBuilder {
    /// A schema in the default format.
    pub fn new() -> (r: Self)
        ensures
            r.schema.format@ == "json"@,
            r.schema.resource is None && r.schema.document is None,
    {
        SchemaDefinitionBuilder { schema: SchemaDefinition { format: default_schema_format(), resource: None, document: None } }
    }

    /// Sets the schema's format.
    pub fn with_format(&mut self, format: &str) -> (r: &mut Self)
        ensures
            r.schema.format@ == format@,
            r.schema == (SchemaDefinition { format: r.schema.format, ..old(self).schema }),
            *final(self) == *final(r),
    {
        self.schema.format = format.to_string();
        self
    }

    /// Reads the schema from the resource configured by `setup`.
    pub fn with_resource<F>(&mut self, setup: F) -> (r: &mut Self)
        where
            F: FnOnce(&mut ExternalResourceDefinitionBuilder),
        requires
            forall|b: &mut ExternalResourceDefinitionBuilder| setup.requires((b,)),
        ensures
            r.schema.resource is Some,
            exists|b: &mut ExternalResourceDefinitionBuilder| #[trigger] setup.ensures((b,), ()) && b.is_fresh()
                && r.schema.resource == Some(final(b).value()),
            r.schema == (SchemaDefinition { resource: r.schema.resource, ..old(self).schema }),
            *final(self) == *final(r),
    {
        let mut builder = ExternalResourceDefinitionBuilder::new();
        setup(&mut builder);
        let v = builder.build();
        self.schema.resource = Some(v);
        self
    }

    /// Sets the schema inline.
    pub fn with_document(&mut self, document: AnyValue) -> (r: &mut Self)
        ensures
            r.schema.document == Some(document),
            r.schema == (SchemaDefinition { document: r.schema.document, ..old(self).schema }),
            *final(self) == *final(r),
    {
        self.schema.document = Some(document);
        self
    }

    pub fn build(self) -> (r: SchemaDefinition)
        ensures
            r == self.schema,
    {
        self.schema
    }
}


impl GenericTaskDefinitionBuilder {
    /// Nothing was configured yet.
    pub open spec fn is_fresh(&self) -> bool {
        self.builder is None
    }

    /// What `build` yields.
    pub open spec fn value(&self) -> TaskDefinition {
        self.result()
    }
}

impl EventDefinitionBuilder {
    /// Nothing was configured yet.
    pub open spec fn is_fresh(&self) -> bool {
        self.event.with@.len() == 0
    }

    /// What `build` yields.
    pub open spec fn value(&self) -> EventDefinition {
        self.event
    }
}

impl TaskDefinitionMapBuilder {
    /// Nothing was configured yet.
    pub open spec fn is_fresh(&self) -> bool {
        self.map@.len() == 0
    }

    /// What `build` yields.
    pub open spec fn value(&self) -> TaskMap {
        self.map
    }
}

impl EventConsumptionStrategyDefinitionBuilder {
    /// Nothing was configured yet.
    pub open spec fn is_fresh(&self) -> bool {
        self.selection is None && self.until_condition is None && self.until_events is None
    }

    /// What `build` yields.
    pub open spec fn value(&self) -> EventConsumptionStrategyDefinition {
        self.result()
    }
}

impl EventFilterDefinitionCollectionBuilder {
    /// Nothing was configured yet.
    pub open spec fn is_fresh(&self) -> bool {
        self.events@.len() == 0
    }

    /// What `build` yields.
    pub open spec fn value(&self) -> Vec<EventFilterDefinition> {
        self.events
    }
}

impl EventFilterDefinitionBuilder {
    /// Nothing was configured yet.
    pub open spec fn is_fresh(&self) -> bool {
        self.filter.with is None && self.filter.correlate is None
    }

    /// What `build` yields.
    pub open spec fn value(&self) -> EventFilterDefinition {
        self.filter
    }
}

impl SubscriptionIteratorDefinitionBuilder {
    /// Nothing was configured yet.
    pub open spec fn is_fresh(&self) -> bool {
        self.iterator == SubscriptionIteratorDefinition::empty()
    }

    /// What `build` yields.
    pub open spec fn value(&self) -> SubscriptionIteratorDefinition {
        self.iterator
    }
}

impl SwitchCaseDefinitionBuilder {
    /// Nothing was configured yet.
    pub open spec fn is_fresh(&self) -> bool {
        self.case.when is None && self.case.then_ is None
    }

    /// What `build` yields.
    pub open spec fn value(&self) -> SwitchCaseDefinition {
        self.case
    }
}

impl ErrorCatcherDefinitionBuilder {
    /// Nothing was configured yet.
    pub open spec fn is_fresh(&self) -> bool {
        self.catch == ErrorCatcherDefinition::empty()
    }

    /// What `build` yields.
    pub open spec fn value(&self) -> ErrorCatcherDefinition {
        self.catch
    }
}

impl ExternalResourceDefinitionBuilder {
    /// Nothing was configured yet.
    pub open spec fn is_fresh(&self) -> bool {
        self.resource.name is None && (self.resource.endpoint matches OneOfEndpointDefinitionUri::Uri(u) && u@.len() == 0)
    }

    /// What `build` yields.
    pub open spec fn value(&self) -> ExternalResourceDefinition {
        self.resource
    }
}

impl EndpointDefinitionBuilder {
    /// Nothing was configured yet.
    pub open spec fn is_fresh(&self) -> bool {
        self.endpoint.uri@.len() == 0 && self.endpoint.authentication is None
    }

    /// What `build` yields.
    pub open spec fn value(&self) -> EndpointDefinition {
        self.endpoint
    }
}

impl ErrroFilterDefinitionBuilder {
    /// Nothing was configured yet.
    pub open spec fn is_fresh(&self) -> bool {
        self.filter.with is None
    }

    /// What `build` yields.
    pub open spec fn value(&self) -> ErrorFilterDefinition {
        self.filter
    }
}

impl RetryPolicyDefinitionBuilder {
    /// Nothing was configured yet.
    pub open spec fn is_fresh(&self) -> bool {
        self.retry.when is None && self.retry.except_when is None && self.retry.limit is None && self.retry.delay is None && self.retry.backoff is None && self.retry.jitter is None
    }

    /// What `build` yields.
    pub open spec fn value(&self) -> RetryPolicyDefinition {
        self.retry
    }
}

impl RetryPolicyLimitDefinitionBuilder {
    /// Nothing was configured yet.
    pub open spec fn is_fresh(&self) -> bool {
        self.limit.attempt is None && self.limit.duration is None
    }

    /// What `build` yields.
    pub open spec fn value(&self) -> RetryPolicyLimitDefinition {
        self.limit
    }
}

impl RetryAttemptLimitDefinitionBuilder {
    /// Nothing was configured yet.
    pub open spec fn is_fresh(&self) -> bool {
        self.attempt.count is None && self.attempt.duration is None
    }

    /// What `build` yields.
    pub open spec fn value(&self) -> RetryAttemptLimitDefinition {
        self.attempt
    }
}

impl GenericBackoffStrategyDefinitionBuilder {
    /// Nothing was configured yet.
    pub open spec fn is_fresh(&self) -> bool {
        self.builder is None
    }

    /// What `build` yields.
    pub open spec fn value(&self) -> BackoffStrategyDefinition {
        backoff_of(self.builder->0)
    }
}

impl JitterDefinitionBuilder {
    /// Nothing was configured yet.
    pub open spec fn is_fresh(&self) -> bool {
        self.jitter.from == empty_duration() && self.jitter.to == empty_duration()
    }

    /// What `build` yields.
    pub open spec fn value(&self) -> JitterDefinition {
        self.jitter
    }
}

impl InputDataModelDefinitionBuilder {
    /// Nothing was configured yet.
    pub open spec fn is_fresh(&self) -> bool {
        self.input.schema is None && self.input.from is None
    }

    /// What `build` yields.
    pub open spec fn value(&self) -> InputDataModelDefinition {
        self.input
    }
}

impl OutputDataModelDefinitionBuilder {
    /// Nothing was configured yet.
    pub open spec fn is_fresh(&self) -> bool {
        self.output.schema is None && self.output.as_ is None
    }

    /// What `build` yields.
    pub open spec fn value(&self) -> OutputDataModelDefinition {
        self.output
    }
}

impl SchemaDefinitionBuilder {
    /// Nothing was configured yet.
    pub open spec fn is_fresh(&self) -> bool {
        self.schema.format@ == "json"@ && self.schema.resource is None && self.schema.document is None
    }

    /// What `build` yields.
    pub open spec fn value(&self) -> SchemaDefinition {
        self.schema
    }
}

} // verus!
