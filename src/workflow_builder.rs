use vstd::prelude::*;
use crate::auth::AuthenticationPolicyDefinition;
use crate::auth_builder::AuthenticationPolicyDefinitionBuilder;
use crate::entries::{entries_or_empty, insert_optional_entry, keys_unique, put_entry};
use crate::map::OrderedMap;
use crate::task::TaskDefinition;
use crate::task_builder::{GenericTaskDefinitionBuilder, appended};
use crate::timeout::OneOfTimeoutDefinitionOrReference;
use crate::timeout_builder::TimeoutDefinitionBuilder;
use crate::workflow::{
    ComponentDefinitionCollection, LATEST_DSL_VERSION, DEFAULT_NAMESPACE, WorkflowDefinition,
    WorkflowDefinitionMetadata, default_dsl_version, default_namespace,
};

verus! {

/// Builds a workflow through a chain of calls, each taking the builder and handing it back.
pub struct WorkflowBuilder {
    pub workflow: WorkflowDefinition,
}

/// The reusable authentication policies of a workflow; none when absent.
pub open spec fn authentications_of(w: WorkflowDefinition) -> Seq<(String, AuthenticationPolicyDefinition)> {
    match w.use_ {
        Some(c) => entries_or_empty(c.authentications),
        None => Seq::empty(),
    }
}

/// The components of a workflow; none when it defines none.
pub open spec fn components_or_empty(c: Option<ComponentDefinitionCollection>) -> ComponentDefinitionCollection {
    match c {
        Some(c) => c,
        None => ComponentDefinitionCollection::empty(),
    }
}

impl WorkflowBuilder {
    /// A workflow in the default namespace and the latest language version, with empty name and
    /// version and no tasks.
    pub fn new() -> (r: Self)
        ensures
            r.workflow.document.dsl@ == LATEST_DSL_VERSION@,
            r.workflow.document.namespace@ == DEFAULT_NAMESPACE@,
            r.workflow.document.name@.len() == 0 && r.workflow.document.version@.len() == 0,
            r.workflow.document.title is None && r.workflow.document.summary is None,
            r.workflow.document.tags is None,
            r.workflow.use_ is None && r.workflow.timeout is None,
            r.workflow.input is None && r.workflow.output is None && r.workflow.schedule is None,
            r.workflow.evaluate is None && r.workflow.metadata is None,
            r.workflow.do_@.len() == 0,
    {
        let document = WorkflowDefinitionMetadata {
            dsl: default_dsl_version(),
            namespace: default_namespace(),
            name: String::new(),
            version: String::new(),
            title: None,
            summary: None,
            tags: None,
        };
        WorkflowBuilder { workflow: WorkflowDefinition::new(document) }
    }

    /// Sets the version of the workflow language.
    pub fn use_dsl(self, version: &str) -> (r: Self)
        ensures
            r.workflow.document.dsl@ == version@,
            r.workflow.document == (WorkflowDefinitionMetadata { dsl: r.workflow.document.dsl, ..self.workflow.document }),
            r.workflow == (WorkflowDefinition { document: r.workflow.document, ..self.workflow }),
    {
        let mut b = self;
        b.workflow.document.dsl = version.to_string();
        b
    }

    /// Sets the namespace.
    pub fn with_namespace(self, namespace: &str) -> (r: Self)
        ensures
            r.workflow.document.namespace@ == namespace@,
            r.workflow.document == (WorkflowDefinitionMetadata { namespace: r.workflow.document.namespace, ..self.workflow.document }),
            r.workflow == (WorkflowDefinition { document: r.workflow.document, ..self.workflow }),
    {
        let mut b = self;
        b.workflow.document.namespace = namespace.to_string();
        b
    }

    /// Sets the name.
    pub fn with_name(self, name: &str) -> (r: Self)
        ensures
            r.workflow.document.name@ == name@,
            r.workflow.document == (WorkflowDefinitionMetadata { name: r.workflow.document.name, ..self.workflow.document }),
            r.workflow == (WorkflowDefinition { document: r.workflow.document, ..self.workflow }),
    {
        let mut b = self;
        b.workflow.document.name = name.to_string();
        b
    }

    /// Sets the version.
    pub fn with_version(self, version: &str) -> (r: Self)
        ensures
            r.workflow.document.version@ == version@,
            r.workflow.document == (WorkflowDefinitionMetadata { version: r.workflow.document.version, ..self.workflow.document }),
            r.workflow == (WorkflowDefinition { document: r.workflow.document, ..self.workflow }),
    {
        let mut b = self;
        b.workflow.document.version = version.to_string();
        b
    }

    /// Sets the title.
    pub fn with_title(self, title: &str) -> (r: Self)
        ensures
            r.workflow.document.title matches Some(t) && t@ == title@,
            r.workflow.document == (WorkflowDefinitionMetadata { title: r.workflow.document.title, ..self.workflow.document }),
            r.workflow == (WorkflowDefinition { document: r.workflow.document, ..self.workflow }),
    {
        let mut b = self;
        b.workflow.document.title = Some(title.to_string());
        b
    }

    /// Sets the summary.
    pub fn with_summary(self, summary: &str) -> (r: Self)
        ensures
            r.workflow.document.summary matches Some(t) && t@ == summary@,
            r.workflow.document == (WorkflowDefinitionMetadata { summary: r.workflow.document.summary, ..self.workflow.document }),
            r.workflow == (WorkflowDefinition { document: r.workflow.document, ..self.workflow }),
    {
        let mut b = self;
        b.workflow.document.summary = Some(summary.to_string());
        b
    }

    /// Sets the tag of the given name.
    pub fn with_tag(self, name: &str, value: &str) -> (r: Self)
        ensures
            r.workflow.document.tags is Some,
            exists|k: String, v: String| k@ == name@ && v@ == value@
                && entries_or_empty(r.workflow.document.tags)
                == put_entry(entries_or_empty(self.workflow.document.tags), k, v),
            r.workflow.document == (WorkflowDefinitionMetadata { tags: r.workflow.document.tags, ..self.workflow.document }),
            r.workflow == (WorkflowDefinition { document: r.workflow.document, ..self.workflow }),
    {
        let mut b = self;
        insert_optional_entry(&mut b.workflow.document.tags, name.to_string(), value.to_string());
        b
    }

    /// Sets all the tags.
    pub fn with_tags(self, tags: Vec<(String, String)>) -> (r: Self)
        requires
            keys_unique(tags@),
        ensures
            r.workflow.document.tags == Some(tags),
            r.workflow.document == (WorkflowDefinitionMetadata { tags: r.workflow.document.tags, ..self.workflow.document }),
            r.workflow == (WorkflowDefinition { document: r.workflow.document, ..self.workflow }),
    {
        let mut b = self;
        b.workflow.document.tags = Some(tags);
        b
    }

    /// Uses the reusable timeout of the given name.
    pub fn with_timeout_reference(self, reference: &str) -> (r: Self)
        ensures
            r.workflow.timeout matches Some(OneOfTimeoutDefinitionOrReference::Reference(n)) && n@ == reference@,
            r.workflow == (WorkflowDefinition { timeout: r.workflow.timeout, ..self.workflow }),
    {
        let mut b = self;
        b.workflow.timeout = Some(OneOfTimeoutDefinitionOrReference::Reference(reference.to_string()));
        b
    }

    /// Sets the timeout, as configured by `setup`.
    pub fn with_timeout<F>(self, setup: F) -> (r: Self)
        where
            F: FnOnce(&mut TimeoutDefinitionBuilder),
        requires
            forall|b: &mut TimeoutDefinitionBuilder| setup.requires((b,)),
        ensures
            r.workflow.timeout matches Some(OneOfTimeoutDefinitionOrReference::Timeout(_)),
            exists|b: &mut TimeoutDefinitionBuilder| #[trigger] setup.ensures((b,), ()) && b.is_fresh()
                && r.workflow.timeout == Some(OneOfTimeoutDefinitionOrReference::Timeout(final(b).value())),
            r.workflow == (WorkflowDefinition { timeout: r.workflow.timeout, ..self.workflow }),
    {
        let mut builder = TimeoutDefinitionBuilder::new();
        setup(&mut builder);
        let timeout = builder.build();
        let mut b = self;
        b.workflow.timeout = Some(OneOfTimeoutDefinitionOrReference::Timeout(timeout));
        b
    }

    /// Defines the reusable authentication policy of the given name, as configured by `setup`;
    /// a policy of that name defined before is replaced.
    pub fn use_authentication<F>(self, name: &str, setup: F) -> (r: Self)
        where
            F: FnOnce(&mut AuthenticationPolicyDefinitionBuilder),
        requires
            forall|b: &mut AuthenticationPolicyDefinitionBuilder| setup.requires((b,)),
            forall|b: &mut AuthenticationPolicyDefinitionBuilder| #[trigger] setup.ensures((b,), ()) ==> final(b).is_configured(),
        ensures
            r.workflow.use_ is Some,
            r.workflow.use_->0.authentications is Some,
            exists|b: &mut AuthenticationPolicyDefinitionBuilder| #[trigger] setup.ensures((b,), ()) && b.is_fresh()
                && (exists|k: String| k@ == name@ && authentications_of(r.workflow) == put_entry(
                authentications_of(self.workflow),
                k,
                final(b).value(),
            )),
            r.workflow.use_->0 == (ComponentDefinitionCollection {
                authentications: r.workflow.use_->0.authentications,
                ..components_or_empty(self.workflow.use_)
            }),
            r.workflow == (WorkflowDefinition { use_: r.workflow.use_, ..self.workflow }),
    {
        let mut builder = AuthenticationPolicyDefinitionBuilder::new();
        setup(&mut builder);
        let authentication = builder.build();
        let mut b = self;
        let mut components = match b.workflow.use_.take() {
            Some(c) => c,
            None => ComponentDefinitionCollection::new(),
        };
        let key = name.to_string();
        let ghost k = key;
        let ghost p = authentication;
        let ghost before = components.authentications;
        insert_optional_entry(&mut components.authentications, key, authentication);
        b.workflow.use_ = Some(components);
        proof {
            assert(entries_or_empty(before) == authentications_of(self.workflow));
            assert(authentications_of(b.workflow) == put_entry(authentications_of(self.workflow), k, p));
        }
        b
    }

    /// Appends a task of the given name, as configured by `setup`.
    pub fn do_<F>(self, name: &str, setup: F) -> (r: Self)
        where
            F: FnOnce(&mut GenericTaskDefinitionBuilder),
        requires
            forall|b: &mut GenericTaskDefinitionBuilder| setup.requires((b,)),
            forall|b: &mut GenericTaskDefinitionBuilder| #[trigger] setup.ensures((b,), ()) ==> final(b).buildable(),
        ensures
            appended(r.workflow.do_@, self.workflow.do_@, name),
            exists|b: &mut GenericTaskDefinitionBuilder| #[trigger] setup.ensures((b,), ()) && b.is_fresh()
                && (exists|k: String| k@ == name@ && r.workflow.do_@ == self.workflow.do_@.push((k, final(b).value()))),
            r.workflow == (WorkflowDefinition { do_: r.workflow.do_, ..self.workflow }),
    {
        let mut builder = GenericTaskDefinitionBuilder::new();
        setup(&mut builder);
        let task = builder.build();
        let mut b = self;
        b.workflow.do_.add(name.to_string(), task);
        proof {
            assert(b.workflow.do_@.subrange(0, self.workflow.do_@.len() as int) =~= self.workflow.do_@);
        }
        b
    }

    /// The configured workflow.
    pub fn build(self) -> (r: WorkflowDefinition)
        ensures
            r == self.workflow,
    {
        self.workflow
    }
}

} // verus!
