use vstd::prelude::*;
use crate::entries::has_key;
use crate::map::OrderedMap;
use crate::duration::OneOfDurationOrIso8601Expression;
use crate::duration_codec::law_duration_or_expression_round_trip;
use crate::model_codec::{
    all_plain_entries, document_from, entry_names, is_plain_workflow, law_timeout_round_trip,
    lemma_document_round_trip, plain_workflow_tree, workflow_ok, workflow_read, workflow_tree, is_plain, plain_task_read, plain_wait_from, plain_wait_tree,
    single_field, singleton_names, task_shape,
};
use crate::task::{TaskMap, TaskType};
use crate::codec::fields_of;
use crate::entries::value_of;
use crate::workflow::WorkflowDefinition;
use crate::value::AnyValue;

verus! {

/// An object that holds `for` is read as a 'for' task, whether or not it also holds `do`,
/// unless it holds `call` or `emit`, which come first.
pub proof fn law_for_is_chosen_over_do(f: Seq<(String, AnyValue)>)
    requires
        has_key(f, TaskType::FOR@),
        !has_key(f, TaskType::CALL@),
        !has_key(f, TaskType::EMIT@),
    ensures
        task_shape(f) == Some(TaskType::FOR@),
{
}

/// An object whose only task key is `do` is read as a 'do' task.
pub proof fn law_do_alone_is_do(f: Seq<(String, AnyValue)>)
    requires
        has_key(f, TaskType::DO@),
        !has_key(f, TaskType::CALL@),
        !has_key(f, TaskType::EMIT@),
        !has_key(f, TaskType::FOR@),
        !has_key(f, TaskType::FORK@),
        !has_key(f, TaskType::LISTEN@),
        !has_key(f, TaskType::RAISE@),
        !has_key(f, TaskType::RUN@),
        !has_key(f, TaskType::SET@),
        !has_key(f, TaskType::SWITCH@),
        !has_key(f, TaskType::TRY@),
        !has_key(f, TaskType::WAIT@),
    ensures
        task_shape(f) == Some(TaskType::DO@),
{
}

/// The tree of a wait task without common fields reads back as that wait task's length of
/// time, in either shape: `encode_task` ensures `plain_wait_tree` of what it writes, and
/// `decode_task` reads `plain_wait_from` of what it is given.
pub proof fn law_plain_wait_round_trip(tree: AnyValue, wait: OneOfDurationOrIso8601Expression)
    requires
        plain_wait_tree(tree, wait),
    ensures
        plain_wait_from(tree) == Some(wait),
{
    law_duration_or_expression_round_trip(single_field(tree, "wait"@)->0, wait);
}

/// A task list of plain tasks, written as `encode_task_map` ensures, is an array that
/// `decode_task_map` reads without error, giving back every task, in order, under its name.
pub proof fn law_plain_task_map_round_trip(m: TaskMap, tree: AnyValue)
    requires
        forall|i: int| 0 <= i < m@.len() ==> is_plain(#[trigger] m@[i].1),
        tree is Array,
        singleton_names(tree->Array_0@) == entry_names(m@),
        tree->Array_0@.len() == m@.len(),
        forall|i: int| 0 <= i < m@.len() ==> (#[trigger] tree->Array_0@[i]) is Object
            && tree->Array_0@[i]->Object_0@.len() == 1,
        forall|i: int| 0 <= i < m@.len() && is_plain(#[trigger] m@[i].1) ==> plain_task_read(
            tree->Array_0@[i]->Object_0@[0].1,
        ) == Some(m@[i].1),
    ensures
        all_plain_entries(tree),
        forall|i: int| 0 <= i < m@.len() ==> plain_task_read(#[trigger] tree->Array_0@[i]->Object_0@[0].1)->0
            == m@[i].1,
{
    assert forall|i: int| 0 <= i < tree->Array_0@.len() implies (#[trigger] tree->Array_0@[i]) is Object
        && tree->Array_0@[i]->Object_0@.len() == 1 && plain_task_read(tree->Array_0@[i]->Object_0@[0].1) is Some by {
        assert(is_plain(m@[i].1));
    }
    assert forall|i: int| 0 <= i < m@.len() implies plain_task_read(#[trigger] tree->Array_0@[i]->Object_0@[0].1)->0
        == m@[i].1 by {
        assert(is_plain(m@[i].1));
    }
}

/// A workflow written (what `encode_workflow_definition` ensures) and read back (what
/// `decode_workflow_definition` ensures of a success) keeps its timeout and the names and order
/// of its tasks; where every task is plain, it keeps the tasks themselves.
pub proof fn law_workflow_round_trip(written: WorkflowDefinition, tree: AnyValue, read: WorkflowDefinition)
    requires
        workflow_tree(tree, written),
        workflow_read(tree, read),
    ensures
        read.timeout == written.timeout,
        entry_names(read.do_@) == entry_names(written.do_@),
        (forall|i: int| 0 <= i < written.do_@.len() ==> is_plain(#[trigger] written.do_@[i].1)) ==> read.do_@.len()
            == written.do_@.len() && forall|i: int| 0 <= i < written.do_@.len() ==> #[trigger] read.do_@[i].1
            == written.do_@[i].1,
{
    match written.timeout {
        Some(t) => {
            let tv = value_of(fields_of(tree), "timeout"@)->0;
            law_timeout_round_trip(tv, t);
        },
        None => {},
    }
    let d = value_of(fields_of(tree), "do"@)->0;
    if forall|i: int| 0 <= i < written.do_@.len() ==> is_plain(#[trigger] written.do_@[i].1) {
        law_plain_task_map_round_trip(written.do_, d);
        assert forall|i: int| 0 <= i < written.do_@.len() implies #[trigger] read.do_@[i].1 == written.do_@[i].1 by {
            assert(read.do_@[i].1 == plain_task_read(d->Array_0@[i]->Object_0@[0].1)->0);
        }
    }
}

/// A plain workflow (metadata without tags, a timeout if any, and plain tasks) written as
/// `encode_workflow_definition` ensures is a tree that `decode_workflow_definition` reads without
/// error, and what it reads back (as that function ensures) equals the workflow in every field:
/// the same metadata, timeout and absent fields, and the same tasks, in order, under the same names.
pub proof fn law_plain_workflow_round_trip(written: WorkflowDefinition, tree: AnyValue, read: WorkflowDefinition)
    requires
        is_plain_workflow(written),
        workflow_tree(tree, written),
        plain_workflow_tree(tree, written),
        workflow_ok(tree) ==> workflow_read(tree, read) && read.document == document_from(
            fields_of(value_of(fields_of(tree), "document"@)->0),
        )->0 && read.input is None && read.use_ is None && read.output is None && read.schedule is None
            && read.evaluate is None && read.metadata is None,
    ensures
        workflow_ok(tree),
        read.document == written.document,
        read.input == written.input && read.use_ == written.use_ && read.output == written.output,
        read.schedule == written.schedule && read.evaluate == written.evaluate,
        read.metadata == written.metadata,
        read.timeout == written.timeout,
        entry_names(read.do_@) == entry_names(written.do_@),
        read.do_@.len() == written.do_@.len(),
        forall|i: int| 0 <= i < written.do_@.len() ==> #[trigger] read.do_@[i].1 == written.do_@[i].1,
{
    let doc = value_of(fields_of(tree), "document"@)->0;
    lemma_document_round_trip(doc->Object_0@, written.document);
    match written.timeout {
        Some(t) => {
            law_timeout_round_trip(value_of(fields_of(tree), "timeout"@)->0, t);
        },
        None => {},
    }
    let d = value_of(fields_of(tree), "do"@)->0;
    law_plain_task_map_round_trip(written.do_, d);
    assert(workflow_ok(tree));
    law_workflow_round_trip(written, tree, read);
}

/// Appending keeps the entries already there, in their order, and puts the new one last.
pub proof fn law_add_appends<V>(before: OrderedMap<String, V>, after: OrderedMap<String, V>, name: String, value: V)
    requires
        after@ == before@.push((name, value)),
    ensures
        entry_names(after@) == entry_names(before@).push(Some(name@)),
{
    assert(entry_names(after@) =~= entry_names(before@).push(Some(name@)));
}

} // verus!
