//! Resource operations: append and delete references.

use vstd::prelude::*;

use crate::error::StoreError;
use crate::logic::item::opt_string;
use crate::models::{Resource, ResourceView, Task, TaskView, opt_str_view, resources_view};
use crate::text::{append_str, decimal, usize_to_decimal};

verus! {

/// `t` with its resources replaced by `r`.
pub open spec fn with_resources(t: TaskView, r: Seq<ResourceView>) -> TaskView {
    TaskView { resources: r, ..t }
}

/// The message of an out-of-range resource index.
pub open spec fn resource_index_message(i: nat, count: nat) -> Seq<char> {
    "资源索引 "@ + decimal(i) + " 越界（共 "@ + decimal(count) + " 条）"@
}

/// Deleting the resource that was just added gives back the task as it was
/// before the addition.
pub proof fn lemma_add_then_delete_resource(t: TaskView, r: ResourceView)
    ensures
        ({
            let t2 = with_resources(t, t.resources.push(r));
            with_resources(t2, t2.resources.remove(t.resources.len() as int)) == t
        }),
{
    assert(t.resources.push(r).remove(t.resources.len() as int) =~= t.resources);
}

/// Appends a resource reference to the task.
pub fn add_resource(task: &mut Task, name: &str, url: &str, description: Option<&str>)
    ensures
        final(task)@ == with_resources(
            old(task)@,
            old(task)@.resources.push(
                ResourceView { name: name@, url: url@, description: opt_str_view(description) },
            ),
        ),
{
    let r = Resource { name: name.to_owned(), url: url.to_owned(), description: opt_string(description) };
    task.resources.push(r);
    assert(resources_view(final(task).resources@) =~= resources_view(old(task).resources@).push(r@));
}

/// Deletes the resource at `index`; fails with `NotFound` (task unchanged)
/// when the index is past the end.
pub fn delete_resource(task: &mut Task, index: usize) -> (r: Result<(), StoreError>)
    ensures
        index >= old(task)@.resources.len() <==> r is Err,
        r is Err ==> final(task)@ == old(task)@,
        r is Err ==> r->Err_0 is NotFound && r->Err_0->NotFound_0@ == resource_index_message(
            index as nat,
            old(task)@.resources.len(),
        ),
        r is Ok ==> final(task)@ == with_resources(old(task)@, old(task)@.resources.remove(index as int)),
{
    if index >= task.resources.len() {
        let mut s = String::from_str("资源索引 ");
        append_str(&mut s, usize_to_decimal(index).as_str());
        append_str(&mut s, " 越界（共 ");
        append_str(&mut s, usize_to_decimal(task.resources.len()).as_str());
        append_str(&mut s, " 条）");
        return Err(StoreError::NotFound(s));
    }
    let _removed = task.resources.remove(index);
    assert(resources_view(final(task).resources@) =~= resources_view(old(task).resources@).remove(
        index as int,
    ));
    Ok(())
}

} // verus!
