//! Arguments of the older checklist command set.

use vstd::prelude::*;

verus! {

/// The `checklist` command: one action.
#[derive(Debug, Clone)]
pub struct ChecklistCmd {
    /// The action.
    pub action: ChecklistAction,
}

/// Actions of the `checklist` command.
#[derive(Debug, Clone)]
pub enum ChecklistAction {
    /// Append an item.
    Add { task_id: String, title: String, description: String, plan: Option<String> },
    /// Change the given fields of an item (`plan: Some(None)` clears it).
    Update {
        task_id: String,
        index: usize,
        title: Option<String>,
        description: Option<String>,
        plan: Option<Option<String>>,
        done: Option<bool>,
    },
    /// Mark an item done.
    Done { task_id: String, index: usize },
    /// Mark an item not done.
    Undone { task_id: String, index: usize },
    /// Move an item.
    Reorder { task_id: String, from: usize, to: usize },
    /// Delete an item.
    Remove { task_id: String, index: usize },
}

} // verus!
