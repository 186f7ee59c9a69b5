//! Errors reported by the task logic.

use vstd::prelude::*;

use crate::text::{append_str, decimal, usize_to_decimal};

verus! {

/// Errors of the task and project logic.
#[derive(Debug)]
pub enum StoreError {
    /// The referenced task (or an index inside it) does not exist.
    NotFound(String),
    /// The referenced project does not exist.
    ProjectNotFound(String),
    /// A short ID prefix is shorter than the minimum length.
    InvalidIdPrefix { prefix: String, min_len: usize, actual_len: usize },
    /// A short ID prefix matches more than one task.
    AmbiguousTaskId { prefix: String, count: usize, candidates: String },
    /// A short ID prefix matches more than one project.
    AmbiguousProjectId { prefix: String, count: usize, candidates: String },
}

/// The human-readable message of an error.
pub open spec fn error_text(e: StoreError) -> Seq<char> {
    match e {
        StoreError::NotFound(d) => "任务不存在: "@ + d@,
        StoreError::ProjectNotFound(d) => "项目不存在: "@ + d@,
        StoreError::InvalidIdPrefix { prefix, min_len, actual_len } => "ID 前缀至少需要 "@ + decimal(
            min_len as nat,
        ) + " 位，当前输入: \""@ + prefix@ + "\"（"@ + decimal(actual_len as nat) + " 位）"@,
        StoreError::AmbiguousTaskId { prefix, count, candidates } => "前缀 \""@ + prefix@ + "\" 匹配到 "@
            + decimal(count as nat) + " 个任务，请多输入几位以消除歧义:\n"@ + candidates@,
        StoreError::AmbiguousProjectId { prefix, count, candidates } => "前缀 \""@ + prefix@
            + "\" 匹配到 "@ + decimal(count as nat) + " 个项目，请多输入几位以消除歧义:\n"@
            + candidates@,
    }
}

impl StoreError {
    /// The human-readable message of the error.
    pub fn message(&self) -> (r: String)
        ensures
            r@ == error_text(*self),
    {
        match self {
            StoreError::NotFound(d) => {
                let mut s = String::from_str("任务不存在: ");
                append_str(&mut s, d.as_str());
                s
            },
            StoreError::ProjectNotFound(d) => {
                let mut s = String::from_str("项目不存在: ");
                append_str(&mut s, d.as_str());
                s
            },
            StoreError::InvalidIdPrefix { prefix, min_len, actual_len } => {
                let mut s = String::from_str("ID 前缀至少需要 ");
                append_str(&mut s, usize_to_decimal(*min_len).as_str());
                append_str(&mut s, " 位，当前输入: \"");
                append_str(&mut s, prefix.as_str());
                append_str(&mut s, "\"（");
                append_str(&mut s, usize_to_decimal(*actual_len).as_str());
                append_str(&mut s, " 位）");
                s
            },
            StoreError::AmbiguousTaskId { prefix, count, candidates } => {
                let mut s = String::from_str("前缀 \"");
                append_str(&mut s, prefix.as_str());
                append_str(&mut s, "\" 匹配到 ");
                append_str(&mut s, usize_to_decimal(*count).as_str());
                append_str(&mut s, " 个任务，请多输入几位以消除歧义:\n");
                append_str(&mut s, candidates.as_str());
                s
            },
            StoreError::AmbiguousProjectId { prefix, count, candidates } => {
                let mut s = String::from_str("前缀 \"");
                append_str(&mut s, prefix.as_str());
                append_str(&mut s, "\" 匹配到 ");
                append_str(&mut s, usize_to_decimal(*count).as_str());
                append_str(&mut s, " 个项目，请多输入几位以消除歧义:\n");
                append_str(&mut s, candidates.as_str());
                s
            },
        }
    }
}

} // verus!
