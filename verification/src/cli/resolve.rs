//! Short ID prefix matching for the command line, listing at most ten
//! candidates.

use vstd::prelude::*;

use crate::error::StoreError;
use crate::logic::resolve::{
    candidates_text, matching_projects, matching_tasks, project_candidate_line,
    task_candidate_line,
};
use crate::models::{Project, ProjectView, Task, TaskView, projects_view, tasks_view};
use crate::text::utf8_len;

verus! {

/// Number of candidates listed for an ambiguous prefix.
pub const DEFAULT_MAX_CANDIDATES: usize = 10;

/// Resolves a task ID prefix (see `logic::resolve::resolve_task_id`), listing
/// at most ten candidates.
pub fn resolve_task_id(prefix: &str, tasks: &[Task]) -> (r: Result<String, StoreError>)
    ensures
        ({
            let m = matching_tasks(tasks_view(tasks@), prefix@);
            &&& utf8_len(prefix@) < 4 ==> (r matches Err(
                StoreError::InvalidIdPrefix { prefix: p, min_len, actual_len },
            ) && p@ == prefix@ && min_len == 4 && actual_len == utf8_len(prefix@))
            &&& utf8_len(prefix@) >= 4 && m.len() == 0 ==> (r matches Err(StoreError::NotFound(msg))
                && msg@ == "未找到匹配的任务: "@ + prefix@)
            &&& utf8_len(prefix@) >= 4 && m.len() == 1 ==> (r matches Ok(id) && id@ == m[0].id)
            &&& utf8_len(prefix@) >= 4 && m.len() > 1 ==> (r matches Err(
                StoreError::AmbiguousTaskId { prefix: p, count, candidates },
            ) && p@ == prefix@ && count == m.len() && candidates@ == candidates_text(
                m.map_values(|t: TaskView| task_candidate_line(t)),
                10,
                m.len(),
            ))
        }),
{
    crate::logic::resolve::resolve_task_id(prefix, tasks, DEFAULT_MAX_CANDIDATES)
}

/// Resolves a project ID prefix, listing at most ten candidates.
pub fn resolve_project_id(prefix: &str, projects: &[Project]) -> (r: Result<String, StoreError>)
    ensures
        ({
            let m = matching_projects(projects_view(projects@), prefix@);
            &&& utf8_len(prefix@) < 4 ==> (r matches Err(
                StoreError::InvalidIdPrefix { prefix: p, min_len, actual_len },
            ) && p@ == prefix@ && min_len == 4 && actual_len == utf8_len(prefix@))
            &&& utf8_len(prefix@) >= 4 && m.len() == 0 ==> (r matches Err(
                StoreError::ProjectNotFound(msg),
            ) && msg@ == "未找到匹配的项目: "@ + prefix@)
            &&& utf8_len(prefix@) >= 4 && m.len() == 1 ==> (r matches Ok(id) && id@ == m[0].id)
            &&& utf8_len(prefix@) >= 4 && m.len() > 1 ==> (r matches Err(
                StoreError::AmbiguousProjectId { prefix: p, count, candidates },
            ) && p@ == prefix@ && count == m.len() && candidates@ == candidates_text(
                m.map_values(|q: ProjectView| project_candidate_line(q)),
                10,
                m.len(),
            ))
        }),
{
    crate::logic::resolve::resolve_project_id(prefix, projects, DEFAULT_MAX_CANDIDATES)
}

} // verus!
