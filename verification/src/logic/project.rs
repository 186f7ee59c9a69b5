//! Project operations: creation and update.

use vstd::prelude::*;

use crate::ids::{is_utc_timestamp, is_uuid_format, new_uuid, now_rfc3339};
use crate::logic::item::opt_string;
use crate::models::{Project, ProjectView, opt_str_view};

verus! {

/// Builds a new project with a fresh UUID; creation and update times are both
/// the current time.
pub fn create_project(name: &str, description: Option<&str>) -> (p: Project)
    ensures
        is_uuid_format(p@.id),
        p@.name == name@,
        p@.description == opt_str_view(description),
        p@.created_at == p@.updated_at,
{
    let now = now_rfc3339();
    let updated = now.clone();
    Project {
        id: new_uuid(),
        name: name.to_owned(),
        description: opt_string(description),
        created_at: now,
        updated_at: updated,
    }
}

/// The project after an update: a given name replaces the old one, a given
/// description replaces (sets) the old one; absent fields keep their values.
pub open spec fn updated_project(
    p: ProjectView,
    name: Option<Seq<char>>,
    description: Option<Seq<char>>,
) -> ProjectView {
    ProjectView {
        name: match name {
            Some(n) => n,
            None => p.name,
        },
        description: match description {
            Some(d) => Some(d),
            None => p.description,
        },
        ..p
    }
}

/// An update that gives neither a name nor a description keeps the project's
/// name and description.
pub proof fn lemma_empty_project_update(p: ProjectView)
    ensures
        updated_project(p, None, None) == p,
{
}

/// Updates the name and/or description of a project.
pub fn update_project(project: &mut Project, name: Option<&str>, description: Option<&str>)
    ensures
        final(project)@ == updated_project(old(project)@, opt_str_view(name), opt_str_view(description)),
{
    if let Some(n) = name {
        project.name = n.to_owned();
    }
    if let Some(d) = description {
        project.description = Some(d.to_owned());
    }
}

/// Refreshes the project's update time to the current time, a UTC
/// timestamp; nothing else changes.
pub fn touch_project(project: &mut Project)
    ensures
        final(project)@ == (ProjectView { updated_at: final(project)@.updated_at, ..old(project)@ }),
        is_utc_timestamp(final(project)@.updated_at),
{
    project.updated_at = now_rfc3339();
}

} // verus!
