//! Note, resource link and metadata commands.

use vstd::prelude::*;

use crate::cli::error::CliError;
use crate::cli::item::saved_as;
use crate::cli::task::{lookup_task, picked, picked_cuts, task_lookup_failed};
use crate::ids::{short_id, short_id_of};
use crate::logic::note::with_notes;
use crate::logic::resolve::{task_resolves};
use crate::logic::resource::with_resources;
use crate::logic::task::{merge_metadata, merged_metadata, touch};
use crate::models::{ResourceView, Task, TaskView, opt_view, tasks_view};
use crate::text::{append_str, cuts_at};

verus! {

/// Note subcommands.
#[derive(Debug, Clone)]
pub enum NoteCommands {
    /// Add a note.
    New(NoteArgs),
}

/// Arguments of `note new`.
#[derive(Debug, Clone)]
pub struct NoteArgs {
    /// Task (an ID or ID prefix).
    pub task_id: String,
    /// Note text.
    pub content: String,
}

/// Link subcommands.
#[derive(Debug, Clone)]
pub enum LinkCommands {
    /// Add a resource.
    New(LinkNewArgs),
}

/// Arguments of `link new`.
#[derive(Debug, Clone)]
pub struct LinkNewArgs {
    /// Task (an ID or ID prefix).
    pub task_id: String,
    /// Resource name.
    pub name: String,
    /// URL or path.
    pub url: String,
    /// Description.
    pub description: Option<String>,
}

/// Resource subcommands of the older command set.
#[derive(Debug, Clone)]
pub enum ResourceCommand {
    /// Add a resource.
    Link { task_id: String, name: String, url: String, description: Option<String> },
}

/// Arguments of `tag`.
#[derive(Debug, Clone)]
pub struct TagArgs {
    /// Task (an ID or ID prefix).
    pub task_id: String,
    /// Tags, comma separated (kept when absent).
    pub tags: Option<String>,
    /// Priority.
    pub priority: Option<String>,
    /// Estimated completion time.
    pub eta: Option<String>,
}

/// The short ID of the picked task.
pub open spec fn picked_short(prefix: Seq<char>, ts: Seq<TaskView>) -> Seq<char> {
    short_id_of(picked(prefix, ts).id)
}

fn short_of(t: &Task) -> (r: String)
    requires
        cuts_at(t@.id, 8),
    ensures
        r@ == short_id_of(t@.id),
{
    short_id(t.id.as_str())
}

/// `note new`: appends a note; the message is "笔记已添加到任务 <short ID>".
pub fn note_new(args: &NoteArgs, tasks: &[Task]) -> (r: Result<(Task, String), CliError>)
    requires
        picked_cuts(args.task_id@, tasks_view(tasks@)),
    ensures
        r is Ok <==> task_resolves(args.task_id@, tasks_view(tasks@)),
        r matches Err(e) ==> task_lookup_failed(e, args.task_id@, tasks_view(tasks@)),
        r matches Ok((t, m)) ==> ({
            let p = picked(args.task_id@, tasks_view(tasks@));
            &&& saved_as(t@, with_notes(p, p.notes.push(args.content@)))
            &&& m@ == "笔记已添加到任务 "@ + short_id_of(p.id)
        }),
{
    let i = lookup_task(args.task_id.as_str(), tasks)?;
    assert(tasks_view(tasks@)[i as int] == tasks@[i as int]@);
    let short = short_of(&tasks[i]);
    let mut t = tasks[i].copy();
    crate::logic::note::add_note(&mut t, args.content.as_str());
    touch(&mut t);
    let mut m = String::from_str("笔记已添加到任务 ");
    append_str(&mut m, short.as_str());
    Ok((t, m))
}

/// `link new`: appends a resource; the message is
/// "资源 \"<name>\" 已添加到任务 <short ID>".
pub fn link_new(args: &LinkNewArgs, tasks: &[Task]) -> (r: Result<(Task, String), CliError>)
    requires
        picked_cuts(args.task_id@, tasks_view(tasks@)),
    ensures
        r is Ok <==> task_resolves(args.task_id@, tasks_view(tasks@)),
        r matches Err(e) ==> task_lookup_failed(e, args.task_id@, tasks_view(tasks@)),
        r matches Ok((t, m)) ==> ({
            let p = picked(args.task_id@, tasks_view(tasks@));
            &&& saved_as(
                t@,
                with_resources(
                    p,
                    p.resources.push(
                        ResourceView { name: args.name@, url: args.url@, description: opt_view(args.description) },
                    ),
                ),
            )
            &&& m@ == "资源 \""@ + args.name@ + "\" 已添加到任务 "@ + short_id_of(p.id)
        }),
{
    let i = lookup_task(args.task_id.as_str(), tasks)?;
    assert(tasks_view(tasks@)[i as int] == tasks@[i as int]@);
    let short = short_of(&tasks[i]);
    let mut t = tasks[i].copy();
    let desc: Option<&str> = match &args.description {
        Some(d) => Some(d.as_str()),
        None => None,
    };
    crate::logic::resource::add_resource(&mut t, args.name.as_str(), args.url.as_str(), desc);
    touch(&mut t);
    let mut m = String::from_str("资源 \"");
    append_str(&mut m, args.name.as_str());
    append_str(&mut m, "\" 已添加到任务 ");
    append_str(&mut m, short.as_str());
    Ok((t, m))
}

/// `tag`: merges the given tags, priority and time into the metadata; the
/// message is "任务 <short ID> 元数据已更新".
pub fn tag(args: &TagArgs, tasks: &[Task]) -> (r: Result<(Task, String), CliError>)
    requires
        picked_cuts(args.task_id@, tasks_view(tasks@)),
    ensures
        r is Ok <==> task_resolves(args.task_id@, tasks_view(tasks@)),
        r matches Err(e) ==> task_lookup_failed(e, args.task_id@, tasks_view(tasks@)),
        r matches Ok((t, m)) ==> ({
            let p = picked(args.task_id@, tasks_view(tasks@));
            &&& saved_as(
                t@,
                TaskView {
                    metadata: Some(
                        merged_metadata(p.metadata, opt_view(args.priority), opt_view(args.tags), opt_view(args.eta)),
                    ),
                    ..p
                },
            )
            &&& m@ == "任务 "@ + short_id_of(p.id) + " 元数据已更新"@
        }),
{
    let i = lookup_task(args.task_id.as_str(), tasks)?;
    assert(tasks_view(tasks@)[i as int] == tasks@[i as int]@);
    let short = short_of(&tasks[i]);
    let mut t = tasks[i].copy();
    let p: Option<&str> = match &args.priority {
        Some(x) => Some(x.as_str()),
        None => None,
    };
    let tg: Option<&str> = match &args.tags {
        Some(x) => Some(x.as_str()),
        None => None,
    };
    let e: Option<&str> = match &args.eta {
        Some(x) => Some(x.as_str()),
        None => None,
    };
    let m = merge_metadata(&t.metadata, p, tg, e);
    crate::logic::task::update_metadata(&mut t, m);
    touch(&mut t);
    let mut msg = String::from_str("任务 ");
    append_str(&mut msg, short.as_str());
    append_str(&mut msg, " 元数据已更新");
    Ok((t, msg))
}

} // verus!
