//! Fetch tasks: one URL bound to its derived output file name, the compute
//! step of executing one fetched response, and the one-level asset fan-out.

use vstd::prelude::*;
use vstd::utf8::{decode_utf8, valid_utf8};

use crate::filter::{
    count_tag, ct_view, discovered, filter_html, filter_noop, is_html_content_type, url_views,
    FilterError, PageStats,
};
use crate::naming::{derive_name, filename_for_url};
use crate::urls::{AbsUrl, UrlModel};

verus! {

/// The unit of scheduling: one URL bound to its derived output file name.
/// An asset task (depth one) is fetched without inspection and never yields
/// follow-up tasks.
#[derive(Debug)]
pub struct Task {
    /// The URL to fetch.
    pub url: AbsUrl,
    /// The derived local output file name.
    pub out_name: String,
    /// True for a follow-up (asset) task discovered while filtering a page.
    pub is_asset: bool,
}

/// The model of a task.
pub ghost struct TaskModel {
    /// The model of the task's URL.
    pub url: UrlModel,
    /// The derived output file name.
    pub out_name: Seq<char>,
    /// True for a follow-up (asset) task.
    pub is_asset: bool,
}

impl View for Task {
    type V = TaskModel;

    open spec fn view(&self) -> TaskModel {
        TaskModel { url: self.url@, out_name: self.out_name@, is_asset: self.is_asset }
    }
}

/// The task for `u`: its URL bound to its derived output file name.
pub open spec fn task_for(u: UrlModel, is_asset: bool) -> TaskModel {
    TaskModel { url: u, out_name: derive_name(u.host, u.path), is_asset }
}

/// The models of a sequence of tasks.
pub open spec fn task_views(s: Seq<Task>) -> Seq<TaskModel> {
    s.map_values(|t: Task| t@)
}

/// Why executing a task failed.
#[derive(Debug, PartialEq, Eq, Structural)]
pub enum TaskError {
    /// The response status was outside the success range; carries that
    /// status.
    Status(u16),
    /// The response body was not valid UTF-8 though it was to be inspected
    /// as HTML.
    Decode,
    /// The markup parser refused the response body.
    Parse,
}

/// What executing one fetched task produced: the bytes to persist, the
/// follow-up asset tasks, and the tag counts of an inspected HTML page.
#[derive(Debug)]
pub struct TaskOutput {
    /// The bytes to write to the task's output file.
    pub bytes: Vec<u8>,
    /// One follow-up task per discovered asset URL, in document order.
    pub follow_ups: Vec<Task>,
    /// Tag counts, present exactly when the response was inspected as HTML.
    pub stats: Option<PageStats>,
}

/// True when an HTTP status code lies in the success range.
pub open spec fn spec_is_success(status: u16) -> bool {
    200 <= status < 300
}

/// Success-range test for an HTTP status code.
pub fn is_success(status: u16) -> (r: bool)
    ensures
        r == spec_is_success(status),
{
    200 <= status && status < 300
}

/// What a successful execution against a genuinely-HTML response
/// guarantees, given the parsed node models `ns` and the page URL written
/// `base`.
pub open spec fn task_html_output(
    o: TaskOutput,
    ns: Seq<crate::html::NodeModel>,
    base: Seq<char>,
    body: Seq<u8>,
    rewrite_assets: bool,
) -> bool {
    &&& o.stats matches Some(st) && st.links as nat == count_tag(ns, "a"@) && st.images as nat
        == count_tag(ns, "img"@)
    &&& !rewrite_assets ==> o.bytes@ == body && o.follow_ups@.len() == 0
    &&& rewrite_assets ==> task_views(o.follow_ups@) == discovered(ns, base).map_values(
        |u: UrlModel| task_for(u, true),
    ) && (exists|d: crate::html::Doc|
        crate::html::nodes(d) == crate::filter::rewritten(ns, base) && o.bytes@
            == vstd::utf8::encode_utf8(crate::html::serialized(d)))
}

impl Task {
    /// Binds a URL to its derived output file name.
    pub fn new(url: AbsUrl, is_asset: bool) -> (r: Task)
        ensures
            r@ == task_for(url@, is_asset),
    {
        let out_name = filename_for_url(&url);
        Task { url, out_name, is_asset }
    }

    /// The compute step of executing one task, applied to the fetched
    /// response's status, `content-type` header and body: rejects a
    /// non-success status, filters the body (HTML-aware exactly when
    /// metadata is asked for and the task is a page task), and yields one
    /// follow-up asset task per discovered asset URL. An asset task never
    /// yields follow-ups.
    pub fn process_response(
        &self,
        status: u16,
        content_type: Option<&str>,
        body: Vec<u8>,
        show_metadata: bool,
        rewrite_assets: bool,
    ) -> (r: Result<TaskOutput, TaskError>)
        ensures
            !spec_is_success(status) <==> r == Err::<TaskOutput, TaskError>(
                TaskError::Status(status),
            ),
            self.is_asset ==> {
                &&& r matches Ok(o) ==> o.follow_ups@.len() == 0 && o.bytes@ == body@
            },
            spec_is_success(status) && !(show_metadata && !self.is_asset) ==> {
                &&& r matches Ok(o)
                &&& o.bytes@ == body@
                &&& o.follow_ups@.len() == 0
                &&& o.stats is None
            },
            spec_is_success(status) && show_metadata && !self.is_asset
                && !is_html_content_type(ct_view(content_type)) ==> {
                &&& r matches Ok(o)
                &&& o.bytes@ == body@
                &&& o.follow_ups@.len() == 0
                &&& o.stats is None
            },
            spec_is_success(status) && show_metadata && !self.is_asset
                && is_html_content_type(ct_view(content_type)) ==> {
                &&& (r == Err::<TaskOutput, TaskError>(TaskError::Decode) <==> !valid_utf8(body@))
                &&& (r == Err::<TaskOutput, TaskError>(TaskError::Parse) <==> valid_utf8(body@)
                    && crate::html::parsed_nodes(decode_utf8(body@)) is None)
                &&& (valid_utf8(body@) && crate::html::parsed_nodes(decode_utf8(body@)) is Some
                    ==> {
                    let ns = crate::html::parsed_nodes(decode_utf8(body@)).unwrap();
                    &&& r matches Ok(o)
                    &&& task_html_output(o, ns, self.url@.text, body@, rewrite_assets)
                })
            },
    {
        if !is_success(status) {
            return Err(TaskError::Status(status));
        }
        if !(show_metadata && !self.is_asset) {
            return Ok(TaskOutput { bytes: filter_noop(body), follow_ups: Vec::new(), stats: None });
        }
        match filter_html(&self.url, content_type, body, rewrite_assets) {
            Err(FilterError::Decode) => Err(TaskError::Decode),
            Err(FilterError::Parse) => Err(TaskError::Parse),
            Ok(o) => {
                let assets = o.assets;
                let k = assets.len();
                let mut follow_ups: Vec<Task> = Vec::new();
                let mut j: usize = 0;
                while j < k
                    invariant
                        0 <= j <= k,
                        k == assets@.len(),
                        follow_ups@.len() == j,
                        forall|t: int| 0 <= t < j ==> follow_ups@[t]@ == task_for(
                            #[trigger] assets@[t]@,
                            true,
                        ),
                    decreases k - j,
                {
                    follow_ups.push(Task::new(assets[j].clone(), true));
                    j += 1;
                }
                proof {
                    assert(task_views(follow_ups@) =~= url_views(assets@).map_values(
                        |u: UrlModel| task_for(u, true),
                    ));
                }
                Ok(TaskOutput { bytes: o.bytes, follow_ups, stats: o.stats })
            },
        }
    }
}

/// The tasks for the seed URLs: page tasks, one per URL in order, each bound
/// to its derived output file name.
pub fn seed_tasks(urls: &Vec<AbsUrl>) -> (r: Vec<Task>)
    ensures
        task_views(r@) == url_views(urls@).map_values(|u: UrlModel| task_for(u, false)),
{
    let mut tasks: Vec<Task> = Vec::new();
    let mut i: usize = 0;
    while i < urls.len()
        invariant
            0 <= i <= urls@.len(),
            tasks@.len() == i,
            forall|t: int| 0 <= t < i ==> tasks@[t]@ == task_for(#[trigger] urls@[t]@, false),
        decreases urls@.len() - i,
    {
        tasks.push(Task::new(urls[i].clone(), false));
        i += 1;
    }
    proof {
        assert(task_views(tasks@) =~= url_views(urls@).map_values(
            |u: UrlModel| task_for(u, false),
        ));
    }
    tasks
}

} // verus!
