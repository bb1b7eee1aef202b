//! The diff source selector's computing half: the synthetic patch
//! between two in-memory buffers (the path taken for a brand-new,
//! untracked file), the content rule for such a file, and the rule
//! that picks the synthetic path. Repository access and file reads
//! happen outside; only plain values arrive here.

use crate::hunks::accumulate_events;
use crate::hunks::all_hunks_nonempty;
use crate::hunks::clip_total;
use crate::hunks::events_view;
use crate::hunks::hunks_of;
use crate::hunks::sum_lens;
use crate::types::Diff;
use crate::types::DiffEvent;
use crate::types::EventV;
use crate::types::HunkHeader;
use vstd::prelude::*;
use vstd::string::StringExecFns;

verus! {

/// The line events that the diff engine emits for a patch between
/// the two buffers under the given path, with default options: a
/// function of the buffers and the path alone.
pub uninterp spec fn patch_events_of(old_buf: Seq<u8>, new_buf: Seq<u8>, path: Seq<char>) -> Seq<
    EventV,
>;

/// Relies on `git2::Patch::from_buffers` and `git2::Patch::print`:
/// computes the unified diff between two buffers (default options)
/// and streams its line events, a function of the buffers and the
/// path alone; `None` when git2 reports an error instead.
#[verifier::external_body]
fn patch_line_events(old_buf: &Vec<u8>, new_buf: &Vec<u8>, path: &str) -> (r: Option<
    Vec<DiffEvent>,
>)
    ensures
        r matches Some(evs) ==> events_view(evs@) == patch_events_of(old_buf@, new_buf@, path@),
{
    let p = std::path::Path::new(path);
    let mut patch = match git2::Patch::from_buffers(old_buf, None, new_buf, Some(p), None) {
        Ok(patch) => patch,
        Err(_) => return None,
    };
    let mut evs: Vec<DiffEvent> = Vec::new();
    let r = patch.print(&mut |_d, hunk, line: git2::DiffLine| {
        let header = hunk.map(|h| HunkHeader {
            old_start: h.old_start(), old_lines: h.old_lines(),
            new_start: h.new_start(), new_lines: h.new_lines(),
        });
        evs.push(DiffEvent { header, origin: line.origin(), content: line.content().to_vec() });
        true
    });
    if r.is_ok() { Some(evs) } else { None }
}

/// Structured diff between an old and a new buffer: the engine's
/// line events for the pair, grouped into hunks. `None` only when
/// the engine itself fails; otherwise the hunks are exactly the
/// grouping of the engine's events, the total is the sum of their
/// lengths saturating at the 16-bit maximum, and no hunk is empty.
pub fn diff_from_buffers(old_buf: &Vec<u8>, new_buf: &Vec<u8>, path: &str) -> (r: Option<Diff>)
    ensures
        r matches Some(d) ==> {
            &&& d@.hunks == hunks_of(patch_events_of(old_buf@, new_buf@, path@))
            &&& d@.total == clip_total(sum_lens(d@.hunks))
            &&& sum_lens(d@.hunks) <= 65535 ==> d@.total == sum_lens(d@.hunks)
            &&& all_hunks_nonempty(d@.hunks)
        },
{
    match patch_line_events(old_buf, new_buf, path) {
        Option::Some(events) => Option::Some(accumulate_events(&events)),
        Option::None => Option::None,
    }
}

/// Diff of a brand-new, untracked file: a synthetic patch of empty
/// old content against the file's content, built explicitly so the
/// file's path is known to the engine rather than taken from the
/// generic work-dir diff.
pub fn untracked_file_diff(content: &Vec<u8>, path: &str) -> (r: Option<Diff>)
    ensures
        r matches Some(d) ==> {
            &&& d@.hunks == hunks_of(patch_events_of(Seq::<u8>::empty(), content@, path@))
            &&& d@.total == clip_total(sum_lens(d@.hunks))
            &&& sum_lens(d@.hunks) <= 65535 ==> d@.total == sum_lens(d@.hunks)
            &&& all_hunks_nonempty(d@.hunks)
        },
{
    let empty: Vec<u8> = Vec::new();
    proof {
        assert(empty@ =~= Seq::<u8>::empty());
    }
    diff_from_buffers(&empty, content, path)
}

/// How the content of a brand-new file was resolved on disk.
pub enum NewFileSource {
    /// The path is a symbolic link; the value is the link's target.
    Link(String),
    /// A regular file whose bytes were read and decoded as text.
    Text(String),
    /// Unreadable, undecodable, or neither a link nor a regular
    /// file.
    Missing,
}

/// Content used for the synthetic patch of a brand-new file: a
/// link's target string, a readable file's text, and otherwise the
/// fixed sentinel.
pub fn new_file_content(source: NewFileSource) -> (s: String)
    ensures
        source matches NewFileSource::Link(t) ==> s@ == t@,
        source matches NewFileSource::Text(t) ==> s@ == t@,
        source matches NewFileSource::Missing ==> s@ == "file not found"@,
{
    match source {
        NewFileSource::Link(t) => t,
        NewFileSource::Text(t) => t,
        NewFileSource::Missing => String::from_str("file not found"),
    }
}

/// The selector takes the synthetic-patch path exactly when the
/// generic diff reports a single delta and that delta's status is
/// "untracked".
pub fn is_untracked_special_case(delta_count: usize, single_delta_untracked: bool) -> (r: bool)
    ensures
        r == (delta_count == 1 && single_delta_untracked),
{
    delta_count == 1 && single_delta_untracked
}

} // verus!
