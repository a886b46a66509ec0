//! The files plugin: how a file found by the desktop search engine is shown.
//! Querying the engine, naming a file's size in units and starting the
//! file's program are the host's part.

use crate::contract::{Plugin, PluginAction, PluginResult};
use crate::text::{chars_of, decimal, decimal_text, same_text, slice_of, string_of};
use crate::web_search::descriptor;
use vstd::prelude::*;
use vstd::string::StringExecFns;

verus! {

/// Searches files through the desktop search engine.
pub struct FilesPlugin;

/// One file that the search engine found. `size` is in bytes and
/// `date_modified` a Windows file time (100 ns steps since 1601); either is
/// negative where the engine could not tell.
pub struct SearchResult {
    pub filepath: String,
    pub size: i64,
    pub date_modified: i64,
}

/// The file time of the Unix epoch.
pub const UNIX_EPOCH_FILETIME: i64 = 116444736000000000;

/// A path of more than 80 characters shown as its first and last 30, joined
/// by "...".
pub open spec fn shortened_path(p: Seq<char>) -> Seq<char> {
    if p.len() > 80 {
        p.subrange(0, 30) + "..."@ + p.subrange(p.len() - 30, p.len() as int)
    } else {
        p
    }
}

/// The date text of a file: the whole days between the Unix epoch and the
/// file time, followed by "days ago"; "Unknown" for a time the engine could
/// not tell or one before 1970.
pub open spec fn date_text(date_modified: i64) -> Seq<char> {
    if date_modified > 0 && date_modified >= UNIX_EPOCH_FILETIME {
        decimal_text(((date_modified - UNIX_EPOCH_FILETIME) / 10000000 / 86400) as nat)
            + " days ago"@
    } else {
        "Unknown"@
    }
}

/// The result for a file: its path is the id, its name the title, and the
/// subtitle joins the shortened path, the size and the date.
pub open spec fn is_file_result(
    r: PluginResult,
    path: Seq<char>,
    name: Seq<char>,
    size_text: Seq<char>,
    date_modified: i64,
) -> bool {
    &&& r.id@ == path
    &&& r.title@ == name
    &&& r.subtitle matches Some(s) && s@ == shortened_path(path) + " • "@ + size_text + " • "@
        + date_text(date_modified)
    &&& r.icon matches Some(i) && i@ == "📄"@
    &&& r.actions matches Some(a) && a@.len() == 2 && a@[0].is("open"@, "Open"@, "Enter"@)
        && a@[1].is("open_folder"@, "Open Folder"@, "Ctrl+O"@)
}

impl FilesPlugin {
    /// The descriptor: id "files", prefix "f".
    pub fn get_info(&self) -> (r: Plugin)
        ensures
            r.id@ == "files"@,
            r.name@ == "Files"@,
            r.description@ == "Search files with Everything"@,
            r.prefix@ == "f"@,
            r.icon@ == "📁"@,
            r.config is None,
    {
        descriptor("files", "Files", "Search files with Everything", "f", "📁")
    }

    /// Whether a found file is shown: only files with a known, non-zero size.
    pub fn shows(&self, found: &SearchResult) -> (r: bool)
        ensures
            r == (found.size > 0),
    {
        found.size > 0
    }

    /// The result for a found file, given its file name and its size as text.
    pub fn file_result(&self, found: &SearchResult, name: String, size_text: &str) -> (r: PluginResult)
        ensures
            is_file_result(r, found.filepath@, name@, size_text@, found.date_modified),
            r.well_formed(),
    {
        proof {
            reveal_strlit("open");
            reveal_strlit("open_folder");
            assert("open"@.len() != "open_folder"@.len());
        }
        let subtitle = shorten_path(found.filepath.as_str()).concat(" • ").concat(size_text).concat(
            " • ",
        ).concat(days_ago(found.date_modified).as_str());
        let mut actions: Vec<PluginAction> = Vec::new();
        actions.push(
            PluginAction {
                id: String::from_str("open"),
                label: String::from_str("Open"),
                shortcut: Some(String::from_str("Enter")),
            },
        );
        actions.push(
            PluginAction {
                id: String::from_str("open_folder"),
                label: String::from_str("Open Folder"),
                shortcut: Some(String::from_str("Ctrl+O")),
            },
        );
        PluginResult {
            id: found.filepath.clone(),
            title: name,
            subtitle: Some(subtitle),
            icon: Some(String::from_str("📄")),
            actions: Some(actions),
        }
    }

    /// The message for an action on a file: "open" opens it, "open_folder"
    /// shows it in its folder, any other action is unknown.
    pub fn action_outcome(&self, action_id: &str) -> (r: Result<String, String>)
        ensures
            action_id@ == "open"@ ==> (r matches Ok(m) && m@ == "File opened"@),
            action_id@ == "open_folder"@ ==> (r matches Ok(m) && m@ == "Folder opened"@),
            action_id@ != "open"@ && action_id@ != "open_folder"@ ==> (r matches Err(e) && e@
                == "Unknown action"@),
    {
        proof {
            reveal_strlit("open");
            reveal_strlit("open_folder");
            assert("open"@.len() != "open_folder"@.len());
        }
        if same_text(action_id, "open") {
            Ok(String::from_str("File opened"))
        } else if same_text(action_id, "open_folder") {
            Ok(String::from_str("Folder opened"))
        } else {
            Err(String::from_str("Unknown action"))
        }
    }
}

/// A path of more than 80 characters cut to its first and last 30.
pub fn shorten_path(path: &str) -> (r: String)
    ensures
        r@ == shortened_path(path@),
{
    let chars = chars_of(path);
    let n = chars.len();
    if n <= 80 {
        return String::from_str(path);
    }
    let head = string_of(&slice_of(&chars, 0, 30));
    let tail = string_of(&slice_of(&chars, n - 30, n));
    head.concat("...").concat(tail.as_str())
}

/// The age of a file as text.
pub fn days_ago(date_modified: i64) -> (r: String)
    ensures
        r@ == date_text(date_modified),
{
    if date_modified > 0 && date_modified >= UNIX_EPOCH_FILETIME {
        let days = ((date_modified - UNIX_EPOCH_FILETIME) / 10000000 / 86400) as u64;
        decimal(days).concat(" days ago")
    } else {
        String::from_str("Unknown")
    }
}

} // verus!

verus! {

/// The positions of the found files among the first `k` that are shown.
pub open spec fn shown_files(found: Seq<(SearchResult, String, String)>, k: int) -> Seq<int>
    decreases k,
{
    if k <= 0 {
        Seq::empty()
    } else if found[k - 1].0.size > 0 {
        shown_files(found, k - 1).push(k - 1)
    } else {
        shown_files(found, k - 1)
    }
}

impl FilesPlugin {
    /// The results for `query`, given what the engine found, each with its
    /// file name and its size as text: none for an empty query, else one for
    /// each file with a known, non-zero size, in the engine's order.
    pub fn search(&self, query: &str, found: &Vec<(SearchResult, String, String)>) -> (r: Vec<
        PluginResult,
    >)
        ensures
            query@.len() == 0 ==> r@.len() == 0,
            query@.len() > 0 ==> r@.len() == shown_files(found@, found@.len() as int).len(),
            query@.len() > 0 ==> forall|j: int|
                0 <= j < r@.len() ==> {
                    let f = #[trigger] found@[shown_files(found@, found@.len() as int)[j]];
                    is_file_result(r@[j], f.0.filepath@, f.1@, f.2@, f.0.date_modified)
                        && r@[j].well_formed()
                },
    {
        let mut out: Vec<PluginResult> = Vec::new();
        if query.unicode_len() == 0 {
            return out;
        }
        let mut i: usize = 0;
        while i < found.len()
            invariant
                i <= found@.len(),
                out@.len() == shown_files(found@, i as int).len(),
                forall|j: int|
                    0 <= j < shown_files(found@, i as int).len() ==> 0 <= #[trigger] shown_files(
                        found@,
                        i as int,
                    )[j] < i,
                forall|j: int|
                    0 <= j < out@.len() ==> {
                        let f = #[trigger] found@[shown_files(found@, i as int)[j]];
                        is_file_result(out@[j], f.0.filepath@, f.1@, f.2@, f.0.date_modified)
                            && out@[j].well_formed()
                    },
            decreases found@.len() - i,
        {
            let (file, name, size_text) = &found[i];
            if self.shows(file) {
                out.push(self.file_result(file, name.clone(), size_text.as_str()));
            }
            i = i + 1;
        }
        out
    }
}

} // verus!
