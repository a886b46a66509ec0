//! The applications plugin: picks the installed applications that answer a
//! query. Listing applications, drawing their icons and starting one are the
//! host's part.

use crate::contract::{Plugin, PluginAction, PluginResult};
use crate::text::{answers, matches_query, same_text};
use crate::web_search::descriptor;
use vstd::prelude::*;
use vstd::string::StringExecFns;

verus! {

/// Launches installed applications.
pub struct AppsPlugin;

/// The most applications one search shows.
pub const MAX_APPS: usize = 20;

/// The positions of the names among the first `k` that answer `query`.
pub open spec fn answering(names: Seq<String>, query: Seq<char>, k: int) -> Seq<int>
    decreases k,
{
    if k <= 0 {
        Seq::empty()
    } else if answers(names[k - 1]@, query) {
        answering(names, query, k - 1).push(k - 1)
    } else {
        answering(names, query, k - 1)
    }
}

impl AppsPlugin {
    /// The descriptor: id "apps", prefix "app".
    pub fn get_info(&self) -> (r: Plugin)
        ensures
            r.id@ == "apps"@,
            r.name@ == "Applications"@,
            r.description@ == "Launch applications"@,
            r.prefix@ == "app"@,
            r.icon@ == "🚀"@,
            r.config is None,
    {
        descriptor("apps", "Applications", "Launch applications", "app", "🚀")
    }

    /// The positions of the applications to show for `query`: those whose
    /// name answers it, in list order, at most `MAX_APPS` of them.
    pub fn select(&self, names: &Vec<String>, query: &str) -> (r: Vec<usize>)
        ensures
            r@.len() == if answering(names@, query@, names@.len() as int).len() <= MAX_APPS {
                answering(names@, query@, names@.len() as int).len()
            } else {
                MAX_APPS as nat
            },
            forall|j: int|
                0 <= j < r@.len() ==> #[trigger] r@[j] as int == answering(
                    names@,
                    query@,
                    names@.len() as int,
                )[j],
    {
        let mut out: Vec<usize> = Vec::new();
        let mut i: usize = 0;
        while i < names.len() && out.len() < MAX_APPS
            invariant
                i <= names@.len(),
                out@.len() <= MAX_APPS,
                out@.len() == answering(names@, query@, i as int).len(),
                forall|j: int|
                    0 <= j < out@.len() ==> #[trigger] out@[j] as int == answering(
                        names@,
                        query@,
                        i as int,
                    )[j],
            decreases names@.len() - i,
        {
            if matches_query(names[i].as_str(), query) {
                out.push(i);
            }
            i = i + 1;
        }
        proof {
            if out@.len() < MAX_APPS {
                assert(i == names@.len());
            } else {
                lemma_answering_prefix(names@, query@, i as int, names@.len() as int);
            }
        }
        out
    }

    /// The message for an action on an application: "open" starts it, any
    /// other action is unknown.
    pub fn open_outcome(&self, action_id: &str) -> (r: Result<String, String>)
        ensures
            action_id@ == "open"@ ==> (r matches Ok(m) && m@ == "App launched"@),
            action_id@ != "open"@ ==> (r matches Err(e) && e@ == "Unknown action"@),
    {
        if same_text(action_id, "open") {
            Ok(String::from_str("App launched"))
        } else {
            Err(String::from_str("Unknown action"))
        }
    }
}

/// Answering positions only grow as more names are read: the first ones stay.
proof fn lemma_answering_prefix(names: Seq<String>, query: Seq<char>, i: int, n: int)
    requires
        0 <= i <= n <= names.len(),
    ensures
        answering(names, query, i).len() <= answering(names, query, n).len(),
        forall|j: int|
            0 <= j < answering(names, query, i).len() ==> #[trigger] answering(names, query, n)[j]
                == answering(names, query, i)[j],
    decreases n - i,
{
    if i < n {
        lemma_answering_prefix(names, query, i, n - 1);
    }
}

} // verus!

verus! {

/// An installed application as the host found it: its name, where it is,
/// and its icon where one could be drawn.
pub struct AppRecord {
    pub name: String,
    pub path: String,
    pub icon: Option<String>,
}

/// The result for an application: its path is the id, its name the title,
/// its icon or a rocket, and its one action opens it.
pub open spec fn is_app_result(r: PluginResult, a: AppRecord) -> bool {
    &&& r.id@ == a.path@
    &&& r.title@ == a.name@
    &&& r.subtitle matches Some(s) && s@ == "Application"@
    &&& r.icon matches Some(i) && i@ == match a.icon {
        Some(x) => x@,
        None => "🚀"@,
    }
    &&& r.actions matches Some(v) && v@.len() == 1 && v@[0].is("open"@, "Open"@, "Enter"@)
    &&& r.well_formed()
}

/// The names of a list of applications.
pub open spec fn app_names(apps: Seq<AppRecord>) -> Seq<String> {
    apps.map_values(|a: AppRecord| a.name)
}

impl AppsPlugin {
    /// The results for `query`: the applications that `select` picks, in
    /// list order.
    pub fn results(&self, apps: &Vec<AppRecord>, query: &str) -> (r: Vec<PluginResult>)
        ensures
            ({
                let picked = answering(app_names(apps@), query@, apps@.len() as int);
                &&& r@.len() == if picked.len() <= MAX_APPS {
                    picked.len()
                } else {
                    MAX_APPS as nat
                }
                &&& forall|j: int|
                    0 <= j < r@.len() ==> is_app_result(#[trigger] r@[j], apps@[picked[j]])
            }),
    {
        let mut names: Vec<String> = Vec::new();
        let mut k: usize = 0;
        while k < apps.len()
            invariant
                k <= apps@.len(),
                names@.len() == k,
                forall|j: int| 0 <= j < k ==> #[trigger] names@[j]@ == apps@[j].name@,
            decreases apps@.len() - k,
        {
            names.push(apps[k].name.clone());
            k = k + 1;
        }
        proof {
            lemma_answering_views(names@, app_names(apps@), query@, apps@.len() as int);
        }
        let picked = self.select(&names, query);
        let mut out: Vec<PluginResult> = Vec::new();
        let mut i: usize = 0;
        while i < picked.len()
            invariant
                i <= picked@.len(),
                out@.len() == i,
                picked@.len() <= answering(names@, query@, names@.len() as int).len(),
                forall|j: int|
                    0 <= j < picked@.len() ==> #[trigger] picked@[j] as int == answering(
                        names@,
                        query@,
                        names@.len() as int,
                    )[j],
                forall|j: int|
                    0 <= j < answering(names@, query@, names@.len() as int).len() ==> 0
                        <= #[trigger] answering(names@, query@, names@.len() as int)[j]
                        < apps@.len(),
                names@.len() == apps@.len(),
                forall|j: int| 0 <= j < i ==> is_app_result(#[trigger] out@[j], apps@[picked@[j] as int]),
            decreases picked@.len() - i,
        {
            let a = &apps[picked[i]];
            let mut actions: Vec<PluginAction> = Vec::new();
            actions.push(
                PluginAction {
                    id: String::from_str("open"),
                    label: String::from_str("Open"),
                    shortcut: Some(String::from_str("Enter")),
                },
            );
            let icon = match &a.icon {
                Some(x) => x.clone(),
                None => String::from_str("🚀"),
            };
            out.push(
                PluginResult {
                    id: a.path.clone(),
                    title: a.name.clone(),
                    subtitle: Some(String::from_str("Application")),
                    icon: Some(icon),
                    actions: Some(actions),
                },
            );
            i = i + 1;
        }
        out
    }
}

/// Two name lists with the same texts pick the same positions, all of them
/// within the list.
proof fn lemma_answering_views(a: Seq<String>, b: Seq<String>, query: Seq<char>, k: int)
    requires
        0 <= k <= a.len(),
        a.len() == b.len(),
        forall|j: int| 0 <= j < a.len() ==> #[trigger] a[j]@ == b[j]@,
    ensures
        answering(a, query, k) == answering(b, query, k),
        forall|j: int|
            0 <= j < answering(a, query, k).len() ==> 0 <= #[trigger] answering(a, query, k)[j] < k,
    decreases k,
{
    if k > 0 {
        lemma_answering_views(a, b, query, k - 1);
    }
}

} // verus!
