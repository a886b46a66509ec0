//! The built-in web search plugins: each turns a query into one result that
//! opens the site's search page for it.

use crate::contract::{Plugin, PluginAction, PluginResult};
use crate::text::same_text;
use vstd::prelude::*;
use vstd::string::{StringExecFns, StringSliceAdditionalSpecFns};

verus! {

/// A byte that a URL carries as it is: an ASCII letter or digit, `-`, `.`,
/// `_` or `~`.
pub open spec fn unreserved(b: u8) -> bool {
    (48 <= b <= 57) || (65 <= b <= 90) || (97 <= b <= 122) || b == 45 || b == 46 || b == 95
        || b == 126
}

/// The upper-case hexadecimal digit of a value below 16.
pub open spec fn hex_digit(d: u8) -> char {
    if d < 10 {
        ((48 + d) as u8) as char
    } else {
        ((55 + d) as u8) as char
    }
}

/// How one byte appears in a URL: as itself, or as `%` and two hex digits.
pub open spec fn encoded_byte(b: u8) -> Seq<char> {
    if unreserved(b) {
        seq![b as char]
    } else {
        seq!['%', hex_digit(b / 16), hex_digit(b % 16)]
    }
}

/// The percent-encoding of a byte string.
pub open spec fn percent_encoded(b: Seq<u8>) -> Seq<char>
    decreases b.len(),
{
    if b.len() == 0 {
        Seq::empty()
    } else {
        percent_encoded(b.drop_last()) + encoded_byte(b.last())
    }
}

/// Relies on urlencoding::encode, which percent-encodes every byte of the
/// UTF-8 text except ASCII letters, digits, `-`, `.`, `_` and `~`, with
/// upper-case hex digits.
#[verifier::external_body]
fn url_encode(s: &str) -> (r: String)
    ensures
        r@ == percent_encoded(s.spec_bytes()),
{
    urlencoding::encode(s).into_owned()
}

/// A request to open a URL, and the message to give once it was made.
pub struct OpenUrl {
    pub url: String,
    pub message: String,
}

/// The title of the result for `query` on the site called `site`.
pub open spec fn search_title(site: Seq<char>, query: Seq<char>) -> Seq<char> {
    "Search "@ + site + " for '"@ + query + "'"@
}

/// The one result that a web search plugin gives for a non-empty query: its
/// id is the query itself, and its one action is "search".
pub open spec fn is_web_result(r: PluginResult, site: Seq<char>, icon: Seq<char>, query: Seq<char>) -> bool {
    &&& r.id@ == query
    &&& r.title@ == search_title(site, query)
    &&& r.subtitle matches Some(s) && s@ == "Open in browser"@
    &&& r.icon matches Some(i) && i@ == icon
    &&& r.actions matches Some(a) && a@.len() == 1 && a@[0].is("search"@, "Search"@, "Enter"@)
}

/// The results of a web search plugin: none for an empty query, else one.
pub open spec fn web_results(r: Seq<PluginResult>, site: Seq<char>, icon: Seq<char>, query: Seq<char>) -> bool {
    if query.len() == 0 {
        r.len() == 0
    } else {
        r.len() == 1 && is_web_result(r[0], site, icon, query)
    }
}

/// What running an action of a web search plugin gives: for "search", a
/// request to open `base` followed by the encoded result id; any other
/// action is unknown.
pub open spec fn web_action(
    r: Result<OpenUrl, String>,
    base: Seq<char>,
    message: Seq<char>,
    result_id: &str,
    action_id: Seq<char>,
) -> bool {
    if action_id == "search"@ {
        r matches Ok(o) && o.url@ == base + percent_encoded(result_id.spec_bytes()) && o.message@
            == message
    } else {
        r matches Err(e) && e@ == "Unknown action"@
    }
}

fn some_text(s: &str) -> (r: Option<String>)
    ensures
        r matches Some(t) && t@ == s@,
{
    Some(String::from_str(s))
}

fn web_search(site: &str, icon: &str, query: &str) -> (r: Vec<PluginResult>)
    ensures
        web_results(r@, site@, icon@, query@),
        forall|i: int| 0 <= i < r@.len() ==> (#[trigger] r@[i]).well_formed(),
{
    if query.unicode_len() == 0 {
        return Vec::new();
    }
    let title = String::from_str("Search ").concat(site).concat(" for '").concat(query).concat("'");
    let action = PluginAction {
        id: String::from_str("search"),
        label: String::from_str("Search"),
        shortcut: some_text("Enter"),
    };
    let mut actions: Vec<PluginAction> = Vec::new();
    actions.push(action);
    let result = PluginResult {
        id: String::from_str(query),
        title,
        subtitle: some_text("Open in browser"),
        icon: some_text(icon),
        actions: Some(actions),
    };
    let mut out: Vec<PluginResult> = Vec::new();
    out.push(result);
    out
}

fn web_action_for(base: &str, message: &str, result_id: &str, action_id: &str) -> (r: Result<
    OpenUrl,
    String,
>)
    ensures
        web_action(r, base@, message@, result_id, action_id@),
{
    if same_text(action_id, "search") {
        let encoded = url_encode(result_id);
        Ok(OpenUrl {
            url: String::from_str(base).concat(encoded.as_str()),
            message: String::from_str(message),
        })
    } else {
        Err(String::from_str("Unknown action"))
    }
}

/// A descriptor with no configuration.
pub fn descriptor(id: &str, name: &str, description: &str, prefix: &str, icon: &str) -> (r: Plugin)
    ensures
        r.id@ == id@,
        r.name@ == name@,
        r.description@ == description@,
        r.prefix@ == prefix@,
        r.icon@ == icon@,
        r.config is None,
{
    Plugin {
        id: String::from_str(id),
        name: String::from_str(name),
        description: String::from_str(description),
        prefix: String::from_str(prefix),
        icon: String::from_str(icon),
        config: None,
    }
}

/// Searches Google.
pub struct GooglePlugin;

impl GooglePlugin {
    /// The descriptor: id "google", prefix "g".
    pub fn get_info(&self) -> (r: Plugin)
        ensures
            r.id@ == "google"@,
            r.name@ == "Google Search"@,
            r.description@ == "Search Google"@,
            r.prefix@ == "g"@,
            r.icon@ == "🔍"@,
            r.config is None,
    {
        descriptor("google", "Google Search", "Search Google", "g", "🔍")
    }

    /// One result that offers to search Google for `query`; none for an
    /// empty query.
    pub fn search(&self, query: &str) -> (r: Vec<PluginResult>)
        ensures
            web_results(r@, "Google"@, "🔍"@, query@),
            forall|i: int| 0 <= i < r@.len() ==> (#[trigger] r@[i]).well_formed(),
    {
        web_search("Google", "🔍", query)
    }

    /// For "search", the Google search page for `result_id`.
    pub fn execute_action(&self, result_id: &str, action_id: &str) -> (r: Result<OpenUrl, String>)
        ensures
            web_action(
                r,
                "https://www.google.com/search?q="@,
                "Opened Google search"@,
                result_id,
                action_id@,
            ),
    {
        web_action_for("https://www.google.com/search?q=", "Opened Google search", result_id, action_id)
    }
}

/// Searches YouTube.
pub struct YouTubePlugin;

impl YouTubePlugin {
    /// The descriptor: id "youtube", prefix "yt".
    pub fn get_info(&self) -> (r: Plugin)
        ensures
            r.id@ == "youtube"@,
            r.name@ == "YouTube Search"@,
            r.description@ == "Search YouTube"@,
            r.prefix@ == "yt"@,
            r.icon@ == "📺"@,
            r.config is None,
    {
        descriptor("youtube", "YouTube Search", "Search YouTube", "yt", "📺")
    }

    /// One result that offers to search YouTube for `query`; none for an
    /// empty query.
    pub fn search(&self, query: &str) -> (r: Vec<PluginResult>)
        ensures
            web_results(r@, "YouTube"@, "📺"@, query@),
            forall|i: int| 0 <= i < r@.len() ==> (#[trigger] r@[i]).well_formed(),
    {
        web_search("YouTube", "📺", query)
    }

    /// For "search", the YouTube results page for `result_id`.
    pub fn execute_action(&self, result_id: &str, action_id: &str) -> (r: Result<OpenUrl, String>)
        ensures
            web_action(
                r,
                "https://www.youtube.com/results?search_query="@,
                "Opened YouTube search"@,
                result_id,
                action_id@,
            ),
    {
        web_action_for(
            "https://www.youtube.com/results?search_query=",
            "Opened YouTube search",
            result_id,
            action_id,
        )
    }
}

} // verus!

verus! {

/// A result of a web search plugin, handed back unchanged together with the
/// action it offers, is accepted: the plugin never has to check the id.
pub proof fn web_result_round_trip(
    r: PluginResult,
    site: Seq<char>,
    icon: Seq<char>,
    query: Seq<char>,
    base: Seq<char>,
    message: Seq<char>,
    result_id: &str,
    answer: Result<OpenUrl, String>,
)
    requires
        is_web_result(r, site, icon, query),
        result_id@ == r.id@,
        web_action(answer, base, message, result_id, r.actions->0@[0].id@),
    ensures
        answer is Ok,
{
}

} // verus!

verus! {

/// The answer of the loadable Google plugin once the host tried to open the
/// page: its message, or the reason the page could not be opened.
pub fn google_open_outcome(plan: OpenUrl, opened: Result<(), String>) -> (r: Result<String, String>)
    ensures
        opened is Ok ==> r == Ok::<String, String>(plan.message),
        opened matches Err(e) ==> (r matches Err(m) && m@ == "Failed to open URL: "@ + e@),
{
    match opened {
        Ok(()) => Ok(plan.message),
        Err(e) => Err(String::from_str("Failed to open URL: ").concat(e.as_str())),
    }
}

} // verus!
