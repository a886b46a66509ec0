//! The shell plugin: offers to run the query in each terminal that is
//! installed, and reads the terminal and command back out of a result id.
//! Finding which terminals are installed and starting one are the host's part.

use crate::contract::{Plugin, PluginAction, PluginResult, PluginSearchResult};
use crate::text::{chars_of, find, find_chars, slice_of, starts_with, string_of};
use crate::web_search::descriptor;
use vstd::prelude::*;
use vstd::string::StringExecFns;

verus! {

/// The descriptor of the shell plugin: id "shell", prefix ">".
pub fn get_plugin_info() -> (r: Plugin)
    ensures
        r.id@ == "shell"@,
        r.prefix@ == ">"@,
        r.name@ == "Shell"@,
        r.description@ == "Execute terminal commands"@,
        r.icon@ == "💻"@,
{
    descriptor("shell", "Shell", "Execute terminal commands", ">", "💻")
}

/// The number of known terminals.
pub const TERMINAL_COUNT: usize = 4;

/// The known terminals, as (name, executable, icon), in the order offered.
pub open spec fn terminals() -> Seq<(Seq<char>, Seq<char>, Seq<char>)> {
    seq![
        ("Command Prompt"@, "cmd"@, "⚫"@),
        ("PowerShell"@, "powershell"@, "🔵"@),
        ("Windows Terminal"@, "wt"@, "🖥️"@),
        ("Git Bash"@, "C:\\Program Files\\Git\\bin\\bash.exe"@, "🐙"@),
    ]
}

/// The name, executable and icon of terminal `i`.
pub fn terminal(i: usize) -> (r: (&'static str, &'static str, &'static str))
    requires
        i < TERMINAL_COUNT,
    ensures
        (r.0@, r.1@, r.2@) == terminals()[i as int],
{
    if i == 0 {
        ("Command Prompt", "cmd", "⚫")
    } else if i == 1 {
        ("PowerShell", "powershell", "🔵")
    } else if i == 2 {
        ("Windows Terminal", "wt", "🖥️")
    } else {
        ("Git Bash", "C:\\Program Files\\Git\\bin\\bash.exe", "🐙")
    }
}

/// The terminals among the first `k` that are installed, in order.
pub open spec fn installed(available: Seq<bool>, k: int) -> Seq<int>
    decreases k,
{
    if k <= 0 {
        Seq::empty()
    } else if available[k - 1] {
        installed(available, k - 1).push(k - 1)
    } else {
        installed(available, k - 1)
    }
}

/// The result that offers to run `query` in terminal `t`: its id is the
/// executable and the query joined by `:`.
pub open spec fn is_shell_result(r: PluginResult, t: (Seq<char>, Seq<char>, Seq<char>), query: Seq<char>) -> bool {
    &&& r.id@ == t.1 + ":"@ + query
    &&& r.title@ == "Run in "@ + t.0
    &&& r.subtitle matches Some(s) && s@ == "Execute: "@ + query
    &&& r.icon matches Some(i) && i@ == t.2
    &&& r.actions matches Some(a) && a@.len() == 1 && a@[0].is("execute"@, "Execute"@, "Enter"@)
    &&& r.well_formed()
}

fn shell_result(i: usize, query: &str) -> (r: PluginResult)
    requires
        i < TERMINAL_COUNT,
    ensures
        is_shell_result(r, terminals()[i as int], query@),
        r.well_formed(),
{
    let (name, executable, icon) = terminal(i);
    let mut actions: Vec<PluginAction> = Vec::new();
    actions.push(
        PluginAction {
            id: String::from_str("execute"),
            label: String::from_str("Execute"),
            shortcut: Some(String::from_str("Enter")),
        },
    );
    PluginResult {
        id: String::from_str(executable).concat(":").concat(query),
        title: String::from_str("Run in ").concat(name),
        subtitle: Some(String::from_str("Execute: ").concat(query)),
        icon: Some(String::from_str(icon)),
        actions: Some(actions),
    }
}

/// The results for `query`: none for an empty query, else one for each
/// installed terminal, in the order of the table. `available[i]` tells
/// whether terminal `i` is installed.
pub fn search_plugin(query: &str, available: &Vec<bool>) -> (r: PluginSearchResult)
    requires
        available@.len() == TERMINAL_COUNT,
    ensures
        r.well_formed(),
        query@.len() == 0 ==> r.is_empty_list(),
        query@.len() > 0 ==> (r matches PluginSearchResult::Results(v) && v@.len() == installed(
            available@,
            TERMINAL_COUNT as int,
        ).len() && forall|j: int|
            0 <= j < v@.len() ==> is_shell_result(
                #[trigger] v@[j],
                terminals()[installed(available@, TERMINAL_COUNT as int)[j]],
                query@,
            )),
{
    if query.unicode_len() == 0 {
        return PluginSearchResult::empty();
    }
    let mut out: Vec<PluginResult> = Vec::new();
    let mut i: usize = 0;
    while i < TERMINAL_COUNT
        invariant
            i <= TERMINAL_COUNT,
            available@.len() == TERMINAL_COUNT,
            out@.len() == installed(available@, i as int).len(),
            forall|j: int|
                0 <= j < out@.len() ==> is_shell_result(
                    #[trigger] out@[j],
                    terminals()[installed(available@, i as int)[j]],
                    query@,
                ),
            forall|j: int|
                0 <= j < installed(available@, i as int).len() ==> 0 <= #[trigger] installed(
                    available@,
                    i as int,
                )[j] < i,
        decreases TERMINAL_COUNT - i,
    {
        if available[i] {
            out.push(shell_result(i, query));
        }
        i = i + 1;
    }
    PluginSearchResult::Results(out)
}

/// The terminal to start and the command to run in it, and the message to
/// give once it started.
pub struct ShellLaunch {
    pub terminal: usize,
    pub command: String,
    pub message: String,
}

/// Whether `p` begins `s`.
pub open spec fn begins(p: Seq<char>, s: Seq<char>) -> bool {
    p.len() <= s.len() && s.subrange(0, p.len() as int) == p
}

/// The beginning of the result ids of terminal `i`: its executable and `:`.
pub open spec fn id_prefix(i: int) -> Seq<char> {
    terminals()[i].1 + ":"@
}

/// What a result id asks for: it must begin with a known terminal's
/// executable and `:`, and the rest is the command.
pub open spec fn launch_of(result_id: Seq<char>, r: Result<ShellLaunch, String>) -> bool {
    if exists|i: int| 0 <= i < TERMINAL_COUNT && begins(id_prefix(i), result_id) {
        r matches Ok(l) && l.terminal < TERMINAL_COUNT && begins(id_prefix(l.terminal as int), result_id)
            && l.command@ == result_id.subrange(id_prefix(l.terminal as int).len() as int, result_id.len() as int)
            && l.message@ == "Executed '"@ + l.command@ + "' in "@ + terminals()[l.terminal as int].0
    } else if find(result_id, seq![':']) < 0 {
        r matches Err(e) && e@ == "Invalid result ID"@
    } else {
        r matches Err(e) && e@ == "Terminal not found"@
    }
}

/// Reads the terminal and command out of a result id; the action id is not
/// consulted.
pub fn execute_plugin_action(result_id: &str, action_id: &str) -> (r: Result<ShellLaunch, String>)
    ensures
        launch_of(result_id@, r),
{
    let chars = chars_of(result_id);
    let mut i: usize = 0;
    while i < TERMINAL_COUNT
        invariant
            i <= TERMINAL_COUNT,
            chars@ == result_id@,
            forall|j: int| 0 <= j < i ==> !begins(id_prefix(j), result_id@),
        decreases TERMINAL_COUNT - i,
    {
        let (name, executable, _) = terminal(i);
        let prefix = chars_of(String::from_str(executable).concat(":").as_str());
        if starts_with(&chars, &prefix) {
            let command = string_of(&slice_of(&chars, prefix.len(), chars.len()));
            let message = String::from_str("Executed '").concat(command.as_str()).concat("' in ").concat(
                name,
            );
            return Ok(ShellLaunch { terminal: i, command, message });
        }
        i = i + 1;
    }
    let colon = chars_of(":");
    proof {
        reveal_strlit(":");
        assert(colon@ =~= seq![':']);
    }
    match find_chars(&chars, &colon) {
        None => Err(String::from_str("Invalid result ID")),
        Some(_) => Err(String::from_str("Terminal not found")),
    }
}

proof fn prefixes_differ(i: int, j: int)
    requires
        0 <= i < TERMINAL_COUNT,
        0 <= j < TERMINAL_COUNT,
        i != j,
    ensures
        id_prefix(i)[0] != id_prefix(j)[0],
        id_prefix(i).len() > 0,
{
    reveal_strlit("cmd");
    reveal_strlit("powershell");
    reveal_strlit("wt");
    reveal_strlit("C:\\Program Files\\Git\\bin\\bash.exe");
    reveal_strlit(":");
}

/// Every result the shell plugin gives is accepted back unchanged: its id
/// names the terminal it offered, and the command is the query.
pub proof fn shell_result_round_trip(
    r: PluginResult,
    i: int,
    query: Seq<char>,
    launch: Result<ShellLaunch, String>,
)
    requires
        0 <= i < TERMINAL_COUNT,
        is_shell_result(r, terminals()[i], query),
        launch_of(r.id@, launch),
    ensures
        launch matches Ok(l) && l.terminal == i && l.command@ == query,
{
    let id = r.id@;
    let p = id_prefix(i);
    assert(id == p + query);
    assert(id.subrange(0, p.len() as int) =~= p);
    assert(begins(p, id));
    let l = launch->Ok_0;
    let k = l.terminal as int;
    if k != i {
        prefixes_differ(i, k);
        prefixes_differ(k, i);
        assert(id[0] == p[0]);
        assert(id[0] == id.subrange(0, id_prefix(k).len() as int)[0]);
    }
    assert(id.subrange(p.len() as int, id.len() as int) =~= query);
}

} // verus!
