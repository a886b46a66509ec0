//! The processes plugin: lists running processes and ends one on request.
//! Reading the process table and signalling a process are the host's part.

use crate::contract::{Plugin, PluginAction, PluginResult};
use crate::text::{
    answers, decimal, decimal_text, digit_char, decimal_value, digits_of, is_numeral, matches_query, parse_u32,
    same_text,
};
use crate::web_search::descriptor;
use vstd::prelude::*;
use vstd::string::StringExecFns;

verus! {

/// Lists and ends system processes.
pub struct ProcessesPlugin;

impl ProcessesPlugin {
    /// The descriptor: id "processes", prefix "ps".
    pub fn get_info(&self) -> (r: Plugin)
        ensures
            r.id@ == "processes"@,
            r.name@ == "System Processes"@,
            r.description@ == "View and manage system processes"@,
            r.prefix@ == "ps"@,
            r.icon@ == "⚙️"@,
            r.config is None,
    {
        descriptor("processes", "System Processes", "View and manage system processes", "ps", "⚙️")
    }

    /// The process that an action asks to end: for "kill", the process id
    /// that `result_id` names; an id that is not a `u32` is refused, and any
    /// other action is unknown.
    pub fn kill_target(&self, result_id: &str, action_id: &str) -> (r: Result<u32, String>)
        ensures
            action_id@ != "kill"@ ==> (r matches Err(e) && e@ == "Unknown action"@),
            action_id@ == "kill"@ && is_numeral(result_id@) && decimal_value(digits_of(result_id@))
                <= u32::MAX ==> (r matches Ok(pid) && pid as int == decimal_value(
                digits_of(result_id@),
            )),
            action_id@ == "kill"@ && !(is_numeral(result_id@) && decimal_value(
                digits_of(result_id@),
            ) <= u32::MAX) ==> (r matches Err(e) && e@ == "Invalid process ID"@),
    {
        if !same_text(action_id, "kill") {
            return Err(String::from_str("Unknown action"));
        }
        match parse_u32(result_id) {
            Some(pid) => Ok(pid),
            None => Err(String::from_str("Invalid process ID")),
        }
    }

    /// The answer once the host looked the process up (`found`) and, if it
    /// was there, tried to end it (`killed`).
    pub fn kill_outcome(&self, found: bool, killed: bool) -> (r: Result<String, String>)
        ensures
            !found ==> (r matches Err(e) && e@ == "Process not found"@),
            found && killed ==> (r matches Ok(m) && m@ == "Process killed successfully"@),
            found && !killed ==> (r matches Err(e) && e@ == "Failed to kill process"@),
    {
        if !found {
            Err(String::from_str("Process not found"))
        } else if killed {
            Ok(String::from_str("Process killed successfully"))
        } else {
            Err(String::from_str("Failed to kill process"))
        }
    }
}

} // verus!

verus! {

/// A running process as the host read it: its id, its name, and the line
/// that tells its load.
pub struct ProcessRecord {
    pub pid: u32,
    pub name: String,
    pub subtitle: String,
}

/// The positions of the processes among the first `k` whose name answers
/// `query`.
pub open spec fn answering_processes(ps: Seq<ProcessRecord>, query: Seq<char>, k: int) -> Seq<int>
    decreases k,
{
    if k <= 0 {
        Seq::empty()
    } else if answers(ps[k - 1].name@, query) {
        answering_processes(ps, query, k - 1).push(k - 1)
    } else {
        answering_processes(ps, query, k - 1)
    }
}

/// The result for a process: its id in decimal is the result id, and its one
/// action ends it.
pub open spec fn is_process_result(r: PluginResult, p: ProcessRecord) -> bool {
    &&& r.id@ == decimal_text(p.pid as nat)
    &&& r.title@ == p.name@
    &&& r.subtitle matches Some(s) && s@ == p.subtitle@
    &&& r.icon is None
    &&& r.actions matches Some(a) && a@.len() == 1 && a@[0].is("kill"@, "Kill Process"@, "Ctrl+K"@)
    &&& r.well_formed()
}

fn process_result(p: &ProcessRecord) -> (r: PluginResult)
    ensures
        is_process_result(r, *p),
{
    let mut actions: Vec<PluginAction> = Vec::new();
    actions.push(
        PluginAction {
            id: String::from_str("kill"),
            label: String::from_str("Kill Process"),
            shortcut: Some(String::from_str("Ctrl+K")),
        },
    );
    PluginResult {
        id: decimal(p.pid as u64),
        title: p.name.clone(),
        subtitle: Some(p.subtitle.clone()),
        icon: None,
        actions: Some(actions),
    }
}

impl ProcessesPlugin {
    /// The results for `query`: one for each process whose name answers it,
    /// in the order given.
    pub fn results(&self, processes: &Vec<ProcessRecord>, query: &str) -> (r: Vec<PluginResult>)
        ensures
            r@.len() == answering_processes(processes@, query@, processes@.len() as int).len(),
            forall|j: int|
                0 <= j < r@.len() ==> is_process_result(
                    #[trigger] r@[j],
                    processes@[answering_processes(processes@, query@, processes@.len() as int)[j]],
                ),
    {
        let mut out: Vec<PluginResult> = Vec::new();
        let mut i: usize = 0;
        while i < processes.len()
            invariant
                i <= processes@.len(),
                out@.len() == answering_processes(processes@, query@, i as int).len(),
                forall|j: int|
                    0 <= j < answering_processes(processes@, query@, i as int).len() ==> 0
                        <= #[trigger] answering_processes(processes@, query@, i as int)[j] < i,
                forall|j: int|
                    0 <= j < out@.len() ==> is_process_result(
                        #[trigger] out@[j],
                        processes@[answering_processes(processes@, query@, i as int)[j]],
                    ),
            decreases processes@.len() - i,
        {
            if matches_query(processes[i].name.as_str(), query) {
                out.push(process_result(&processes[i]));
            }
            i = i + 1;
        }
        out
    }
}

/// The decimal numeral of `n` reads back as `n`.
pub proof fn decimal_reads_back(n: nat)
    ensures
        is_numeral(decimal_text(n)),
        digits_of(decimal_text(n)) == decimal_text(n),
        decimal_value(decimal_text(n)) == n,
    decreases n,
{
    let t = decimal_text(n);
    let d = n % 10;
    assert(digit_char(d) as int == 48 + d);
    vstd::arithmetic::div_mod::lemma_fundamental_div_mod(n as int, 10);
    assert(t.last() == digit_char(d));
    assert('0' as int == 48);
    assert(t.last() as int - '0' as int == d);
    assert(decimal_value(t) == 10 * decimal_value(t.drop_last()) + (t.last() as int - '0' as int));
    if n < 10 {
        assert(t[0] != '+');
        assert(t.drop_last() =~= Seq::<char>::empty());
    } else {
        decimal_reads_back(n / 10);
        let p = decimal_text(n / 10);
        assert(t.drop_last() =~= p);
        assert(t[0] == p[0]);
        assert forall|i: int| 0 <= i < t.len() implies '0' <= #[trigger] t[i] <= '9' by {
            if i < p.len() {
                assert(t[i] == p[i]);
            }
        };
    }
}

/// Every process result is accepted back by "kill": its id reads as the
/// process id, whatever became of the process since.
pub proof fn process_result_round_trip(r: PluginResult, p: ProcessRecord)
    requires
        is_process_result(r, p),
    ensures
        is_numeral(r.id@),
        decimal_value(digits_of(r.id@)) == p.pid as int,
        decimal_value(digits_of(r.id@)) <= u32::MAX,
{
    decimal_reads_back(p.pid as nat);
}

} // verus!
