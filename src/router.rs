//! The entry points that callers use: listing plugins, searching one plugin,
//! and running one of its actions.
//!
//! Calling into a plugin is the host's part: it is handed in as a function,
//! which for a loaded library runs the call behind a fault boundary and
//! reports whether it completed. The router decides the rest: which plugin a
//! call goes to, what a caller sees when the plugin is unknown (no results for
//! a search, an error for an action), and that a faulted search degrades to no
//! results while a completed one is returned unchanged.

use crate::contract::{Plugin, PluginSearchResult};
use crate::loader::{has_key, slot_of, DynamicPluginLoader, RegisteredPlugin};
use vstd::prelude::*;

verus! {

/// How one search call into a plugin ended.
pub enum SearchCall {
    /// The plugin returned this outcome.
    Completed(PluginSearchResult),
    /// The plugin's code failed abruptly; the failure was caught at the call.
    Faulted,
}

/// The message of the error for an unknown plugin.
pub open spec fn not_found_message() -> Seq<char> {
    "Plugin not found"@
}

/// What a caller sees of a search call that ended as `c`.
pub open spec fn settled(c: SearchCall, r: PluginSearchResult) -> bool {
    match c {
        SearchCall::Completed(x) => r == x,
        SearchCall::Faulted => r.is_empty_list(),
    }
}

/// The plugin registered under `id`, where there is one.
pub open spec fn plugin_at<P>(s: Seq<RegisteredPlugin<P>>, id: Seq<char>) -> P {
    s[slot_of(s, id)].plugin
}

/// What a search through the router may return: no results for an unknown
/// plugin, else what the plugin's call ended with, settled.
pub open spec fn search_outcome<P, F: FnOnce(&P, &str) -> SearchCall>(
    s: Seq<RegisteredPlugin<P>>,
    plugin_id: &str,
    query: &str,
    call: F,
    r: PluginSearchResult,
) -> bool {
    if has_key(s, plugin_id@) {
        exists|c: SearchCall|
            #[trigger] call.ensures((&plugin_at(s, plugin_id@), query), c) && settled(c, r)
    } else {
        r.is_empty_list()
    }
}

/// What running an action through the router may return: an error for an
/// unknown plugin, else exactly what the plugin answered.
pub open spec fn execute_outcome<P, F: FnOnce(&P, &str, &str) -> Result<String, String>>(
    s: Seq<RegisteredPlugin<P>>,
    plugin_id: &str,
    result_id: &str,
    action_id: &str,
    call: F,
    r: Result<String, String>,
) -> bool {
    if has_key(s, plugin_id@) {
        call.ensures((&plugin_at(s, plugin_id@), result_id, action_id), r)
    } else {
        r matches Err(e) && e@ == not_found_message()
    }
}

/// The outcome a caller sees of one search call.
pub fn settle_search(c: SearchCall) -> (r: PluginSearchResult)
    ensures
        settled(c, r),
{
    match c {
        SearchCall::Completed(x) => x,
        SearchCall::Faulted => PluginSearchResult::empty(),
    }
}

/// Searches the plugin registered under `plugin_id` for `query`, through
/// `call`. An unknown plugin gives no results, never an error.
pub fn search_plugin<P, F: FnOnce(&P, &str) -> SearchCall>(
    registry: &DynamicPluginLoader<P>,
    plugin_id: &str,
    query: &str,
    call: F,
) -> (r: PluginSearchResult)
    requires
        registry.wf(),
        forall|p: &P, q: &str| call.requires((p, q)),
    ensures
        search_outcome(registry.entries(), plugin_id, query, call, r),
{
    match registry.get_plugin(plugin_id) {
        None => PluginSearchResult::empty(),
        Some(e) => {
            let c = call(&e.plugin, query);
            settle_search(c)
        },
    }
}

/// Runs `action_id` on `result_id` in the plugin registered under
/// `plugin_id`, through `call`, and returns its answer unchanged. An unknown
/// plugin is an error.
pub fn execute_plugin_action<P, F: FnOnce(&P, &str, &str) -> Result<String, String>>(
    registry: &DynamicPluginLoader<P>,
    plugin_id: &str,
    result_id: &str,
    action_id: &str,
    call: F,
) -> (r: Result<String, String>)
    requires
        registry.wf(),
        forall|p: &P, a: &str, b: &str| call.requires((p, a, b)),
    ensures
        execute_outcome(registry.entries(), plugin_id, result_id, action_id, call, r),
{
    match registry.get_plugin(plugin_id) {
        None => Err(String::from_str("Plugin not found")),
        Some(e) => call(&e.plugin, result_id, action_id),
    }
}

/// The descriptor of the plugin registered under `plugin_id`.
pub fn get_plugin_info<P>(registry: &DynamicPluginLoader<P>, plugin_id: &str) -> (r: Result<
    Plugin,
    String,
>)
    requires
        registry.wf(),
    ensures
        has_key(registry.entries(), plugin_id@) ==> (r matches Ok(info) && info.same_as(
            &registry.entries()[slot_of(registry.entries(), plugin_id@)].info,
        )),
        !has_key(registry.entries(), plugin_id@) ==> (r matches Err(e) && e@
            == not_found_message()),
{
    match registry.get_plugin(plugin_id) {
        None => Err(String::from_str("Plugin not found")),
        Some(e) => Ok(e.describe()),
    }
}

/// The descriptors of all registered plugins, in registration order.
pub fn list_plugins<P>(registry: &DynamicPluginLoader<P>) -> (r: Vec<Plugin>)
    ensures
        r@.len() == registry.entries().len(),
        forall|i: int|
            0 <= i < r@.len() ==> (#[trigger] r@[i]).same_as(&registry.entries()[i].info),
{
    registry.list_plugins()
}

} // verus!

verus! {

/// An unknown plugin is handled asymmetrically: a search of it yields an
/// empty result list, while an action on it fails with "Plugin not found".
pub proof fn unknown_plugin_asymmetry<
    P,
    F: FnOnce(&P, &str) -> SearchCall,
    G: FnOnce(&P, &str, &str) -> Result<String, String>,
>(
    registry: &DynamicPluginLoader<P>,
    plugin_id: &str,
    query: &str,
    result_id: &str,
    action_id: &str,
    search: F,
    execute: G,
    found: PluginSearchResult,
    answer: Result<String, String>,
)
    requires
        registry.wf(),
        !has_key(registry.entries(), plugin_id@),
        search_outcome(registry.entries(), plugin_id, query, search, found),
        execute_outcome(registry.entries(), plugin_id, result_id, action_id, execute, answer),
    ensures
        found.is_empty_list(),
        answer matches Err(e) && e@ == not_found_message(),
{
}

/// A search whose plugin call faults yields an empty result list; the fault
/// changes nothing in the registry, so the next call is routed as before.
pub proof fn fault_degrades_to_empty<P, F: FnOnce(&P, &str) -> SearchCall>(
    registry: &DynamicPluginLoader<P>,
    plugin_id: &str,
    query: &str,
    call: F,
    r: PluginSearchResult,
)
    requires
        registry.wf(),
        has_key(registry.entries(), plugin_id@),
        forall|c: SearchCall|
            call.ensures((&plugin_at(registry.entries(), plugin_id@), query), c) ==> c
                is Faulted,
        search_outcome(registry.entries(), plugin_id, query, call, r),
    ensures
        r.is_empty_list(),
{
}

/// A search call that completes is returned to the caller unchanged: the
/// router neither filters nor reorders a plugin's results.
pub proof fn completed_search_is_kept(x: PluginSearchResult, r: PluginSearchResult)
    requires
        settled(SearchCall::Completed(x), r),
    ensures
        r == x,
{
}

} // verus!

verus! {

/// A fault does not poison a plugin: after a search into it faulted (and
/// gave an empty list), a later search whose call completes with `x`
/// returns `x`. Searching takes the registry by shared reference, so the
/// second call is routed through the same entries as the first.
pub proof fn fault_does_not_poison<
    P,
    F: FnOnce(&P, &str) -> SearchCall,
    G: FnOnce(&P, &str) -> SearchCall,
>(
    registry: &DynamicPluginLoader<P>,
    plugin_id: &str,
    first_query: &str,
    second_query: &str,
    first: F,
    second: G,
    first_result: PluginSearchResult,
    second_result: PluginSearchResult,
    x: PluginSearchResult,
)
    requires
        registry.wf(),
        has_key(registry.entries(), plugin_id@),
        forall|c: SearchCall|
            first.ensures((&plugin_at(registry.entries(), plugin_id@), first_query), c) ==> c
                is Faulted,
        forall|c: SearchCall|
            second.ensures((&plugin_at(registry.entries(), plugin_id@), second_query), c) ==> c
                == SearchCall::Completed(x),
        search_outcome(registry.entries(), plugin_id, first_query, first, first_result),
        search_outcome(registry.entries(), plugin_id, second_query, second, second_result),
    ensures
        first_result.is_empty_list(),
        second_result == x,
{
}

} // verus!
