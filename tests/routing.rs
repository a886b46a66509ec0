use plugin_host::contract::{PluginResult, PluginSearchResult};
use plugin_host::loader::DynamicPluginLoader;
use plugin_host::router::{
    execute_plugin_action, get_plugin_info, list_plugins, search_plugin, settle_search, SearchCall,
};
use plugin_host::web_search::{GooglePlugin, YouTubePlugin};
use std::cell::Cell;

#[derive(Clone, Copy, PartialEq, Debug)]
enum Builtin {
    Google,
    YouTube,
}

fn host() -> DynamicPluginLoader<Builtin> {
    let mut reg = DynamicPluginLoader::new();
    reg.register_plugin("google".to_string(), GooglePlugin.get_info(), Builtin::Google).unwrap();
    reg.register_plugin("youtube".to_string(), YouTubePlugin.get_info(), Builtin::YouTube).unwrap();
    reg
}

fn run_search(p: &Builtin, q: &str) -> SearchCall {
    let results = match p {
        Builtin::Google => GooglePlugin.search(q),
        Builtin::YouTube => YouTubePlugin.search(q),
    };
    SearchCall::Completed(PluginSearchResult::Results(results))
}

fn run_action(p: &Builtin, result_id: &str, action_id: &str) -> Result<String, String> {
    let planned = match p {
        Builtin::Google => GooglePlugin.execute_action(result_id, action_id),
        Builtin::YouTube => YouTubePlugin.execute_action(result_id, action_id),
    };
    planned.map(|open| open.message)
}

fn items(r: PluginSearchResult) -> Vec<PluginResult> {
    match r {
        PluginSearchResult::Results(v) => v,
        PluginSearchResult::Html(_) => panic!("expected a result list"),
    }
}

#[test]
fn unknown_plugin_search_is_empty() {
    let reg = host();
    let r = search_plugin(&reg, "nope", "rust", run_search);
    assert!(items(r).is_empty());
}

#[test]
fn unknown_plugin_action_is_an_error() {
    let reg = host();
    let r = execute_plugin_action(&reg, "nope", "rust", "search", run_action);
    assert_eq!(r, Err("Plugin not found".to_string()));
    assert_eq!(get_plugin_info(&reg, "nope").err(), Some("Plugin not found".to_string()));
}

#[test]
fn google_end_to_end() {
    let reg = host();
    let r = items(search_plugin(&reg, "google", "rust", run_search));
    assert_eq!(r.len(), 1);
    assert_eq!(r[0].id, "rust");
    assert_eq!(r[0].title, "Search Google for 'rust'");
    let actions = r[0].actions.as_ref().unwrap();
    assert_eq!(actions.len(), 1);
    assert_eq!(actions[0].id, "search");
    let opened = Cell::new(String::new());
    let answer = execute_plugin_action(&reg, "google", "rust", "search", |p: &Builtin, rid: &str, aid: &str| {
        assert_eq!(*p, Builtin::Google);
        let plan = GooglePlugin.execute_action(rid, aid)?;
        opened.set(plan.url);
        Ok(plan.message)
    });
    assert_eq!(answer, Ok("Opened Google search".to_string()));
    assert_eq!(opened.take(), "https://www.google.com/search?q=rust");
}

#[test]
fn result_id_round_trips_into_action() {
    let reg = host();
    for plugin in ["google", "youtube"] {
        let r = items(search_plugin(&reg, plugin, "abc", run_search));
        let item = &r[0];
        let action = &item.actions.as_ref().unwrap()[0];
        let answer = execute_plugin_action(&reg, plugin, &item.id, &action.id, run_action);
        assert!(answer.is_ok(), "{} refused its own result", plugin);
    }
}

#[test]
fn faulted_search_is_empty_and_does_not_poison_plugin() {
    let reg = host();
    let calls = Cell::new(0u32);
    let flaky = |p: &Builtin, q: &str| {
        calls.set(calls.get() + 1);
        if calls.get() == 1 {
            SearchCall::Faulted
        } else {
            run_search(p, q)
        }
    };
    let first = search_plugin(&reg, "google", "abc", &flaky);
    assert!(items(first).is_empty());
    let second = search_plugin(&reg, "google", "xyz", &flaky);
    let second = items(second);
    assert_eq!(second.len(), 1);
    assert_eq!(second[0].title, "Search Google for 'xyz'");
}

#[test]
fn completed_outcome_is_returned_unchanged() {
    let html = plugin_host::contract::PluginHtmlResult { html: "<b>x</b>".to_string() };
    match settle_search(SearchCall::Completed(PluginSearchResult::Html(html))) {
        PluginSearchResult::Html(h) => assert_eq!(h.html, "<b>x</b>"),
        PluginSearchResult::Results(_) => panic!("markup was flattened"),
    }
    assert!(items(settle_search(SearchCall::Faulted)).is_empty());
}

#[test]
fn action_errors_pass_through_verbatim() {
    let reg = host();
    let r = execute_plugin_action(&reg, "google", "rust", "frobnicate", run_action);
    assert_eq!(r, Err("Unknown action".to_string()));
    let r = execute_plugin_action(&reg, "youtube", "x", "y", |_p: &Builtin, _a: &str, _b: &str| {
        Err("Process not found".to_string())
    });
    assert_eq!(r, Err("Process not found".to_string()));
}

#[test]
fn plugin_info_and_listing() {
    let reg = host();
    let info = get_plugin_info(&reg, "youtube").unwrap();
    assert_eq!(info.prefix, "yt");
    let all = list_plugins(&reg);
    assert_eq!(all.len(), 2);
    assert_eq!(all[0].id, "google");
    assert_eq!(all[0].prefix, "g");
    assert_eq!(all[1].id, "youtube");
}
