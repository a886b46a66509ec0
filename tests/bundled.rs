use plugin_host::apps::{AppRecord, AppsPlugin, MAX_APPS};
use plugin_host::clipboard::{
    format_time_ago, get_plugin_info as clipboard_info, search_plugin as clip_search, ClipboardHistory, MAX_HISTORY,
};
use plugin_host::color::{generate_example_colors, generate_format_help, search_plugin as color_search};
use plugin_host::contract::PluginSearchResult;
use plugin_host::emoji::{search_plugin as emoji_search, EmojiRecord};
use plugin_host::files::{days_ago, shorten_path, FilesPlugin, SearchResult};
use plugin_host::processes::{ProcessRecord, ProcessesPlugin};
use plugin_host::shell::{execute_plugin_action as shell_execute, search_plugin as shell_search, terminal};
use plugin_host::text::{decimal, matches_query, parse_u32};
use plugin_host::torrent::{get_plugin_info as torrent_info, search_plugin as torrent_search};
use plugin_host::web_search::{google_open_outcome, GooglePlugin};

fn html(r: PluginSearchResult) -> String {
    match r {
        PluginSearchResult::Html(h) => h.html,
        PluginSearchResult::Results(_) => panic!("expected markup"),
    }
}

fn is_empty_list(r: &PluginSearchResult) -> bool {
    matches!(r, PluginSearchResult::Results(v) if v.is_empty())
}

#[test]
fn u32_parsing_follows_std() {
    for s in ["0", "42", "+7", "007", "4294967295", "", "+", "-1", "4294967296", "12a", " 1", "99999999999999999999"] {
        assert_eq!(parse_u32(s), s.parse::<u32>().ok(), "input {:?}", s);
    }
}

#[test]
fn decimal_numerals() {
    assert_eq!(decimal(0), "0");
    assert_eq!(decimal(9), "9");
    assert_eq!(decimal(10), "10");
    assert_eq!(decimal(18446744073709551615), "18446744073709551615");
}

#[test]
fn query_matching_ignores_case() {
    assert!(matches_query("Firefox", ""));
    assert!(matches_query("Firefox", "FIRE"));
    assert!(matches_query("ÉCOLE", "éco"));
    assert!(!matches_query("Firefox", "chrome"));
}

#[test]
fn kill_requests() {
    let p = ProcessesPlugin;
    assert_eq!(p.get_info().id, "processes");
    assert_eq!(p.kill_target("1234", "kill"), Ok(1234));
    assert_eq!(p.kill_target("abc", "kill"), Err("Invalid process ID".to_string()));
    assert_eq!(p.kill_target("1234", "stop"), Err("Unknown action".to_string()));
    assert_eq!(p.kill_outcome(false, false), Err("Process not found".to_string()));
    assert_eq!(p.kill_outcome(true, true), Ok("Process killed successfully".to_string()));
    assert_eq!(p.kill_outcome(true, false), Err("Failed to kill process".to_string()));
}

#[test]
fn app_selection_filters_and_caps() {
    let names: Vec<String> = vec!["Firefox", "Files", "Terminal", "fish"].into_iter().map(String::from).collect();
    assert_eq!(AppsPlugin.select(&names, "fi"), vec![0, 1, 3]);
    assert_eq!(AppsPlugin.select(&names, ""), vec![0, 1, 2, 3]);
    let many: Vec<String> = (0..30).map(|i| format!("app{}", i)).collect();
    let picked = AppsPlugin.select(&many, "APP");
    assert_eq!(picked.len(), MAX_APPS);
    assert_eq!(picked, (0..20).collect::<Vec<usize>>());
    assert_eq!(AppsPlugin.open_outcome("open"), Ok("App launched".to_string()));
    assert_eq!(AppsPlugin.open_outcome("x"), Err("Unknown action".to_string()));
    assert_eq!(AppsPlugin.get_info().prefix, "app");
}

#[test]
fn file_results() {
    let files = FilesPlugin;
    let long = format!("C:/{}/end.txt", "d".repeat(100));
    let found = SearchResult { filepath: long.clone(), size: 2048, date_modified: 116444736000000000 + 86400 * 3 * 10000000 };
    assert!(files.shows(&found));
    assert!(!files.shows(&SearchResult { filepath: "x".into(), size: 0, date_modified: 0 }));
    let r = files.file_result(&found, "end.txt".to_string(), "2.0 KB");
    assert_eq!(r.id, long);
    assert_eq!(r.title, "end.txt");
    let short: String = format!("{}...{}", &long[..30], &long[long.len() - 30..]);
    assert_eq!(r.subtitle.unwrap(), format!("{} • 2.0 KB • 3 days ago", short));
    let actions = r.actions.unwrap();
    assert_eq!(actions[1].id, "open_folder");
    assert_eq!(shorten_path("C:/a.txt"), "C:/a.txt");
    assert_eq!(days_ago(-1), "Unknown");
    assert_eq!(days_ago(5), "Unknown");
    assert_eq!(files.action_outcome("open"), Ok("File opened".to_string()));
    assert_eq!(files.action_outcome("open_folder"), Ok("Folder opened".to_string()));
    assert_eq!(files.action_outcome("delete"), Err("Unknown action".to_string()));
}

#[test]
fn shell_offers_installed_terminals() {
    assert!(is_empty_list(&shell_search("", &vec![true, true, true, true])));
    match shell_search("dir", &vec![false, true, false, true]) {
        PluginSearchResult::Results(v) => {
            assert_eq!(v.len(), 2);
            assert_eq!(v[0].id, "powershell:dir");
            assert_eq!(v[0].title, "Run in PowerShell");
            assert_eq!(v[0].subtitle.as_deref(), Some("Execute: dir"));
            assert_eq!(v[1].title, "Run in Git Bash");
        }
        PluginSearchResult::Html(_) => panic!("expected results"),
    }
}

#[test]
fn shell_reads_result_ids() {
    let launch = shell_execute("cmd:echo a:b", "execute").ok().unwrap();
    assert_eq!(terminal(launch.terminal).1, "cmd");
    assert_eq!(launch.command, "echo a:b");
    assert_eq!(launch.message, "Executed 'echo a:b' in Command Prompt");
    assert_eq!(shell_execute("nocolon", "execute").err(), Some("Invalid result ID".to_string()));
    assert_eq!(shell_execute("bash:ls", "execute").err(), Some("Terminal not found".to_string()));
}

#[test]
fn torrent_search_outcomes() {
    assert_eq!(torrent_info().prefix, "torrent");
    assert!(is_empty_list(&torrent_search("", Some("1/2 - A (x, 1 GB)\nmagnet:a".into()))));
    assert!(is_empty_list(&torrent_search("abc", None)));
    match torrent_search("abc", Some("1/2 - A (x, 1 GB)\nmagnet:a".into())) {
        PluginSearchResult::Results(v) => assert_eq!(v[0].id, "magnet:a"),
        PluginSearchResult::Html(_) => panic!("expected results"),
    }
}

#[test]
fn time_ago_buckets() {
    assert_eq!(format_time_ago(1000, 1030), "just now");
    assert_eq!(format_time_ago(1000, 900), "just now");
    assert_eq!(format_time_ago(0, 125), "2 min ago");
    assert_eq!(format_time_ago(0, 7200), "2 hr ago");
    assert_eq!(format_time_ago(0, 86400 * 3 + 5), "3 days ago");
}

#[test]
fn clipboard_history_keeps_newest_first() {
    assert_eq!(clipboard_info().id, "clipboard");
    let mut h = ClipboardHistory::new();
    h.add_to_history("a".to_string(), 1);
    h.add_to_history("b".to_string(), 2);
    h.add_to_history("b".to_string(), 3);
    assert_eq!(h.len(), 2);
    assert_eq!(h.get(0), ("b", 2));
    assert_eq!(h.get(1), ("a", 1));
    for i in 0..150 {
        h.add_to_history(format!("t{}", i), 10 + i);
    }
    assert_eq!(h.len(), MAX_HISTORY);
    assert_eq!(h.get(0).0, "t149");
    assert_eq!(h.get(MAX_HISTORY - 1).0, "t50");
}

#[test]
fn emoji_search_outcomes() {
    let db = vec![
        EmojiRecord { emoji: "😀".into(), name: "Grinning Face".into(), slug: "grinning_face".into() },
        EmojiRecord { emoji: "🐱".into(), name: "cat face".into(), slug: "cat_face".into() },
        EmojiRecord { emoji: "🚀".into(), name: "rocket".into(), slug: "rocket".into() },
    ];
    let popular = html(emoji_search("", &db));
    assert!(popular.contains("title=\"Popular emoji: 😂\""));
    assert!(is_empty_list(&emoji_search("f", &db)));
    assert!(is_empty_list(&emoji_search("zebra", &db)));
    let found = html(emoji_search("FACE", &db));
    assert!(found.contains("copyEmoji('😀')"));
    assert!(found.contains("copyEmoji('🐱')"));
    assert!(!found.contains("copyEmoji('🚀')"));
    assert!(found.find("😀").unwrap() < found.find("🐱").unwrap());
}

#[test]
fn color_search_outcomes() {
    assert_eq!(html(color_search("", None)), generate_example_colors());
    assert_eq!(html(color_search("#fff", Some("<p>white</p>".into()))), "<p>white</p>");
    assert_eq!(html(color_search("nope", None)), generate_format_help("nope"));
}

#[test]
fn google_open_failure_is_reported() {
    let plan = GooglePlugin.execute_action("q", "search").ok().unwrap();
    assert_eq!(google_open_outcome(plan, Err("no browser".into())), Err("Failed to open URL: no browser".to_string()));
    let plan = GooglePlugin.execute_action("q", "search").ok().unwrap();
    assert_eq!(google_open_outcome(plan, Ok(())), Ok("Opened Google search".to_string()));
}

#[test]
fn clipboard_search_lists_each_text_once() {
    let mut h = ClipboardHistory::new();
    h.add_to_history("older text".to_string(), 0);
    let r = clip_search("", Some("fresh".to_string()), &mut h, 120);
    assert_eq!(h.len(), 2);
    assert_eq!(r.len(), 2);
    assert_eq!(r[0].id, "fresh");
    assert_eq!(r[0].title, "📋 fresh");
    assert_eq!(r[0].subtitle.as_deref(), Some("Current clipboard"));
    assert_eq!(r[0].actions.as_ref().unwrap()[1].id, "clear");
    assert_eq!(r[1].title, "🕒 older text");
    assert_eq!(r[1].subtitle.as_deref(), Some("Copied 2 min ago"));
    let r = clip_search("OLD", Some("fresh".to_string()), &mut h, 120);
    assert_eq!(r.len(), 1);
    assert_eq!(r[0].id, "older text");
}

#[test]
fn clipboard_history_duplicates_are_listed_once() {
    let mut h = ClipboardHistory::new();
    h.add_to_history("a".to_string(), 0);
    h.add_to_history("b".to_string(), 1);
    h.add_to_history("a".to_string(), 2);
    let r = clip_search("", None, &mut h, 3);
    let ids: Vec<&str> = r.iter().map(|x| x.id.as_str()).collect();
    assert_eq!(ids, vec!["a", "b"]);
    assert_eq!(r[0].subtitle.as_deref(), Some("Copied just now"));
}

#[test]
fn clipboard_search_blank_and_long_texts() {
    let mut h = ClipboardHistory::new();
    let r = clip_search("", Some("   ".to_string()), &mut h, 5);
    assert_eq!(h.len(), 0);
    assert_eq!(r.len(), 1);
    let long = "x".repeat(60);
    let r = clip_search("", Some(long.clone()), &mut h, 5);
    assert_eq!(r[0].title, format!("📋 {}...", "x".repeat(47)));
    let mut h = ClipboardHistory::new();
    let awkward = format!("{}é{}", "a".repeat(46), "b".repeat(10));
    let r = clip_search("", Some(awkward.clone()), &mut h, 5);
    assert_eq!(r.len(), 1);
    assert_eq!(r[0].id, awkward);
    assert_eq!(r[0].title, format!("📋 {}...", "a".repeat(46)));
    let mut h = ClipboardHistory::new();
    for i in 0..30 {
        h.add_to_history(format!("entry {}", i), i);
    }
    let r = clip_search("entry", None, &mut h, 100);
    assert_eq!(r.len(), 20);
    assert_eq!(r[0].id, "entry 29");
}

#[test]
fn git_bash_result_round_trips() {
    match shell_search("ls -la", &vec![false, false, false, true]) {
        PluginSearchResult::Results(v) => {
            assert_eq!(v.len(), 1);
            let launch = shell_execute(&v[0].id, "execute").ok().unwrap();
            assert_eq!(launch.terminal, 3);
            assert_eq!(launch.command, "ls -la");
            assert_eq!(launch.message, "Executed 'ls -la' in Git Bash");
        }
        PluginSearchResult::Html(_) => panic!("expected results"),
    }
}

#[test]
fn process_results_round_trip_into_kill() {
    let records = vec![
        ProcessRecord { pid: 42, name: "Firefox".into(), subtitle: "PID: 42".into() },
        ProcessRecord { pid: 7, name: "bash".into(), subtitle: "PID: 7".into() },
        ProcessRecord { pid: 4294967295, name: "fire-daemon".into(), subtitle: "x".into() },
    ];
    let r = ProcessesPlugin.results(&records, "FIRE");
    assert_eq!(r.len(), 2);
    assert_eq!(r[0].id, "42");
    assert_eq!(r[0].title, "Firefox");
    assert_eq!(r[0].subtitle.as_deref(), Some("PID: 42"));
    assert_eq!(r[0].actions.as_ref().unwrap()[0].id, "kill");
    assert_eq!(r[1].id, "4294967295");
    for item in &r {
        assert!(ProcessesPlugin.kill_target(&item.id, "kill").is_ok());
    }
    assert_eq!(ProcessesPlugin.results(&records, "").len(), 3);
}

#[test]
fn files_search_shows_sized_files() {
    let found = vec![
        (SearchResult { filepath: "C:/a.txt".into(), size: 10, date_modified: -1 }, "a.txt".to_string(), "10 B".to_string()),
        (SearchResult { filepath: "C:/dir".into(), size: 0, date_modified: -1 }, "dir".to_string(), "0 B".to_string()),
        (SearchResult { filepath: "C:/b.bin".into(), size: 2048, date_modified: -1 }, "b.bin".to_string(), "2.0 KB".to_string()),
    ];
    let r = FilesPlugin.search("x", &found);
    assert_eq!(r.len(), 2);
    assert_eq!(r[0].title, "a.txt");
    assert_eq!(r[0].subtitle.as_deref(), Some("C:/a.txt • 10 B • Unknown"));
    assert_eq!(r[1].id, "C:/b.bin");
    assert!(FilesPlugin.search("", &found).is_empty());
}

#[test]
fn app_results_follow_selection() {
    let apps = vec![
        AppRecord { name: "Firefox".into(), path: "/usr/bin/firefox".into(), icon: Some("ICON".into()) },
        AppRecord { name: "Terminal".into(), path: "/usr/bin/term".into(), icon: None },
    ];
    let r = AppsPlugin.results(&apps, "");
    assert_eq!(r.len(), 2);
    assert_eq!(r[0].id, "/usr/bin/firefox");
    assert_eq!(r[0].icon.as_deref(), Some("ICON"));
    assert_eq!(r[1].icon.as_deref(), Some("🚀"));
    assert_eq!(r[1].subtitle.as_deref(), Some("Application"));
    assert_eq!(r[1].actions.as_ref().unwrap()[0].id, "open");
    let r = AppsPlugin.results(&apps, "term");
    assert_eq!(r.len(), 1);
    assert_eq!(r[0].title, "Terminal");
}
