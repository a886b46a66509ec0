use plugin_host::clipboard::truncate;
use plugin_host::color::{generate_example_colors, generate_format_help};
use plugin_host::emoji::generate_emoji_grid;
use plugin_host::paths::{dynamic_plugins_dir, get_config_dir, get_plugins_dir, get_settings_path};
use plugin_host::torrent::{parse_torrent_line, parse_torrent_output};
use plugin_host::web_search::{GooglePlugin, YouTubePlugin};

#[test]
fn web_search_empty_query_gives_nothing() {
    assert!(GooglePlugin.search("").is_empty());
    assert!(YouTubePlugin.search("").is_empty());
}

#[test]
fn youtube_result_shape() {
    let r = YouTubePlugin.search("cats");
    assert_eq!(r.len(), 1);
    assert_eq!(r[0].title, "Search YouTube for 'cats'");
    assert_eq!(r[0].subtitle.as_deref(), Some("Open in browser"));
    assert_eq!(r[0].icon.as_deref(), Some("📺"));
    let a = &r[0].actions.as_ref().unwrap()[0];
    assert_eq!((a.id.as_str(), a.label.as_str(), a.shortcut.as_deref()), ("search", "Search", Some("Enter")));
}

#[test]
fn search_urls_are_percent_encoded() {
    let g = GooglePlugin.execute_action("rust lang & c++", "search").ok().unwrap();
    assert_eq!(g.url, "https://www.google.com/search?q=rust%20lang%20%26%20c%2B%2B");
    let y = YouTubePlugin.execute_action("é~_.-", "search").ok().unwrap();
    assert_eq!(y.url, "https://www.youtube.com/results?search_query=%C3%A9~_.-");
    assert_eq!(y.message, "Opened YouTube search");
}

#[test]
fn unknown_web_action() {
    assert_eq!(GooglePlugin.execute_action("x", "open").err(), Some("Unknown action".to_string()));
}

#[test]
fn config_paths() {
    let home = Some("/home/u".to_string());
    assert_eq!(get_config_dir(home.clone()), vec!["/home/u", ".config", "dossier"]);
    assert_eq!(get_plugins_dir(home.clone()), vec!["/home/u", ".config", "dossier", "plugins"]);
    assert_eq!(get_settings_path(None), vec![".", ".config", "dossier", "settings.json"]);
    assert_eq!(
        dynamic_plugins_dir(home),
        Some(vec!["/home/u".to_string(), ".config".into(), "command-bar".into(), "plugins".into(), ".build".into()])
    );
    assert_eq!(dynamic_plugins_dir(None), None);
}

#[test]
fn torrent_line_full() {
    let (title, subtitle) = parse_torrent_line("164/11 - Superman (2025) UHDR+DV cz en.mkv (TC, 5.8 GiB)");
    assert_eq!(title, "Superman (2025) UHDR+DV cz en.mkv");
    assert_eq!(subtitle, "Seeds: 164 • Peers: 11 • Size: 5.8 GiB");
}

#[test]
fn torrent_line_without_separator() {
    let (title, subtitle) = parse_torrent_line("just a name");
    assert_eq!(title, "just a name");
    assert_eq!(subtitle, "Seeds: Unknown • Peers: Unknown • Size: Unknown");
}

#[test]
fn torrent_line_partial_fields() {
    let (title, subtitle) = parse_torrent_line("12 - Plain title");
    assert_eq!(title, "Plain title");
    assert_eq!(subtitle, "Seeds: Unknown • Peers: Unknown • Size: Unknown");
    let (title, subtitle) = parse_torrent_line("3/4 - Name (no comma)");
    assert_eq!(title, "Name");
    assert_eq!(subtitle, "Seeds: 3 • Peers: 4 • Size: Unknown");
    let (title, subtitle) = parse_torrent_line("3/4 - Odd ) order (x, 1 GB");
    assert_eq!(title, "Odd ) order");
    assert_eq!(subtitle, "Seeds: 3 • Peers: 4 • Size: Unknown");
}

#[test]
fn torrent_output_pairs_names_with_links() {
    let out = "\n  164/11 - A (TC, 1 GiB)\r\nmagnet:?xt=a\nmagnet:?xt=orphan\n\n9/1 - B (x, 2 MiB)\n  magnet:?xt=b  \n";
    let r = parse_torrent_output(out);
    assert_eq!(r.len(), 2);
    assert_eq!(r[0].id, "magnet:?xt=a");
    assert_eq!(r[0].title, "A");
    assert_eq!(r[0].subtitle.as_deref(), Some("Seeds: 164 • Peers: 11 • Size: 1 GiB"));
    assert_eq!(r[0].icon.as_deref(), Some("🧲"));
    assert_eq!(r[0].actions.as_ref().unwrap()[0].id, "copy_magnet");
    assert_eq!(r[1].id, "magnet:?xt=b");
    assert_eq!(r[1].title, "B");
    assert!(parse_torrent_output("   \n\n").is_empty());
    assert!(parse_torrent_output("").is_empty());
}

#[test]
fn truncate_by_bytes() {
    assert_eq!(truncate("short", 50), "short");
    assert_eq!(truncate("abcdefghij", 8), "abcde...");
    assert_eq!(truncate("abcdef", 2), "...");
    assert_eq!(truncate("abcdefghij", 10), "abcdefghij");
    assert_eq!(truncate(&"é".repeat(30), 50), format!("{}...", "é".repeat(23)));
    assert_eq!(truncate("ééé", 6), "ééé");
    assert_eq!(truncate("ééé", 5), "é...");
    assert_eq!(truncate("aéé", 4), "a...");
    assert_eq!(truncate("aéé", 5), "aéé");
}

#[test]
fn format_help_names_the_query() {
    let html = generate_format_help("blurple");
    assert!(html.contains("❌ Invalid Color: \"blurple\"</h3>"));
    assert!(html.starts_with("<div style=\"padding: 16px;"));
    assert!(html.ends_with("</div></div>"));
}

#[test]
fn example_page_shows_six_swatches() {
    let html = generate_example_colors();
    assert_eq!(html.matches("title=\"Click to try ").count(), 6);
    assert!(html.contains("title=\"Click to try #3498DB\">#3498DB</div>"));
    assert!(html.contains("Supported Formats:"));
}

#[test]
fn emoji_grid_escapes_and_caps() {
    let list = vec![("😀".to_string(), "grin \"big\" it's".to_string())];
    let html = generate_emoji_grid(&list);
    assert!(html.contains("onclick=\"copyEmoji('😀')\" "));
    assert!(html.contains("title=\"grin &quot;big&quot; it&#39;s\""));
    assert!(html.ends_with("</script>"));
    let many: Vec<(String, String)> = (0..150).map(|i| (format!("e{}", i), format!("n{}", i))).collect();
    let html = generate_emoji_grid(&many);
    assert_eq!(html.matches("copyEmoji('e").count(), 100);
    assert!(html.contains("copyEmoji('e99')"));
    assert!(!html.contains("copyEmoji('e100')"));
}
