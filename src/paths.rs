//! Where the host keeps its files, as path components below the user's home
//! directory. The host joins the components into a platform path.

use vstd::prelude::*;

verus! {

/// The name of the directory that holds the host's configuration.
pub const APP_NAME: &'static str = "dossier";

fn text(s: &str) -> (r: String)
    ensures
        r@ == s@,
{
    String::from_str(s)
}

/// The path components of the configuration directory: `.config/dossier`
/// below `home`, or below the current directory where there is no home.
pub open spec fn config_dir_of(home: Option<String>) -> Seq<Seq<char>> {
    let base = match home {
        Some(h) => h@,
        None => "."@,
    };
    seq![base, ".config"@, "dossier"@]
}

/// The components of the configuration directory.
pub fn get_config_dir(home: Option<String>) -> (r: Vec<String>)
    ensures
        r@.map_values(|s: String| s@) == config_dir_of(home),
{
    let ghost h = home;
    let base = match home {
        Some(h) => h,
        None => text("."),
    };
    let mut r: Vec<String> = Vec::new();
    r.push(base);
    r.push(text(".config"));
    r.push(text(APP_NAME));
    proof {
        assert(r@.map_values(|s: String| s@) =~= config_dir_of(h));
    }
    r
}

/// The components of the directory that holds plugins:
/// `plugins` in the configuration directory.
pub fn get_plugins_dir(home: Option<String>) -> (r: Vec<String>)
    ensures
        r@.map_values(|s: String| s@) == config_dir_of(home).push("plugins"@),
{
    let mut r = get_config_dir(home);
    let ghost before = r@;
    r.push(text("plugins"));
    proof {
        assert(r@.map_values(|s: String| s@) =~= before.map_values(|s: String| s@).push("plugins"@));
    }
    r
}

/// The components of the settings file: `settings.json` in the
/// configuration directory.
pub fn get_settings_path(home: Option<String>) -> (r: Vec<String>)
    ensures
        r@.map_values(|s: String| s@) == config_dir_of(home).push("settings.json"@),
{
    let mut r = get_config_dir(home);
    let ghost before = r@;
    r.push(text("settings.json"));
    proof {
        assert(r@.map_values(|s: String| s@) =~= before.map_values(|s: String| s@).push(
            "settings.json"@,
        ));
    }
    r
}

/// The components of the directory scanned for plugin libraries:
/// `.config/command-bar/plugins/.build` below `home`. Without a home
/// directory there is none, and no scan.
pub fn dynamic_plugins_dir(home: Option<String>) -> (r: Option<Vec<String>>)
    ensures
        home is None ==> r is None,
        home matches Some(h) ==> (r matches Some(v) && v@.map_values(|s: String| s@) == seq![
            h@,
            ".config"@,
            "command-bar"@,
            "plugins"@,
            ".build"@,
        ]),
{
    match home {
        None => None,
        Some(h) => {
            let ghost hv = h@;
            let mut r: Vec<String> = Vec::new();
            r.push(h);
            r.push(text(".config"));
            r.push(text("command-bar"));
            r.push(text("plugins"));
            r.push(text(".build"));
            proof {
                assert(r@.map_values(|s: String| s@) =~= seq![
                    hv,
                    ".config"@,
                    "command-bar"@,
                    "plugins"@,
                    ".build"@,
                ]);
            }
            Some(r)
        },
    }
}

} // verus!
