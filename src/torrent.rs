//! The torrent search plugin's reading of the search tool's output: a line
//! that names a torrent, followed by a line with its magnet link.

use crate::contract::{PluginAction, PluginResult};
use crate::text::{
    text_view,
    chars_of, find, find_chars, rfind, rfind_char, slice_of, starts_with, string_of, trim,
    trim_chars,
};
use vstd::prelude::*;
use vstd::string::StringExecFns;

verus! {

/// The size named at the end of a torrent line, as in `(TC, 5.8 GiB)`: the
/// text after the first comma inside the last parentheses, trimmed.
pub open spec fn size_of(rest: Seq<char>) -> Seq<char> {
    let open = rfind(rest, '(');
    let close = rfind(rest, ')');
    if open < 0 || close < open + 1 {
        "Unknown"@
    } else {
        let part = rest.subrange(open + 1, close);
        let comma = find(part, seq![',']);
        if comma < 0 {
            "Unknown"@
        } else {
            trim(part.subrange(comma + 1, part.len() as int))
        }
    }
}

/// The title and subtitle of a torrent line such as
/// `164/11 - Title (2025) (TC, 5.8 GiB)`: seeds and peers come before the
/// first " - ", the title is what follows up to the last parenthesis, and the
/// size is read from the last parentheses.
pub open spec fn torrent_line(line: Seq<char>) -> (Seq<char>, Seq<char>) {
    let k = find(line, " - "@);
    if k < 0 {
        (line, "Seeds: Unknown • Peers: Unknown • Size: Unknown"@)
    } else {
        let head = line.subrange(0, k);
        let rest = line.subrange(k + " - "@.len(), line.len() as int);
        let slash = find(head, seq!['/']);
        let seeds = if slash < 0 {
            "Unknown"@
        } else {
            head.subrange(0, slash)
        };
        let peers = if slash < 0 {
            "Unknown"@
        } else {
            head.subrange(slash + 1, head.len() as int)
        };
        let open = rfind(rest, '(');
        let title = if open < 0 {
            rest
        } else {
            trim(rest.subrange(0, open))
        };
        (title, "Seeds: "@ + seeds + " • Peers: "@ + peers + " • Size: "@ + size_of(rest))
    }
}

fn size_text(rest: &Vec<char>) -> (r: String)
    ensures
        r@ == size_of(rest@),
{
    let open = rfind_char(rest, '(');
    let close = rfind_char(rest, ')');
    match (open, close) {
        (Some(o), Some(c)) => {
            if c <= o {
                return String::from_str("Unknown");
            }
            proof {
                crate::text::rfind_bounds(rest@, ')');
            }
            let part = slice_of(rest, o + 1, c);
            let comma_pat = chars_of(",");
            proof {
                reveal_strlit(",");
                assert(comma_pat@ =~= seq![',']);
            }
            match find_chars(&part, &comma_pat) {
                None => String::from_str("Unknown"),
                Some(k) => {
                    let after = slice_of(&part, k + 1, part.len());
                    string_of(&trim_chars(&after))
                },
            }
        },
        _ => String::from_str("Unknown"),
    }
}

/// Reads one torrent line into a title and a subtitle.
pub fn parse_torrent_line(line: &str) -> (r: (String, String))
    ensures
        (r.0@, r.1@) == torrent_line(line@),
{
    let chars = chars_of(line);
    let sep = chars_of(" - ");
    let k = match find_chars(&chars, &sep) {
        None => {
            return (
                String::from_str(line),
                String::from_str("Seeds: Unknown • Peers: Unknown • Size: Unknown"),
            );
        },
        Some(k) => k,
    };
    let head = slice_of(&chars, 0, k);
    let n = chars.len();
    assert(k + sep@.len() <= n);
    let rest = slice_of(&chars, k + sep.len(), n);
    let slash_pat = chars_of("/");
    proof {
        reveal_strlit("/");
        assert(slash_pat@ =~= seq!['/']);
    }
    let (seeds, peers) = match find_chars(&head, &slash_pat) {
        None => (String::from_str("Unknown"), String::from_str("Unknown")),
        Some(s) => (string_of(&slice_of(&head, 0, s)), string_of(&slice_of(&head, s + 1, head.len()))),
    };
    let title = match rfind_char(&rest, '(') {
        None => string_of(&rest),
        Some(o) => {
            proof {
                crate::text::rfind_bounds(rest@, '(');
            }
            string_of(&trim_chars(&slice_of(&rest, 0, o)))
        },
    };
    let size = size_text(&rest);
    let subtitle = String::from_str("Seeds: ").concat(seeds.as_str()).concat(" • Peers: ").concat(
        peers.as_str(),
    ).concat(" • Size: ").concat(size.as_str());
    (title, subtitle)
}

} // verus!

verus! {

/// The state of a scan over the tool's output: the line read so far, the
/// torrent name waiting for its magnet link, and the (magnet, name) pairs found.
pub type ScanState = (Seq<char>, Option<Seq<char>>, Seq<(Seq<char>, Seq<char>)>);

/// Whether a trimmed line is a magnet link.
pub open spec fn is_magnet(t: Seq<char>) -> bool {
    "magnet:"@.len() <= t.len() && t.subrange(0, "magnet:"@.len() as int) == "magnet:"@
}

/// The state once the current line ends. Blank lines are skipped; a magnet
/// link pairs with the waiting name, if any; any other line becomes the
/// waiting name.
pub open spec fn end_line(st: ScanState) -> ScanState {
    let t = trim(st.0);
    if t.len() == 0 {
        (Seq::empty(), st.1, st.2)
    } else if is_magnet(t) {
        match st.1 {
            Some(n) => (Seq::empty(), None, st.2.push((t, n))),
            None => (Seq::empty(), None, st.2),
        }
    } else {
        (Seq::empty(), Some(t), st.2)
    }
}

/// The state after reading `s`.
pub open spec fn scan(s: Seq<char>) -> ScanState
    decreases s.len(),
{
    if s.len() == 0 {
        (Seq::empty(), None, Seq::empty())
    } else {
        let st = scan(s.drop_last());
        if s.last() == '\n' {
            end_line(st)
        } else {
            (st.0.push(s.last()), st.1, st.2)
        }
    }
}

/// The (magnet, name) pairs of the tool's whole output, in order.
pub open spec fn torrent_entries(output: Seq<char>) -> Seq<(Seq<char>, Seq<char>)> {
    end_line(scan(output)).2
}

/// The result for the torrent `name` with link `magnet`: the link is its id,
/// the line's title and subtitle are shown, and its one action copies the link.
pub open spec fn is_torrent_result(r: PluginResult, magnet: Seq<char>, name: Seq<char>) -> bool {
    &&& r.id@ == magnet
    &&& r.title@ == torrent_line(name).0
    &&& r.subtitle matches Some(s) && s@ == torrent_line(name).1
    &&& r.icon matches Some(i) && i@ == "🧲"@
    &&& r.actions matches Some(a) && a@.len() == 1 && a@[0].is("copy_magnet"@, "Copy Magnet"@, "Enter"@)
}

/// The results, one for each pair, in order.
pub open spec fn torrent_results(rs: Seq<PluginResult>, found: Seq<(Seq<char>, Seq<char>)>) -> bool {
    rs.len() == found.len() && forall|j: int|
        0 <= j < rs.len() ==> is_torrent_result(#[trigger] rs[j], found[j].0, found[j].1)
            && rs[j].well_formed()
}


fn torrent_result(magnet: String, name: &String) -> (r: PluginResult)
    ensures
        is_torrent_result(r, magnet@, name@),
{
    let (title, subtitle) = parse_torrent_line(name.as_str());
    let mut actions: Vec<PluginAction> = Vec::new();
    actions.push(
        PluginAction {
            id: String::from_str("copy_magnet"),
            label: String::from_str("Copy Magnet"),
            shortcut: Some(String::from_str("Enter")),
        },
    );
    PluginResult {
        id: magnet,
        title,
        subtitle: Some(subtitle),
        icon: Some(String::from_str("🧲")),
        actions: Some(actions),
    }
}

fn finish_line(
    line: &Vec<char>,
    magnet_pat: &Vec<char>,
    name: &mut Option<String>,
    results: &mut Vec<PluginResult>,
    found: Ghost<Seq<(Seq<char>, Seq<char>)>>,
) -> (next: Ghost<Seq<(Seq<char>, Seq<char>)>>)
    requires
        magnet_pat@ == "magnet:"@,
        torrent_results(old(results)@, found@),
    ensures
        end_line((line@, text_view(*old(name)), found@)) == (
            Seq::<char>::empty(),
            text_view(*final(name)),
            next@,
        ),
        torrent_results(final(results)@, next@),
{
    let t = trim_chars(line);
    if t.len() == 0 {
        return found;
    }
    if starts_with(&t, magnet_pat) {
        let waiting = name.take();
        match waiting {
            Some(n) => {
                let ghost pair = (t@, n@);
                results.push(torrent_result(string_of(&t), &n));
                let ghost next = found@.push(pair);
                assert(torrent_results(results@, next)) by {
                    assert forall|j: int| 0 <= j < results@.len() implies is_torrent_result(
                        #[trigger] results@[j],
                        next[j].0,
                        next[j].1,
                    ) by {
                        if j < found@.len() {
                            assert(results@[j] == old(results)@[j]);
                        }
                    };
                };
                Ghost(next)
            },
            None => found,
        }
    } else {
        *name = Some(string_of(&t));
        found
    }
}

/// Reads the search tool's output into results: each torrent line followed
/// by a magnet link gives one result, in the order of the output.
pub fn parse_torrent_output(output: &str) -> (r: Vec<PluginResult>)
    ensures
        torrent_results(r@, torrent_entries(output@)),
        forall|i: int| 0 <= i < r@.len() ==> (#[trigger] r@[i]).well_formed(),
{
    let chars = chars_of(output);
    let magnet_pat = chars_of("magnet:");
    let n = chars.len();
    let mut name: Option<String> = None;
    let mut results: Vec<PluginResult> = Vec::new();
    let mut found: Ghost<Seq<(Seq<char>, Seq<char>)>> = Ghost(Seq::empty());
    let mut start: usize = 0;
    let mut i: usize = 0;
    while i < n
        invariant
            n == chars@.len(),
            magnet_pat@ == "magnet:"@,
            start <= i <= n,
            scan(chars@.subrange(0, i as int)) == (
                chars@.subrange(start as int, i as int),
                text_view(name),
                found@,
            ),
            torrent_results(results@, found@),
        decreases n - i,
    {
        let ghost prev = chars@.subrange(0, i as int);
        assert(chars@.subrange(0, i + 1).drop_last() =~= prev);
        if chars[i] == '\n' {
            let line = slice_of(&chars, start, i);
            found = finish_line(&line, &magnet_pat, &mut name, &mut results, found);
            start = i + 1;
            assert(chars@.subrange(start as int, i + 1) =~= Seq::<char>::empty());
        } else {
            assert(chars@.subrange(start as int, i + 1) =~= chars@.subrange(
                start as int,
                i as int,
            ).push(chars@[i as int]));
        }
        i = i + 1;
    }
    let line = slice_of(&chars, start, n);
    found = finish_line(&line, &magnet_pat, &mut name, &mut results, found);
    assert(chars@.subrange(0, n as int) =~= output@);
    results
}

} // verus!

verus! {

/// The descriptor of the torrent plugin: id "torrent", prefix "torrent".
pub fn get_plugin_info() -> (r: crate::contract::Plugin)
    ensures
        r.id@ == "torrent"@,
        r.prefix@ == "torrent"@,
        r.name@ == "Torrent Search"@,
        r.description@ == "Search for torrents using Attractorr"@,
        r.icon@ == "🔍"@,
{
    crate::web_search::descriptor(
        "torrent",
        "Torrent Search",
        "Search for torrents using Attractorr",
        "torrent",
        "🔍",
    )
}

/// The outcome of a torrent search for `query`, given what the search tool
/// printed when it succeeded (`None` when it failed or could not run). An
/// empty query asks nothing of the tool and gives no results.
pub fn search_plugin(query: &str, output: Option<String>) -> (r: crate::contract::PluginSearchResult)
    ensures
        r.well_formed(),
        query@.len() == 0 ==> r.is_empty_list(),
        output is None ==> r.is_empty_list(),
        query@.len() > 0 && output is Some ==> (r matches crate::contract::PluginSearchResult::Results(
            v,
        ) && torrent_results(v@, torrent_entries(output->0@))),
{
    if query.unicode_len() == 0 {
        return crate::contract::PluginSearchResult::empty();
    }
    match output {
        None => crate::contract::PluginSearchResult::empty(),
        Some(text) => crate::contract::PluginSearchResult::Results(parse_torrent_output(text.as_str())),
    }
}

} // verus!
