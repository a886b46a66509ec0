//! The emoji plugin's grid page: one tile for each emoji, which copies it
//! when clicked.

use crate::contract::{PluginHtmlResult, PluginSearchResult};
use crate::text::{contains_text, escape_quotes, escaped, find, lower_of, lowercase};
use vstd::prelude::*;
use vstd::string::StringExecFns;

verus! {

/// The most tiles one grid shows.
pub const MAX_TILES: usize = 100;

/// The tile of one (emoji, name) pair: the emoji is shown, copied on click,
/// and named in the tile's tooltip.
pub open spec fn emoji_tile(e: (Seq<char>, Seq<char>)) -> Seq<char> {
    "<div "@
        + "onclick=\"copyEmoji('"@
        + escaped(e.0)
        + "')\" "@
        + "style=\""@
        + "display: flex; "@
        + "flex-direction: column; "@
        + "align-items: center; "@
        + "padding: 8px; "@
        + "border-radius: 8px; "@
        + "cursor: pointer; "@
        + "transition: background-color 0.2s; "@
        + "background: rgba(255,255,255,0.05);"@
        + "\" "@
        + "onmouseover=\"this.style.background='rgba(255,255,255,0.1)'\" "@
        + "onmouseout=\"this.style.background='rgba(255,255,255,0.05)'\" "@
        + "title=\""@
        + escaped(e.1)
        + "\""@
        + ">"@
        + "<span style=\"font-size: 24px; margin-bottom: 4px;\">"@
        + e.0
        + "</span>"@
        + "</div>\n"@
}

/// The tiles of a list of pairs, in order.
pub open spec fn emoji_tiles(es: Seq<(Seq<char>, Seq<char>)>) -> Seq<char>
    decreases es.len(),
{
    if es.len() == 0 {
        Seq::empty()
    } else {
        emoji_tiles(es.drop_last()) + emoji_tile(es.last())
    }
}

/// The text of each (emoji, name) pair.
pub open spec fn pair_views(es: Seq<(String, String)>) -> Seq<(Seq<char>, Seq<char>)> {
    es.map_values(|e: (String, String)| (e.0@, e.1@))
}

/// The pairs that a grid shows: the first `MAX_TILES`.
pub open spec fn shown(es: Seq<(Seq<char>, Seq<char>)>) -> Seq<(Seq<char>, Seq<char>)> {
    if es.len() <= MAX_TILES {
        es
    } else {
        es.subrange(0, MAX_TILES as int)
    }
}

/// The grid page for a list of (emoji, name) pairs.
pub open spec fn emoji_grid_page(es: Seq<(Seq<char>, Seq<char>)>) -> Seq<char> {
    "<div style=\""@
        + "display: grid; "@
        + "grid-template-columns: repeat(auto-fill, minmax(60px, 1fr)); "@
        + "gap: 8px; "@
        + "padding: 16px; "@
        + "max-height: 400px; "@
        + "overflow-y: auto;"@
        + "\">\n"@
        + emoji_tiles(shown(es))
        + "</div>\n"@
        + "<script>"@
        + "function copyEmoji(emoji) { "@
        + "navigator.clipboard.writeText(emoji).then(() => { "@
        + "console.log('Copied:', emoji); "@
        + "}); "@
        + "}"@
        + "</script>"@
}

fn append_tile(html: &mut String, emoji: &(String, String))
    ensures
        final(html)@ == old(html)@ + emoji_tile((emoji.0@, emoji.1@)),
{
    let safe_emoji = escape_quotes(emoji.0.as_str());
    let safe_name = escape_quotes(emoji.1.as_str());
    html.append("<div ");
    html.append("onclick=\"copyEmoji('");
    html.append(safe_emoji.as_str());
    html.append("')\" ");
    html.append("style=\"");
    html.append("display: flex; ");
    html.append("flex-direction: column; ");
    html.append("align-items: center; ");
    html.append("padding: 8px; ");
    html.append("border-radius: 8px; ");
    html.append("cursor: pointer; ");
    html.append("transition: background-color 0.2s; ");
    html.append("background: rgba(255,255,255,0.05);");
    html.append("\" ");
    html.append("onmouseover=\"this.style.background='rgba(255,255,255,0.1)'\" ");
    html.append("onmouseout=\"this.style.background='rgba(255,255,255,0.05)'\" ");
    html.append("title=\"");
    html.append(safe_name.as_str());
    html.append("\"");
    html.append(">");
    html.append("<span style=\"font-size: 24px; margin-bottom: 4px;\">");
    html.append(emoji.0.as_str());
    html.append("</span>");
    html.append("</div>\n");
}

/// The grid page for `emojis`: the first hundred are shown, in order.
pub fn generate_emoji_grid(emojis: &[(String, String)]) -> (r: String)
    ensures
        r@ == emoji_grid_page(pair_views(emojis@)),
{
    let mut html = String::from_str("<div style=\"");
    html.append("display: grid; ");
    html.append("grid-template-columns: repeat(auto-fill, minmax(60px, 1fr)); ");
    html.append("gap: 8px; ");
    html.append("padding: 16px; ");
    html.append("max-height: 400px; ");
    html.append("overflow-y: auto;");
    html.append("\">\n");
    let ghost start = html@;
    let ghost es = shown(pair_views(emojis@));
    let n: usize = if emojis.len() <= MAX_TILES {
        emojis.len()
    } else {
        MAX_TILES
    };
    let mut i: usize = 0;
    while i < n
        invariant
            n == es.len(),
            n <= emojis@.len(),
            i <= n,
            forall|j: int| 0 <= j < n ==> es[j] == (emojis@[j].0@, emojis@[j].1@),
            html@ == start + emoji_tiles(es.subrange(0, i as int)),
        decreases n - i,
    {
        proof {
            assert(es.subrange(0, i + 1).drop_last() =~= es.subrange(0, i as int));
        }
        append_tile(&mut html, &emojis[i]);
        i = i + 1;
    }
    proof {
        assert(es.subrange(0, n as int) =~= es);
    }
    html.append("</div>\n");
    html.append("<script>");
    html.append("function copyEmoji(emoji) { ");
    html.append("navigator.clipboard.writeText(emoji).then(() => { ");
    html.append("console.log('Copied:', emoji); ");
    html.append("}); ");
    html.append("}");
    html.append("</script>");
    html
}

} // verus!

verus! {

/// The descriptor of the emoji plugin: id "emojis", prefix "e".
pub fn get_plugin_info() -> (r: crate::contract::Plugin)
    ensures
        r.id@ == "emojis"@,
        r.prefix@ == "e"@,
        r.name@ == "Emojis"@,
        r.description@ == "Search for emojis by name or shortcode"@,
        r.icon@ == "😀"@,
{
    crate::web_search::descriptor("emojis", "Emojis", "Search for emojis by name or shortcode", "e", "😀")
}

/// One emoji of the database, with its name and short code.
pub struct EmojiRecord {
    pub emoji: String,
    pub name: String,
    pub slug: String,
}

/// The emojis shown for an empty query.
pub open spec fn popular_emojis() -> Seq<Seq<char>> {
    seq!["😀"@, "😂"@, "😍"@, "🥰"@, "😊"@, "😎"@, "🤔"@, "😢"@, "😡"@, "🤯"@, "👍"@, "👎"@, "❤️"@, "🔥"@, "💯"@, "🎉"@, "🚀"@, "⭐"@, "🌟"@, "💡"@]
}

/// The tiles of the empty query: each popular emoji, named as such.
pub open spec fn popular_pairs() -> Seq<(Seq<char>, Seq<char>)> {
    popular_emojis().map_values(|e: Seq<char>| (e, "Popular emoji: "@ + e))
}

/// The text a query is looked for in: name and short code, in lower case.
pub open spec fn search_text(e: EmojiRecord) -> Seq<char> {
    lower_of(e.name@ + " "@ + e.slug@)
}

/// The (emoji, name) pairs among the first `k` records whose text holds `q`.
pub open spec fn hits(db: Seq<EmojiRecord>, q: Seq<char>, k: int) -> Seq<(Seq<char>, Seq<char>)>
    decreases k,
{
    if k <= 0 {
        Seq::empty()
    } else if find(search_text(db[k - 1]), q) >= 0 {
        hits(db, q, k - 1).push((db[k - 1].emoji@, db[k - 1].name@))
    } else {
        hits(db, q, k - 1)
    }
}

/// The shortest query that is looked up: two characters.
pub const MIN_QUERY: usize = 2;

/// The outcome of an emoji search, in terms of the lower-case query `q`.
pub open spec fn emoji_outcome(db: Seq<EmojiRecord>, q: Seq<char>, r: PluginSearchResult) -> bool {
    if q.len() == 0 {
        r matches PluginSearchResult::Html(h) && h.html@ == emoji_grid_page(popular_pairs())
    } else if q.len() < MIN_QUERY {
        r.is_empty_list()
    } else if hits(db, q, db.len() as int).len() == 0 {
        r.is_empty_list()
    } else {
        r matches PluginSearchResult::Html(h) && h.html@ == emoji_grid_page(
            hits(db, q, db.len() as int),
        )
    }
}

fn popular_grid() -> (r: String)
    ensures
        r@ == emoji_grid_page(popular_pairs()),
{
    let popular: [&str; 20] = ["😀", "😂", "😍", "🥰", "😊", "😎", "🤔", "😢", "😡", "🤯", "👍", "👎", "❤️", "🔥", "💯", "🎉", "🚀", "⭐", "🌟", "💡"];
    let mut pairs: Vec<(String, String)> = Vec::new();
    let mut i: usize = 0;
    while i < 20
        invariant
            i <= 20,
            popular@.map_values(|e: &str| e@) == popular_emojis(),
            pair_views(pairs@) == popular_pairs().subrange(0, i as int),
        decreases 20 - i,
    {
        let e = popular[i];
        assert(popular_emojis()[i as int] == popular@.map_values(|e: &str| e@)[i as int]);
        let ghost prev = pair_views(pairs@);
        pairs.push((String::from_str(e), String::from_str("Popular emoji: ").concat(e)));
        assert(pair_views(pairs@) =~= prev.push(popular_pairs()[i as int]));
        i = i + 1;
        assert(pair_views(pairs@) =~= popular_pairs().subrange(0, i as int));
    }
    assert(popular_pairs().subrange(0, 20) =~= popular_pairs());
    generate_emoji_grid(pairs.as_slice())
}

/// Searches the emoji database for `query`, ignoring case. The empty query
/// shows the popular emojis; a one-character query finds nothing; otherwise
/// every emoji whose name and short code hold the query is shown, in
/// database order, and none found is an empty list.
pub fn search_plugin(query: &str, db: &Vec<EmojiRecord>) -> (r: PluginSearchResult)
    ensures
        emoji_outcome(db@, lower_of(query@), r),
{
    let q = lowercase(query);
    let n = q.as_str().unicode_len();
    if n == 0 {
        return PluginSearchResult::Html(PluginHtmlResult { html: popular_grid() });
    }
    if n < MIN_QUERY {
        return PluginSearchResult::empty();
    }
    let mut found: Vec<(String, String)> = Vec::new();
    let mut i: usize = 0;
    while i < db.len()
        invariant
            i <= db@.len(),
            q@ == lower_of(query@),
            pair_views(found@) == hits(db@, q@, i as int),
        decreases db@.len() - i,
    {
        let e = &db[i];
        let text = lowercase(e.name.clone().concat(" ").concat(e.slug.as_str()).as_str());
        if contains_text(text.as_str(), q.as_str()) {
            found.push((e.emoji.clone(), e.name.clone()));
            assert(pair_views(found@) =~= hits(db@, q@, i + 1));
        }
        i = i + 1;
    }
    if found.len() == 0 {
        return PluginSearchResult::empty();
    }
    PluginSearchResult::Html(PluginHtmlResult { html: generate_emoji_grid(found.as_slice()) })
}

} // verus!
