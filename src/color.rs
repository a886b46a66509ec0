//! The color plugin's pages that show no color: the page of examples shown
//! for an empty query, and the help shown for text that is not a color.

use vstd::prelude::*;
use vstd::string::StringExecFns;

verus! {

/// The help page for `query`, which is not a color: the query is named and the
/// accepted formats are listed.
pub open spec fn format_help_page(query: Seq<char>) -> Seq<char> {
    "<div style=\"padding: 16px; font-family: 'Segoe UI', Tahoma, Geneva, Verdana, sans-serif; height: 200px; overflow: hidden;\">"@
        + "<h3 style=\"margin: 0 0 12px 0; color: #ff6b6b; font-size: 16px;\">❌ Invalid Color: \""@
        + query
        + "\"</h3>"@
        + "<div style=\"background: rgba(255,255,255,0.05); border-radius: 8px; padding: 12px; margin-bottom: 12px;\">"@
        + "<div style=\"color: white; font-size: 13px; font-weight: 600; margin-bottom: 8px;\">Valid Format Examples:</div>"@
        + "<div style=\"display: grid; grid-template-columns: 1fr 1fr; gap: 4px; font-family: 'Consolas', 'Monaco', monospace; font-size: 12px;\">"@
        + "<div style=\"color: #4CAF50;\">✓ #FF5733</div>"@
        + "<div style=\"color: #4CAF50;\">✓ #F53</div>"@
        + "<div style=\"color: #4CAF50;\">✓ rgb(255, 87, 51)</div>"@
        + "<div style=\"color: #4CAF50;\">✓ rgba(255, 87, 51, 0.8)</div>"@
        + "<div style=\"color: #4CAF50;\">✓ hsl(9, 100%, 60%)</div>"@
        + "<div style=\"color: #4CAF50;\">✓ hsla(9, 100%, 60%, 0.8)</div>"@
        + "</div>"@
        + "</div>"@
        + "<div style=\"background: rgba(255,193,7,0.1); border: 1px solid rgba(255,193,7,0.3); border-radius: 6px; padding: 10px;\">"@
        + "<div style=\"color: rgba(255,255,255,0.8); font-size: 12px;\">💡 Try entering a valid color format to see the conversion and preview</div>"@
        + "</div>"@
        + "</div>"@
}

/// The help page shown for a query that is not a color.
pub fn generate_format_help(query: &str) -> (r: String)
    ensures
        r@ == format_help_page(query@),
{
    let mut html = String::from_str("<div style=\"padding: 16px; font-family: 'Segoe UI', Tahoma, Geneva, Verdana, sans-serif; height: 200px; overflow: hidden;\">");
    html.append("<h3 style=\"margin: 0 0 12px 0; color: #ff6b6b; font-size: 16px;\">❌ Invalid Color: \"");
    html.append(query);
    html.append("\"</h3>");
    html.append("<div style=\"background: rgba(255,255,255,0.05); border-radius: 8px; padding: 12px; margin-bottom: 12px;\">");
    html.append("<div style=\"color: white; font-size: 13px; font-weight: 600; margin-bottom: 8px;\">Valid Format Examples:</div>");
    html.append("<div style=\"display: grid; grid-template-columns: 1fr 1fr; gap: 4px; font-family: 'Consolas', 'Monaco', monospace; font-size: 12px;\">");
    html.append("<div style=\"color: #4CAF50;\">✓ #FF5733</div>");
    html.append("<div style=\"color: #4CAF50;\">✓ #F53</div>");
    html.append("<div style=\"color: #4CAF50;\">✓ rgb(255, 87, 51)</div>");
    html.append("<div style=\"color: #4CAF50;\">✓ rgba(255, 87, 51, 0.8)</div>");
    html.append("<div style=\"color: #4CAF50;\">✓ hsl(9, 100%, 60%)</div>");
    html.append("<div style=\"color: #4CAF50;\">✓ hsla(9, 100%, 60%, 0.8)</div>");
    html.append("</div>");
    html.append("</div>");
    html.append("<div style=\"background: rgba(255,193,7,0.1); border: 1px solid rgba(255,193,7,0.3); border-radius: 6px; padding: 10px;\">");
    html.append("<div style=\"color: rgba(255,255,255,0.8); font-size: 12px;\">💡 Try entering a valid color format to see the conversion and preview</div>");
    html.append("</div>");
    html.append("</div>");
    html
}

/// The colors shown as examples on the empty page.
pub open spec fn example_codes() -> Seq<Seq<char>> {
    seq!["#FF5733"@, "#3498DB"@, "#2ECC71"@, "#F39C12"@, "#9B59B6"@, "#E74C3C"@]
}

/// One example swatch: it shows `code` in that color.
pub open spec fn example_tile(code: Seq<char>) -> Seq<char> {
    "<div style=\"background: "@
        + code
        + "; height: 40px; border-radius: 6px; cursor: pointer; display: flex; align-items: center; justify-content: center; color: white; font-weight: 600; font-size: 11px; text-shadow: 1px 1px 2px rgba(0,0,0,0.5); transition: transform 0.2s; border: 1px solid rgba(255,255,255,0.2);\" onmouseover=\"this.style.transform='scale(1.05)'\" onmouseout=\"this.style.transform='scale(1)'\" title=\"Click to try "@
        + code
        + "\">"@
        + code
        + "</div>"@
}

/// The swatches for `codes`, in order.
pub open spec fn example_tiles(codes: Seq<Seq<char>>) -> Seq<char>
    decreases codes.len(),
{
    if codes.len() == 0 {
        Seq::empty()
    } else {
        example_tiles(codes.drop_last()) + example_tile(codes.last())
    }
}

/// The page shown for an empty query: a title, a row of example swatches and
/// the accepted formats.
pub open spec fn example_colors_page() -> Seq<char> {
    "<div style=\"padding: 16px; font-family: 'Segoe UI', Tahoma, Geneva, Verdana, sans-serif; height: 200px; overflow: hidden;\">"@
        + "<h3 style=\"margin: 0 0 12px 0; color: white; font-size: 16px;\">🎨 Color Converter</h3>"@
        + "<p style=\"margin: 0 0 16px 0; color: rgba(255,255,255,0.7); font-size: 13px;\">Enter a color in any format to convert and preview it</p>"@
        + "<div style=\"display: grid; grid-template-columns: repeat(6, 1fr); gap: 8px; margin-bottom: 16px;\">"@ + example_tiles(example_codes()) + "</div>"@
        + "<div style=\"background: rgba(255,255,255,0.05); border-radius: 6px; padding: 12px;\">"@
        + "<div style=\"color: white; font-size: 12px; font-weight: 600; margin-bottom: 8px;\">Supported Formats:</div>"@
        + "<div style=\"display: grid; grid-template-columns: 1fr 1fr; gap: 4px; font-size: 11px; color: rgba(255,255,255,0.8);\">"@
        + "<div>• HEX: #FF5733, #RGB</div>"@
        + "<div>• RGB: rgb(255, 87, 51)</div>"@
        + "<div>• RGBA: rgba(255, 87, 51, 0.8)</div>"@
        + "<div>• HSL: hsl(9, 100%, 60%)</div>"@
        + "</div>"@
        + "</div>"@
        + "</div>"@
}

fn append_tile(html: &mut String, code: &str)
    ensures
        final(html)@ == old(html)@ + example_tile(code@),
{
    html.append("<div style=\"background: ");
    html.append(code);
    html.append("; height: 40px; border-radius: 6px; cursor: pointer; display: flex; align-items: center; justify-content: center; color: white; font-weight: 600; font-size: 11px; text-shadow: 1px 1px 2px rgba(0,0,0,0.5); transition: transform 0.2s; border: 1px solid rgba(255,255,255,0.2);\" onmouseover=\"this.style.transform='scale(1.05)'\" onmouseout=\"this.style.transform='scale(1)'\" title=\"Click to try ");
    html.append(code);
    html.append("\">");
    html.append(code);
    html.append("</div>");
}

/// The page of example colors.
pub fn generate_example_colors() -> (r: String)
    ensures
        r@ == example_colors_page(),
{
    let mut html = String::from_str("<div style=\"padding: 16px; font-family: 'Segoe UI', Tahoma, Geneva, Verdana, sans-serif; height: 200px; overflow: hidden;\">");
    html.append("<h3 style=\"margin: 0 0 12px 0; color: white; font-size: 16px;\">🎨 Color Converter</h3>");
    html.append("<p style=\"margin: 0 0 16px 0; color: rgba(255,255,255,0.7); font-size: 13px;\">Enter a color in any format to convert and preview it</p>");
    html.append("<div style=\"display: grid; grid-template-columns: repeat(6, 1fr); gap: 8px; margin-bottom: 16px;\">");
    let examples: [&str; 6] = ["#FF5733", "#3498DB", "#2ECC71", "#F39C12", "#9B59B6", "#E74C3C"];
    let ghost start = html@;
    let mut i: usize = 0;
    while i < 6
        invariant
            i <= 6,
            examples@.map_values(|c: &str| c@) == example_codes(),
            html@ == start + example_tiles(example_codes().subrange(0, i as int)),
        decreases 6 - i,
    {
        proof {
            assert(example_codes().subrange(0, i + 1).drop_last() =~= example_codes().subrange(0, i as int));
        }
        append_tile(&mut html, examples[i]);
        i = i + 1;
    }
    proof {
        assert(example_codes().subrange(0, 6) =~= example_codes());
    }
    html.append("</div>");
    html.append("<div style=\"background: rgba(255,255,255,0.05); border-radius: 6px; padding: 12px;\">");
    html.append("<div style=\"color: white; font-size: 12px; font-weight: 600; margin-bottom: 8px;\">Supported Formats:</div>");
    html.append("<div style=\"display: grid; grid-template-columns: 1fr 1fr; gap: 4px; font-size: 11px; color: rgba(255,255,255,0.8);\">");
    html.append("<div>• HEX: #FF5733, #RGB</div>");
    html.append("<div>• RGB: rgb(255, 87, 51)</div>");
    html.append("<div>• RGBA: rgba(255, 87, 51, 0.8)</div>");
    html.append("<div>• HSL: hsl(9, 100%, 60%)</div>");
    html.append("</div>");
    html.append("</div>");
    html.append("</div>");
    html
}

} // verus!

verus! {

/// The descriptor of the color plugin: id "color", prefix "color".
pub fn get_plugin_info() -> (r: crate::contract::Plugin)
    ensures
        r.id@ == "color"@,
        r.prefix@ == "color"@,
        r.name@ == "Color Converter"@,
        r.description@ == "Convert and preview colors in different formats"@,
        r.icon@ == "🎨"@,
{
    crate::web_search::descriptor(
        "color",
        "Color Converter",
        "Convert and preview colors in different formats",
        "color",
        "🎨",
    )
}

/// The page for `query`: the examples for an empty query, the page of the
/// color it names where it names one (`color_page`), and else the help.
pub fn search_plugin(query: &str, color_page: Option<String>) -> (r: crate::contract::PluginSearchResult)
    ensures
        query@.len() == 0 ==> (r matches crate::contract::PluginSearchResult::Html(h) && h.html@
            == example_colors_page()),
        query@.len() > 0 && color_page is Some ==> (r matches crate::contract::PluginSearchResult::Html(
            h,
        ) && h.html@ == color_page->0@),
        query@.len() > 0 && color_page is None ==> (r matches crate::contract::PluginSearchResult::Html(
            h,
        ) && h.html@ == format_help_page(query@)),
{
    let html = if query.unicode_len() == 0 {
        generate_example_colors()
    } else {
        match color_page {
            Some(page) => page,
            None => generate_format_help(query),
        }
    };
    crate::contract::PluginSearchResult::Html(crate::contract::PluginHtmlResult { html })
}

} // verus!
