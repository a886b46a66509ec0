//! The clipboard plugin: the history of copied texts, how old an entry is
//! said to be, and how long texts are shortened. Reading and writing the
//! system clipboard, and the clock, are the host's part.

use crate::contract::{Plugin, PluginAction, PluginResult};
use crate::text::{
    answers, chars_of, decimal, decimal_text, matches_query, same_text, text_view, trim, trim_chars,
};
use crate::web_search::descriptor;
use vstd::prelude::*;
use vstd::string::{StringExecFns, StringSliceAdditionalSpecFns};
use vstd::utf8::{decode_utf8, encode_utf8, encode_utf8_decode_utf8, is_char_boundary};

verus! {

/// Where a text longer than `max_len` bytes is cut: three bytes before the
/// limit, to leave room for the ellipsis.
pub open spec fn cut_point(max_len: usize) -> int {
    if max_len >= 3 {
        max_len - 3
    } else {
        0
    }
}

/// The last position at or before `k` that falls between two characters of
/// `bytes`.
pub open spec fn boundary_before(bytes: Seq<u8>, k: int) -> int
    decreases k,
{
    if k <= 0 {
        0
    } else if is_char_boundary(bytes, k) {
        k
    } else {
        boundary_before(bytes, k - 1)
    }
}

/// `s` shortened to at most `max_len` bytes where it is longer: its longest
/// prefix of whole characters within `max_len - 3` bytes (none when
/// `max_len` is below 3), then "...".
pub fn truncate(s: &str, max_len: usize) -> (r: String)
    ensures
        s.spec_bytes().len() <= max_len ==> r@ == s@,
        s.spec_bytes().len() > max_len ==> r@ == decode_utf8(
            s.spec_bytes().subrange(0, boundary_before(s.spec_bytes(), cut_point(max_len))),
        ) + "..."@,
{
    if s.as_bytes().len() <= max_len {
        return String::from_str(s);
    }
    let cut = max_len.saturating_sub(3);
    let ghost bytes = s.spec_bytes();
    let mut k: usize = cut;
    while k > 0 && !s.is_char_boundary(k)
        invariant
            bytes == s.spec_bytes(),
            k <= cut,
            boundary_before(bytes, cut as int) == boundary_before(bytes, k as int),
        decreases k,
    {
        k = k - 1;
    }
    proof {
        broadcast use vstd::utf8::encode_utf8_valid_utf8;
        assert(is_char_boundary(bytes, k as int));
    }
    let (head, _) = s.split_at(k);
    proof {
        encode_utf8_decode_utf8(head@);
    }
    String::from_str(head).concat("...")
}

} // verus!

verus! {

/// The descriptor of the clipboard plugin: id "clipboard", prefix "c".
pub fn get_plugin_info() -> (r: Plugin)
    ensures
        r.id@ == "clipboard"@,
        r.prefix@ == "c"@,
        r.name@ == "Clipboard"@,
        r.description@ == "Manage clipboard history and operations"@,
        r.icon@ == "📋"@,
{
    descriptor("clipboard", "Clipboard", "Manage clipboard history and operations", "c", "📋")
}

/// How long ago something happened, `elapsed` seconds before now: "just
/// now" under a minute, then whole minutes, hours, or days.
pub open spec fn time_ago(elapsed: i64) -> Seq<char> {
    if elapsed < 60 {
        "just now"@
    } else if elapsed / 60 < 60 {
        decimal_text((elapsed / 60) as nat) + " min ago"@
    } else if elapsed / 3600 < 24 {
        decimal_text((elapsed / 3600) as nat) + " hr ago"@
    } else {
        decimal_text((elapsed / 86400) as nat) + " days ago"@
    }
}

/// A difference of two times, held to the range of `i64`.
pub open spec fn clamped(d: int) -> i64 {
    if d > i64::MAX {
        i64::MAX
    } else if d < i64::MIN {
        i64::MIN
    } else {
        d as i64
    }
}

/// The age of an entry copied at `timestamp`, at time `now`, both in
/// seconds.
pub fn format_time_ago(timestamp: i64, now: i64) -> (r: String)
    ensures
        r@ == time_ago(clamped(now - timestamp)),
{
    let elapsed = match now.checked_sub(timestamp) {
        Some(d) => d,
        None => if now > timestamp {
            i64::MAX
        } else {
            i64::MIN
        },
    };
    if elapsed < 60 {
        String::from_str("just now")
    } else if elapsed / 60 < 60 {
        decimal((elapsed / 60) as u64).concat(" min ago")
    } else if elapsed / 3600 < 24 {
        decimal((elapsed / 3600) as u64).concat(" hr ago")
    } else {
        decimal((elapsed / 86400) as u64).concat(" days ago")
    }
}

/// The most entries the history keeps.
pub const MAX_HISTORY: usize = 100;

/// One copied text and when it was copied, in seconds.
pub struct ClipboardEntry {
    pub content: String,
    pub timestamp: i64,
}

/// The history after `content` is copied at `now`: it comes first, unless it
/// already is the most recent entry, and the oldest entry leaves once there
/// are more than `MAX_HISTORY`.
pub open spec fn history_after(h: Seq<(Seq<char>, i64)>, content: Seq<char>, now: i64) -> Seq<
    (Seq<char>, i64),
> {
    if h.len() > 0 && h[0].0 == content {
        h
    } else {
        let grown = seq![(content, now)] + h;
        if grown.len() > MAX_HISTORY {
            grown.drop_last()
        } else {
            grown
        }
    }
}

/// The texts copied most recently, newest first.
pub struct ClipboardHistory {
    entries: Vec<ClipboardEntry>,
}

impl ClipboardHistory {
    /// The entries, newest first, as (text, time) pairs.
    pub closed spec fn view(&self) -> Seq<(Seq<char>, i64)> {
        self.entries@.map_values(|e: ClipboardEntry| (e.content@, e.timestamp))
    }

    /// An empty history.
    pub fn new() -> (r: Self)
        ensures
            r.view().len() == 0,
    {
        let r = ClipboardHistory { entries: Vec::new() };
        assert(r.view() =~= Seq::empty());
        r
    }

    /// The number of entries.
    pub fn len(&self) -> (r: usize)
        ensures
            r == self.view().len(),
    {
        self.entries.len()
    }

    /// The text and time of the entry at `i`, newest first.
    pub fn get(&self, i: usize) -> (r: (&str, i64))
        requires
            i < self.view().len(),
        ensures
            r.0@ == self.view()[i as int].0,
            r.1 == self.view()[i as int].1,
    {
        let e = &self.entries[i];
        (e.content.as_str(), e.timestamp)
    }

    /// Records that `content` was copied at `now`.
    pub fn add_to_history(&mut self, content: String, now: i64)
        requires
            old(self).view().len() <= MAX_HISTORY,
        ensures
            final(self).view() == history_after(old(self).view(), content@, now),
            final(self).view().len() <= MAX_HISTORY,
    {
        let ghost h = self.view();
        let ghost c = content@;
        if self.entries.len() > 0 && same_text(self.entries[0].content.as_str(), content.as_str()) {
            return;
        }
        self.entries.insert(0, ClipboardEntry { content, timestamp: now });
        assert(self.view() =~= seq![(c, now)] + h);
        if self.entries.len() > MAX_HISTORY {
            self.entries.pop();
            assert(self.view() =~= (seq![(c, now)] + h).drop_last());
        }
    }
}

} // verus!

verus! {

/// The longest title text, in bytes.
pub const TITLE_LEN: usize = 50;

/// The most results one search gives.
pub const MAX_RESULTS: usize = 20;

/// `s` as a title shows it: shortened to `TITLE_LEN` bytes as `truncate` does.
pub open spec fn shortened(s: Seq<char>) -> Seq<char> {
    if encode_utf8(s).len() <= TITLE_LEN {
        s
    } else {
        decode_utf8(
            encode_utf8(s).subrange(0, boundary_before(encode_utf8(s), cut_point(TITLE_LEN))),
        ) + "..."@
    }
}

/// One candidate result: whether it is the current clipboard, its text, and
/// when it was copied.
pub type Candidate = (bool, Seq<char>, i64);

/// Some candidate already has the text `t`.
pub open spec fn has_text(cs: Seq<Candidate>, t: Seq<char>) -> bool {
    exists|j: int| 0 <= j < cs.len() && cs[j].1 == t
}

/// The candidates from the current clipboard text and the first `k` history
/// entries: the current text if it answers the query, then each answering
/// history entry, newest first, whose text is not listed yet. Each text is
/// listed once.
pub open spec fn candidates(
    current: Option<Seq<char>>,
    h: Seq<(Seq<char>, i64)>,
    query: Seq<char>,
    k: int,
) -> Seq<Candidate>
    decreases k,
{
    if k <= 0 {
        match current {
            Some(c) => if answers(c, query) {
                seq![(true, c, 0i64)]
            } else {
                Seq::empty()
            },
            None => Seq::empty(),
        }
    } else {
        let prev = candidates(current, h, query, k - 1);
        let e = h[k - 1];
        if answers(e.0, query) && !has_text(prev, e.0) {
            prev.push((false, e.0, e.1))
        } else {
            prev
        }
    }
}

/// The history once the current clipboard text, where it is not blank, was
/// recorded.
pub open spec fn recorded(h: Seq<(Seq<char>, i64)>, current: Option<Seq<char>>, now: i64) -> Seq<
    (Seq<char>, i64),
> {
    match current {
        Some(c) => if trim(c).len() > 0 {
            history_after(h, c, now)
        } else {
            h
        },
        None => h,
    }
}

/// The result for a candidate: the current clipboard offers to copy or clear
/// it; a history entry offers to copy it again and says how old it is.
pub open spec fn is_clip_result(r: PluginResult, c: Candidate, now: i64) -> bool {
    &&& r.id@ == c.1
    &&& r.icon is None
    &&& if c.0 {
        &&& r.title@ == "📋 "@ + shortened(c.1)
        &&& r.subtitle matches Some(s) && s@ == "Current clipboard"@
        &&& r.actions matches Some(a) && a@.len() == 2 && a@[0].is("copy"@, "Copy"@, "Enter"@)
            && a@[1].is("clear"@, "Clear"@, "Ctrl+D"@)
    } else {
        &&& r.title@ == "🕒 "@ + shortened(c.1)
        &&& r.subtitle matches Some(s) && s@ == "Copied "@ + time_ago(clamped(now - c.2))
        &&& r.actions matches Some(a) && a@.len() == 1 && a@[0].is("copy"@, "Copy"@, "Enter"@)
    }
}

/// The results for the first `MAX_RESULTS` candidates, in order.
pub open spec fn clip_results(v: Seq<PluginResult>, cs: Seq<Candidate>, now: i64) -> bool {
    &&& v.len() == if cs.len() <= MAX_RESULTS {
        cs.len()
    } else {
        MAX_RESULTS as nat
    }
    &&& forall|j: int| 0 <= j < v.len() ==> is_clip_result(#[trigger] v[j], cs[j], now)
}

/// The candidates of a list never share a text.
pub proof fn candidates_distinct(
    current: Option<Seq<char>>,
    h: Seq<(Seq<char>, i64)>,
    query: Seq<char>,
    k: int,
)
    requires
        k <= h.len(),
    ensures
        forall|i: int, j: int|
            0 <= i < j < candidates(current, h, query, k).len() ==> candidates(
                current,
                h,
                query,
                k,
            )[i].1 != candidates(current, h, query, k)[j].1,
    decreases k,
{
    if k > 0 {
        candidates_distinct(current, h, query, k - 1);
        let prev = candidates(current, h, query, k - 1);
        let cs = candidates(current, h, query, k);
        assert forall|i: int, j: int| 0 <= i < j < cs.len() implies cs[i].1 != cs[j].1 by {
            if j == prev.len() {
                assert(cs[i] == prev[i]);
            } else {
                assert(cs[i] == prev[i] && cs[j] == prev[j]);
            }
        };
    }
}

/// The candidates from fewer history entries are a prefix of those from more.
proof fn lemma_candidates_prefix(
    current: Option<Seq<char>>,
    h: Seq<(Seq<char>, i64)>,
    query: Seq<char>,
    i: int,
    n: int,
)
    requires
        0 <= i <= n <= h.len(),
    ensures
        candidates(current, h, query, i).len() <= candidates(current, h, query, n).len(),
        forall|j: int|
            0 <= j < candidates(current, h, query, i).len() ==> #[trigger] candidates(
                current,
                h,
                query,
                n,
            )[j] == candidates(current, h, query, i)[j],
    decreases n - i,
{
    if i < n {
        lemma_candidates_prefix(current, h, query, i, n - 1);
    }
}

fn copy_action() -> (r: PluginAction)
    ensures
        r.is("copy"@, "Copy"@, "Enter"@),
{
    PluginAction {
        id: String::from_str("copy"),
        label: String::from_str("Copy"),
        shortcut: Some(String::from_str("Enter")),
    }
}

fn current_result(c: &str) -> (r: PluginResult)
    ensures
        is_clip_result(r, (true, c@, 0i64), 0),
{
    let mut actions: Vec<PluginAction> = Vec::new();
    actions.push(copy_action());
    actions.push(
        PluginAction {
            id: String::from_str("clear"),
            label: String::from_str("Clear"),
            shortcut: Some(String::from_str("Ctrl+D")),
        },
    );
    PluginResult {
        id: String::from_str(c),
        title: String::from_str("📋 ").concat(truncate(c, TITLE_LEN).as_str()),
        subtitle: Some(String::from_str("Current clipboard")),
        icon: None,
        actions: Some(actions),
    }
}

fn history_result(c: &str, timestamp: i64, now: i64) -> (r: PluginResult)
    ensures
        is_clip_result(r, (false, c@, timestamp), now),
{
    let mut actions: Vec<PluginAction> = Vec::new();
    actions.push(copy_action());
    PluginResult {
        id: String::from_str(c),
        title: String::from_str("🕒 ").concat(truncate(c, TITLE_LEN).as_str()),
        subtitle: Some(String::from_str("Copied ").concat(format_time_ago(timestamp, now).as_str())),
        icon: None,
        actions: Some(actions),
    }
}

/// Whether some result already has the id `t`.
fn listed(results: &Vec<PluginResult>, t: &str) -> (r: bool)
    ensures
        r == exists|j: int| 0 <= j < results@.len() && results@[j].id@ == t@,
{
    let mut j: usize = 0;
    while j < results.len()
        invariant
            j <= results@.len(),
            forall|l: int| 0 <= l < j ==> results@[l].id@ != t@,
        decreases results@.len() - j,
    {
        if same_text(results[j].id.as_str(), t) {
            return true;
        }
        j = j + 1;
    }
    false
}

/// Searches the clipboard for `query` at time `now`, given the text now on the
/// clipboard, if any. A text that is not blank is first recorded in the
/// history. The results are the current text, then the history, newest
/// first, each where it answers the query and its text is not listed yet, at
/// most `MAX_RESULTS`; no two results share an id.
pub fn search_plugin(
    query: &str,
    current: Option<String>,
    history: &mut ClipboardHistory,
    now: i64,
) -> (r: Vec<PluginResult>)
    requires
        old(history).view().len() <= MAX_HISTORY,
    ensures
        final(history).view() == recorded(old(history).view(), text_view(current), now),
        final(history).view().len() <= MAX_HISTORY,
        clip_results(
            r@,
            candidates(
                text_view(current),
                final(history).view(),
                query@,
                final(history).view().len() as int,
            ),
            now,
        ),
        forall|i: int, j: int| 0 <= i < j < r@.len() ==> r@[i].id@ != r@[j].id@,
{
    if let Some(c) = &current {
        let chars = chars_of(c.as_str());
        if trim_chars(&chars).len() > 0 {
            history.add_to_history(c.clone(), now);
        }
    }
    let ghost cur = text_view(current);
    let ghost h = history.view();
    let mut results: Vec<PluginResult> = Vec::new();
    if let Some(c) = &current {
        if matches_query(c.as_str(), query) {
            results.push(current_result(c.as_str()));
        }
    }
    let mut i: usize = 0;
    while i < history.len() && results.len() < MAX_RESULTS
        invariant
            h == history.view(),
            h == recorded(old(history).view(), text_view(current), now),
            h.len() <= MAX_HISTORY,
            cur == text_view(current),
            i <= h.len(),
            results@.len() == candidates(cur, h, query@, i as int).len(),
            results@.len() <= MAX_RESULTS,
            forall|j: int|
                0 <= j < results@.len() ==> is_clip_result(
                    #[trigger] results@[j],
                    candidates(cur, h, query@, i as int)[j],
                    now,
                ),
        decreases h.len() - i,
    {
        let (content, timestamp) = history.get(i);
        let ghost prev = candidates(cur, h, query@, i as int);
        if matches_query(content, query) && !listed(&results, content) {
            assert(!has_text(prev, content@)) by {
                if has_text(prev, content@) {
                    let j = choose|j: int| 0 <= j < prev.len() && prev[j].1 == content@;
                    assert(results@[j].id@ == content@);
                }
            };
            results.push(history_result(content, timestamp, now));
        } else if matches_query(content, query) {
            assert(has_text(prev, content@)) by {
                let j = choose|j: int| 0 <= j < results@.len() && results@[j].id@ == content@;
                assert(prev[j].1 == content@);
            };
        }
        i = i + 1;
    }
    proof {
        let n = h.len() as int;
        lemma_candidates_prefix(cur, h, query@, i as int, n);
        candidates_distinct(cur, h, query@, i as int);
        let cs = candidates(cur, h, query@, i as int);
        assert forall|a: int, b: int| 0 <= a < b < results@.len() implies results@[a].id@
            != results@[b].id@ by {
            assert(results@[a].id@ == cs[a].1);
            assert(results@[b].id@ == cs[b].1);
        };
    }
    results
}

} // verus!
