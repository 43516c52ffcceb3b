//! The listings the `market` command prints: entry rows, list and search
//! reports, comments, notifications and the caller's own entries.
use vstd::prelude::*;
use crate::commands::market::{debug_option, entry_matches, market_entry_matches_query, take_chars, MarketEntrySummary};
use crate::text::join_strings;
use crate::num::{decimal, i64_to_string, u64_to_string};
use crate::text::{debug_text, join, quoted, to_lowercase, trim, trim_string, unicode_lower, views};

verus! {

/// The listing row of one entry: type, id, state and title.
pub open spec fn entry_row(e: MarketEntrySummary) -> Seq<char> {
    e.entry_type@ + "/"@ + e.id@ + " ["@ + e.state_code@ + "]  "@ + e.title@
}

/// The listing rows of some entries, in order.
pub open spec fn entry_rows(es: Seq<MarketEntrySummary>) -> Seq<Seq<char>> {
    es.map_values(|e: MarketEntrySummary| entry_row(e))
}

/// Formats the listing row of one entry.
pub fn market_entry_row(entry: &MarketEntrySummary) -> (r: String)
    ensures
        r@ == entry_row(*entry),
{
    let mut r = entry.entry_type.clone();
    r.append("/");
    r.append(entry.id.as_str());
    r.append(" [");
    r.append(entry.state_code.as_str());
    r.append("]  ");
    r.append(entry.title.as_str());
    r
}

/// Appends the listing rows of some entries.
fn push_entry_rows(lines: &mut Vec<String>, entries: &Vec<MarketEntrySummary>)
    ensures
        views(final(lines)@) == views(old(lines)@) + entry_rows(entries@),
{
    let ghost start = views(lines@);
    let mut i: usize = 0;
    while i < entries.len()
        invariant
            i <= entries.len(),
            views(lines@) =~= start + entry_rows(entries@.subrange(0, i as int)),
        decreases entries.len() - i,
    {
        let row = market_entry_row(&entries[i]);
        let ghost prev = views(lines@);
        lines.push(row);
        proof {
            assert(views(lines@) =~= prev.push(entry_row(entries@[i as int])));
            assert(entry_rows(entries@.subrange(0, i + 1)) =~= entry_rows(entries@.subrange(0, i as int)).push(entry_row(entries@[i as int])));
        }
        i = i + 1;
    }
    assert(entries@.subrange(0, entries.len() as int) =~= entries@);
}

/// The header of a ranked list page.
pub open spec fn list_header(generated_at: Option<Seq<char>>, sort: Seq<char>, page: int, total: int) -> Seq<char> {
    "generatedAt="@ + (match generated_at { Some(g) => g, None => Seq::empty() }) + "  sort="@ + sort + "  page="@
        + decimal(page) + "  total="@ + decimal(total)
}

/// The lines of a ranked list page: when it was generated, its sort, page
/// and total, then one row per entry.
pub fn market_list_lines(generated_at: Option<&str>, sort: &str, page: i32, total: i32, entries: &Vec<MarketEntrySummary>) -> (r: Vec<String>)
    ensures
        views(r@) == seq![list_header(match generated_at { Some(g) => Some(g@), None => None }, sort@, page as int, total as int)]
            + entry_rows(entries@),
{
    let mut h = String::from_str("generatedAt=");
    match generated_at {
        Some(g) => h.append(g),
        None => {},
    }
    h.append("  sort=");
    h.append(sort);
    h.append("  page=");
    h.append(i64_to_string(page as i64).as_str());
    h.append("  total=");
    h.append(i64_to_string(total as i64).as_str());
    let mut lines: Vec<String> = Vec::new();
    lines.push(h);
    push_entry_rows(&mut lines, entries);
    lines
}

/// The header of a filtered list page.
pub open spec fn filtered_header(sort: Seq<char>, page: int, total: int) -> Seq<char> {
    "sort="@ + sort + "  page="@ + decimal(page) + "  total="@ + decimal(total)
}

/// The lines of a list page filtered by type or category: its sort, page and
/// total, then one row per entry.
pub fn market_filtered_list_lines(sort: &str, page: i32, total: i32, entries: &Vec<MarketEntrySummary>) -> (r: Vec<String>)
    ensures
        views(r@) == seq![filtered_header(sort@, page as int, total as int)] + entry_rows(entries@),
{
    let mut h = String::from_str("sort=");
    h.append(sort);
    h.append("  page=");
    h.append(i64_to_string(page as i64).as_str());
    h.append("  total=");
    h.append(i64_to_string(total as i64).as_str());
    let mut lines: Vec<String> = Vec::new();
    lines.push(h);
    push_entry_rows(&mut lines, entries);
    lines
}

/// The form of a search query that entries are matched against: trimmed and
/// lowercased.
pub open spec fn search_query(query: Seq<char>) -> Seq<char> {
    unicode_lower(trim(query))
}

/// The entries that match a prepared query, in their order.
pub open spec fn search_matches(es: Seq<MarketEntrySummary>, q: Seq<char>) -> Seq<MarketEntrySummary> {
    es.filter(|e: MarketEntrySummary| entry_matches(e, q))
}

/// The header of a search report.
pub open spec fn search_header(q: Seq<char>, sort: Seq<char>, count: int) -> Seq<char> {
    "search query="@ + q + "  sort="@ + sort + "  count="@ + decimal(count)
}

/// The listing rows of the entries that match a prepared query, in order.
fn matching_rows(entries: &Vec<MarketEntrySummary>, q: &str) -> (r: Vec<String>)
    ensures
        views(r@) == entry_rows(search_matches(entries@, q@)),
{
    let mut r: Vec<String> = Vec::new();
    let mut i: usize = 0;
    while i < entries.len()
        invariant
            i <= entries.len(),
            views(r@) =~= entry_rows(search_matches(entries@.subrange(0, i as int), q@)),
        decreases entries.len() - i,
    {
        proof {
            reveal(Seq::filter);
            assert(entries@.subrange(0, i + 1).drop_last() =~= entries@.subrange(0, i as int));
            assert(entries@.subrange(0, i + 1).last() == entries@[i as int]);
        }
        let ghost prev = views(r@);
        let ghost before = search_matches(entries@.subrange(0, i as int), q@);
        if market_entry_matches_query(&entries[i], q) {
            let row = market_entry_row(&entries[i]);
            r.push(row);
            proof {
                assert(search_matches(entries@.subrange(0, i + 1), q@) == before.push(entries@[i as int]));
                assert(entry_rows(before.push(entries@[i as int])) =~= entry_rows(before).push(entry_row(entries@[i as int])));
                assert(views(r@) =~= prev.push(row@));
            }
        } else {
            assert(search_matches(entries@.subrange(0, i + 1), q@) == before);
        }
        i = i + 1;
    }
    assert(entries@.subrange(0, entries.len() as int) =~= entries@);
    r
}

/// The report of a search over all pages of a listing: the prepared query,
/// the sort and the number of matches, then one row per matching entry.
pub fn market_search_lines(entries: &Vec<MarketEntrySummary>, query: &str, sort: &str) -> (r: Vec<String>)
    ensures
        views(r@) == seq![search_header(search_query(query@), sort@, search_matches(entries@, search_query(query@)).len() as int)]
            + entry_rows(search_matches(entries@, search_query(query@))),
{
    let t = trim_string(query);
    let q = to_lowercase(t.as_str());
    let mut rows = matching_rows(entries, q.as_str());
    let mut h = String::from_str("search query=");
    h.append(q.as_str());
    h.append("  sort=");
    h.append(sort);
    h.append("  count=");
    h.append(u64_to_string(rows.len() as u64).as_str());
    let mut lines: Vec<String> = Vec::new();
    lines.push(h);
    lines.append(&mut rows);
    lines
}

/// One comment on an entry.
#[derive(Clone, Debug)]
pub struct MarketComment {
    pub id: String,
    pub body: String,
    pub author_login: String,
    pub created_at: String,
}

/// The first 120 characters of a text, or all of it.
pub open spec fn excerpt(s: Seq<char>) -> Seq<char> {
    if s.len() <= 120 { s } else { s.subrange(0, 120) }
}

/// The line of one comment: its id, the start of its body, its author and
/// when it was written.
pub open spec fn comment_line(c: MarketComment) -> Seq<char> {
    "#"@ + c.id@ + " "@ + excerpt(c.body@) + " by "@ + c.author_login@ + "  at "@ + c.created_at@
}

/// The header of a page of comments.
pub open spec fn comments_header(entry_id: Seq<char>, page: int, total: int) -> Seq<char> {
    "comments for "@ + entry_id + "  page="@ + decimal(page) + "  total="@ + decimal(total)
}

/// The lines of a page of comments on an entry: which entry, page and total,
/// then one line per comment.
pub fn market_comment_lines(entry_id: &str, page: i32, total: i32, comments: &Vec<MarketComment>) -> (r: Vec<String>)
    ensures
        views(r@) == seq![comments_header(entry_id@, page as int, total as int)]
            + comments@.map_values(|c: MarketComment| comment_line(c)),
{
    let mut h = String::from_str("comments for ");
    h.append(entry_id);
    h.append("  page=");
    h.append(i64_to_string(page as i64).as_str());
    h.append("  total=");
    h.append(i64_to_string(total as i64).as_str());
    let mut lines: Vec<String> = Vec::new();
    lines.push(h);
    let ghost start = views(lines@);
    let mut i: usize = 0;
    while i < comments.len()
        invariant
            i <= comments.len(),
            views(lines@) =~= start + comments@.subrange(0, i as int).map_values(|c: MarketComment| comment_line(c)),
        decreases comments.len() - i,
    {
        let c = &comments[i];
        let mut l = String::from_str("#");
        l.append(c.id.as_str());
        l.append(" ");
        l.append(take_chars(c.body.as_str(), 120).as_str());
        l.append(" by ");
        l.append(c.author_login.as_str());
        l.append("  at ");
        l.append(c.created_at.as_str());
        let ghost prev = views(lines@);
        lines.push(l);
        proof {
            assert(views(lines@) =~= prev.push(comment_line(comments@[i as int])));
            assert(comments@.subrange(0, i + 1).map_values(|c: MarketComment| comment_line(c))
                =~= comments@.subrange(0, i as int).map_values(|c: MarketComment| comment_line(c)).push(comment_line(comments@[i as int])));
        }
        i = i + 1;
    }
    assert(comments@.subrange(0, comments.len() as int) =~= comments@);
    lines
}

/// One notification for the signed-in account.
#[derive(Clone, Debug)]
pub struct MarketNotification {
    pub id: String,
    pub kind: String,
    pub entry_id: Option<String>,
    pub title: String,
    pub created_at: String,
}

/// The line of one notification.
pub open spec fn notification_line(n: MarketNotification) -> Seq<char> {
    n.id@ + " ["@ + n.kind@ + "] entry="@ + debug_option(crate::model::opt_view(n.entry_id)) + "  "@ + n.title@ + "  "@
        + n.created_at@
}

/// The lines listing notifications: how many, then one line each.
pub fn market_notification_lines(items: &Vec<MarketNotification>) -> (r: Vec<String>)
    ensures
        views(r@) == seq!["notifications: "@ + decimal(items@.len() as int)]
            + items@.map_values(|n: MarketNotification| notification_line(n)),
{
    let mut lines: Vec<String> = Vec::new();
    let mut h = String::from_str("notifications: ");
    h.append(u64_to_string(items.len() as u64).as_str());
    lines.push(h);
    let ghost start = views(lines@);
    let mut i: usize = 0;
    while i < items.len()
        invariant
            i <= items.len(),
            views(lines@) =~= start + items@.subrange(0, i as int).map_values(|n: MarketNotification| notification_line(n)),
        decreases items.len() - i,
    {
        let n = &items[i];
        let mut l = n.id.clone();
        l.append(" [");
        l.append(n.kind.as_str());
        l.append("] entry=");
        let ghost pre = l@;
        match &n.entry_id {
            Some(e) => {
                l.append("Some(");
                l.append(quoted(e.as_str()).as_str());
                l.append(")");
            },
            None => l.append("None"),
        }
        assert(l@ =~= pre + debug_option(crate::model::opt_view(n.entry_id)));
        l.append("  ");
        l.append(n.title.as_str());
        l.append("  ");
        l.append(n.created_at.as_str());
        let ghost prev = views(lines@);
        lines.push(l);
        proof {
            assert(views(lines@) =~= prev.push(notification_line(items@[i as int])));
            assert(items@.subrange(0, i + 1).map_values(|n: MarketNotification| notification_line(n))
                =~= items@.subrange(0, i as int).map_values(|n: MarketNotification| notification_line(n)).push(notification_line(items@[i as int])));
        }
        i = i + 1;
    }
    assert(items@.subrange(0, items.len() as int) =~= items@);
    lines
}

/// One entry of the signed-in account, with how the account relates to it.
#[derive(Clone, Debug)]
pub struct MarketMyEntry {
    pub id: String,
    pub entry_type: String,
    pub relation: String,
    pub state_code: String,
    pub reason_codes: Vec<String>,
    pub title: String,
}

/// A list of strings as `format!("{:?}", list)` writes it.
pub open spec fn debug_list(items: Seq<Seq<char>>) -> Seq<char> {
    "["@ + join(items.map_values(|s: Seq<char>| debug_text(s)), ", "@) + "]"@
}

/// Formats a list of strings as `format!("{:?}", list)` does.
fn debug_string_list(items: &Vec<String>) -> (r: String)
    ensures
        r@ == debug_list(views(items@)),
{
    let mut q: Vec<String> = Vec::new();
    let mut i: usize = 0;
    while i < items.len()
        invariant
            i <= items.len(),
            views(q@) =~= views(items@.subrange(0, i as int)).map_values(|s: Seq<char>| debug_text(s)),
        decreases items.len() - i,
    {
        let d = quoted(items[i].as_str());
        let ghost prev = views(q@);
        q.push(d);
        proof {
            assert(views(q@) =~= prev.push(debug_text(items@[i as int]@)));
            assert(views(items@.subrange(0, i + 1)) =~= views(items@.subrange(0, i as int)).push(items@[i as int]@));
        }
        i = i + 1;
    }
    assert(items@.subrange(0, items.len() as int) =~= items@);
    let mut r = String::from_str("[");
    r.append(join_strings(&q, ", ").as_str());
    r.append("]");
    r
}

/// The two lines of one of the account's entries.
pub open spec fn my_entry_lines(e: MarketMyEntry) -> Seq<Seq<char>> {
    seq![
        e.id@ + "  "@ + e.entry_type@ + "  "@ + e.relation@ + "  "@ + e.state_code@ + "  "@ + debug_list(views(e.reason_codes@)),
        "  title="@ + e.title@,
    ]
}

/// The lines of the account's own entries at some positions.
pub open spec fn my_entries_body(es: Seq<MarketMyEntry>) -> Seq<Seq<char>>
    decreases es.len(),
{
    if es.len() == 0 {
        Seq::empty()
    } else {
        my_entries_body(es.drop_last()) + my_entry_lines(es.last())
    }
}

/// The lines listing the account's own entries: how many, then two lines
/// each.
pub fn market_my_entry_lines(entries: &Vec<MarketMyEntry>) -> (r: Vec<String>)
    ensures
        views(r@) == seq!["my entries: "@ + decimal(entries@.len() as int)] + my_entries_body(entries@),
{
    let mut lines: Vec<String> = Vec::new();
    let mut h = String::from_str("my entries: ");
    h.append(u64_to_string(entries.len() as u64).as_str());
    lines.push(h);
    let ghost start = views(lines@);
    let mut i: usize = 0;
    while i < entries.len()
        invariant
            i <= entries.len(),
            views(lines@) =~= start + my_entries_body(entries@.subrange(0, i as int)),
        decreases entries.len() - i,
    {
        let e = &entries[i];
        let mut a = e.id.clone();
        a.append("  ");
        a.append(e.entry_type.as_str());
        a.append("  ");
        a.append(e.relation.as_str());
        a.append("  ");
        a.append(e.state_code.as_str());
        a.append("  ");
        a.append(debug_string_list(&e.reason_codes).as_str());
        let mut b = String::from_str("  title=");
        b.append(e.title.as_str());
        let ghost prev = views(lines@);
        lines.push(a);
        lines.push(b);
        proof {
            assert(views(lines@) =~= prev + my_entry_lines(entries@[i as int]));
            assert(entries@.subrange(0, i + 1).drop_last() =~= entries@.subrange(0, i as int));
        }
        i = i + 1;
    }
    assert(entries@.subrange(0, entries.len() as int) =~= entries@);
    lines
}

} // verus!
