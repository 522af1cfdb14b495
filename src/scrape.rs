//! The three stages of the pipeline: series search, episode listing and
//! video source resolution, each split into the URL that is requested and
//! the reading of the text that came back.
use vstd::prelude::*;
use vstd::string::*;

use crate::outside::{
    array_field_strs, array_strs, digit_runs_below, is_digit_byte, join_url, joined_url,
    json_valid, match_count, parse_json, parse_page, replace_path, select_attr, selected_attr,
    url_with_path, window_all_digits, DIGIT_RUN_LIMIT,
};
use crate::{
    opt_view, opt_views, str_views, GetEpisodesError, GetVideoError, SearchError,
    SearchResultEntry,
};

verus! {

/// The site's origin, against which every site path is resolved.
pub const ORIGIN: &'static str = "https://gogoanime.so";

/// The path under which a series page lives; a search result's address
/// starts with it.
pub const CATEGORY_PREFIX: &'static str = "/category/";

/// The search endpoint, to which the raw query is appended.
pub const SEARCH_PATH: &'static str = "/search.html&keyword=";

/// The image anchors of the search result list.
pub const SEARCH_SELECTOR: &'static str = ".last_episodes > ul > li .img a";

/// The active episode-range anchor of a series page.
pub const PAGER_SELECTOR: &'static str = "#episode_page a.active";

/// The input holding the series' internal numeric id.
pub const MOVIE_ID_SELECTOR: &'static str = "input#movie_id";

/// The secondary service that lists the episodes of a range.
pub const LIST_ENDPOINT: &'static str = "https://ajax.apimovie.xyz/ajax/load-list-episode";

/// The episode anchors of the secondary service's listing.
pub const EPISODE_SELECTOR: &'static str = "#episode_related > li > a";

/// The player iframe of an episode page.
pub const PLAYER_SELECTOR: &'static str = ".play-video > iframe";

/// The path of the source lookup, on the player's host.
pub const AJAX_PATH: &'static str = "/ajax.php";

// ---------------------------------------------------------------- common

/// `s` without the leading `p`, or `s` itself where it does not start with `p`.
pub open spec fn without_prefix(s: Seq<char>, p: Seq<char>) -> Seq<char> {
    if p.len() <= s.len() && s.subrange(0, p.len() as int) == p {
        s.subrange(p.len() as int, s.len() as int)
    } else {
        s
    }
}

/// The text of an optional string, the empty text where there is none.
pub open spec fn or_empty(o: Option<Seq<char>>) -> Seq<char> {
    match o {
        Some(s) => s,
        None => Seq::empty(),
    }
}

/// Whether every item is present.
pub open spec fn all_some(s: Seq<Option<Seq<char>>>) -> bool {
    forall|i: int| 0 <= i < s.len() ==> (#[trigger] s[i]) is Some
}

/// The items' texts.
pub open spec fn unwrap_all(s: Seq<Option<Seq<char>>>) -> Seq<Seq<char>> {
    s.map_values(|o: Option<Seq<char>>| or_empty(o))
}

/// The attribute `attr` of the first element that `sel` matches in `doc`,
/// if there is such an element and it has the attribute.
pub open spec fn first_attr(doc: Seq<char>, sel: Seq<char>, attr: Seq<char>) -> Option<Seq<char>> {
    let v = selected_attr(doc, sel, attr);
    if v.len() > 0 {
        v[0]
    } else {
        None
    }
}

/// `s` without the leading `p`, if it starts with it.
pub fn strip_prefix_of(s: &str, p: &str) -> (r: String)
    ensures
        r@ == without_prefix(s@, p@),
{
    let n = s.unicode_len();
    let m = p.unicode_len();
    if m > n {
        return s.to_owned();
    }
    let mut i: usize = 0;
    while i < m
        invariant
            m <= n,
            n == s@.len(),
            m == p@.len(),
            i <= m,
            forall|j: int| 0 <= j < i ==> s@[j] == p@[j],
        decreases m - i,
    {
        if s.get_char(i) != p.get_char(i) {
            assert(s@.subrange(0, m as int)[i as int] != p@[i as int]);
            return s.to_owned();
        }
        i = i + 1;
    }
    assert(s@.subrange(0, m as int) =~= p@);
    s.substring_char(m, n).to_owned()
}

/// The first item of a selection.
fn first_of(v: &Vec<Option<String>>) -> (r: Option<String>)
    ensures
        opt_view(r) == (if v@.len() > 0 {
            opt_view(v@[0])
        } else {
            None
        }),
{
    if v.len() == 0 {
        return None;
    }
    match &v[0] {
        Some(s) => Some(s.clone()),
        None => None,
    }
}

/// All items, if every one is present.
fn all_present(v: &Vec<Option<String>>) -> (r: Option<Vec<String>>)
    ensures
        match r {
            Some(w) => all_some(opt_views(v@)) && str_views(w@) == unwrap_all(opt_views(v@)),
            None => !all_some(opt_views(v@)),
        },
{
    let mut w: Vec<String> = Vec::new();
    let mut i: usize = 0;
    while i < v.len()
        invariant
            i <= v.len(),
            w@.len() == i,
            forall|j: int| 0 <= j < i ==> (#[trigger] v@[j]) is Some && w@[j]@ == or_empty(opt_view(v@[j])),
        decreases v.len() - i,
    {
        match &v[i] {
            Some(s) => {
                w.push(s.clone());
            },
            None => {
                assert(opt_views(v@)[i as int] is None);
                return None;
            },
        }
        i = i + 1;
    }
    assert(str_views(w@) =~= unwrap_all(opt_views(v@)));
    Some(w)
}

// ---------------------------------------------------------------- search

/// The search URL for `query`: the query appended, as it is, to the search path.
pub open spec fn search_url_spec(query: Seq<char>) -> Option<Seq<char>> {
    joined_url(ORIGIN@, SEARCH_PATH@ + query)
}

/// Addresses and titles read side by side, as far as both go.
pub open spec fn pair_nodes(hrefs: Seq<Option<Seq<char>>>, titles: Seq<Option<Seq<char>>>) -> Seq<
    (Option<Seq<char>>, Option<Seq<char>>),
> {
    let n = if hrefs.len() <= titles.len() {
        hrefs.len()
    } else {
        titles.len()
    };
    Seq::new(n, |i: int| (hrefs[i], titles[i]))
}

/// The result nodes of a search page: each one's address and title, if present.
pub open spec fn search_nodes(doc: Seq<char>) -> Seq<(Option<Seq<char>>, Option<Seq<char>>)> {
    pair_nodes(
        selected_attr(doc, SEARCH_SELECTOR@, "href"@),
        selected_attr(doc, SEARCH_SELECTOR@, "title"@),
    )
}

/// A result node that has both an address and a title.
pub open spec fn is_well_formed(n: (Option<Seq<char>>, Option<Seq<char>>)) -> bool {
    n.0 is Some && n.1 is Some
}

/// The (id, name) of a well-formed result node.
pub open spec fn entry_of(n: (Option<Seq<char>>, Option<Seq<char>>)) -> (Seq<char>, Seq<char>) {
    (without_prefix(or_empty(n.0), CATEGORY_PREFIX@), or_empty(n.1))
}

/// The entries that a search yields from its result nodes.
pub open spec fn entries_of(nodes: Seq<(Option<Seq<char>>, Option<Seq<char>>)>) -> Seq<
    (Seq<char>, Seq<char>),
>
    decreases nodes.len(),
{
    if nodes.len() == 0 {
        Seq::empty()
    } else {
        let rest = entries_of(nodes.drop_last());
        if is_well_formed(nodes.last()) {
            rest.push(entry_of(nodes.last()))
        } else {
            rest
        }
    }
}

/// The (id, name) texts of search entries.
pub open spec fn entries_view(r: Seq<SearchResultEntry>) -> Seq<(Seq<char>, Seq<char>)> {
    r.map_values(|e: SearchResultEntry| (e.id@, e.name@))
}

/// The URL of the search for `query`.
pub fn search_url(query: &str) -> (r: Result<String, SearchError>)
    ensures
        match search_url_spec(query@) {
            Some(u) => r matches Ok(x) && x@ == u,
            None => r matches Err(SearchError::CreateUrl),
        },
{
    let mut rel = SEARCH_PATH.to_owned();
    rel.append(query);
    match join_url(ORIGIN, rel.as_str()) {
        Some(u) => Ok(u),
        None => Err(SearchError::CreateUrl),
    }
}

/// The series listed on a search results page, in the order scraper selects
/// the result nodes; nodes without an address or a title are left out.
pub fn search_results(body: &str) -> (r: Vec<SearchResultEntry>)
    ensures
        entries_view(r@) == entries_of(search_nodes(body@)),
{
    let page = parse_page(body);
    let hrefs = select_attr(&page, SEARCH_SELECTOR, "href");
    let titles = select_attr(&page, SEARCH_SELECTOR, "title");
    search_entries(&hrefs, &titles)
}

/// The entries for result nodes whose addresses and titles are read side by
/// side: one for each node that has both, in their order.
pub fn search_entries(hrefs: &Vec<Option<String>>, titles: &Vec<Option<String>>) -> (r: Vec<
    SearchResultEntry,
>)
    ensures
        entries_view(r@) == entries_of(pair_nodes(opt_views(hrefs@), opt_views(titles@))),
{
    let ghost nodes = pair_nodes(opt_views(hrefs@), opt_views(titles@));
    let n: usize = if hrefs.len() <= titles.len() {
        hrefs.len()
    } else {
        titles.len()
    };
    let mut r: Vec<SearchResultEntry> = Vec::new();
    let mut i: usize = 0;
    while i < n
        invariant
            i <= n,
            n <= hrefs@.len(),
            n <= titles@.len(),
            nodes.len() == n,
            forall|j: int|
                0 <= j < nodes.len() ==> #[trigger] nodes[j] == (
                opt_view(hrefs@[j]),
                opt_view(titles@[j]),
            ),
            entries_view(r@) == entries_of(nodes.take(i as int)),
        decreases n - i,
    {
        assert(nodes.take(i as int + 1).drop_last() =~= nodes.take(i as int));
        assert(nodes.take(i as int + 1).last() == nodes[i as int]);
        match &hrefs[i] {
            Some(h) => match &titles[i] {
                Some(t) => {
                    let e = SearchResultEntry {
                        id: strip_prefix_of(h.as_str(), CATEGORY_PREFIX),
                        name: t.clone(),
                    };
                    let ghost before = r@;
                    r.push(e);
                    assert(entries_view(r@) =~= entries_view(before).push((e.id@, e.name@)));
                },
                None => {},
            },
            None => {},
        }
        i = i + 1;
    }
    assert(nodes.take(i as int) =~= nodes);
    r
}

/// A search keeps exactly the result nodes that carry both an address and a
/// title, in their order: with N such nodes among others, it yields N
/// entries, the k-th from the k-th well-formed node.
pub proof fn law_search_keeps_well_formed(nodes: Seq<(Option<Seq<char>>, Option<Seq<char>>)>)
    ensures
        entries_of(nodes) == nodes.filter(|n: (Option<Seq<char>>, Option<Seq<char>>)| is_well_formed(n)).map_values(
            |n: (Option<Seq<char>>, Option<Seq<char>>)| entry_of(n),
        ),
    decreases nodes.len(),
{
    reveal(Seq::filter);
    if nodes.len() > 0 {
        law_search_keeps_well_formed(nodes.drop_last());
        let f = nodes.drop_last().filter(|n: (Option<Seq<char>>, Option<Seq<char>>)| is_well_formed(n));
        assert(f.push(nodes.last()).map_values(|n: (Option<Seq<char>>, Option<Seq<char>>)| entry_of(n))
            =~= f.map_values(|n: (Option<Seq<char>>, Option<Seq<char>>)| entry_of(n)).push(entry_of(nodes.last())));
    }
}

/// Searching twice over the same results page yields the same entries in the
/// same order.
pub proof fn law_search_repeatable(first: Seq<char>, second: Seq<char>)
    requires
        first == second,
    ensures
        entries_of(search_nodes(first)) == entries_of(search_nodes(second)),
{
}

// ---------------------------------------------------------------- episodes

/// The URL of a series page.
pub open spec fn series_url_spec(series_id: Seq<char>) -> Option<Seq<char>> {
    joined_url(ORIGIN@, CATEGORY_PREFIX@ + series_id)
}

/// The listing URL of the secondary service for an episode range and a
/// series' internal id.
pub open spec fn list_url_spec(start: Seq<char>, end: Seq<char>, id: Seq<char>) -> Seq<char> {
    LIST_ENDPOINT@ + "?ep_start="@ + start + "&ep_end="@ + end + "&id="@ + id
}

/// The episode references of a listing: each anchor's address, the empty
/// text for an anchor without one.
pub open spec fn refs_of(doc: Seq<char>) -> Seq<Seq<char>> {
    selected_attr(doc, EPISODE_SELECTOR@, "href"@).map_values(|o: Option<Seq<char>>| or_empty(o))
}

/// The URL of the page of the series `series_id`.
pub fn series_url(series_id: &str) -> (r: Result<String, GetEpisodesError>)
    ensures
        match series_url_spec(series_id@) {
            Some(u) => r matches Ok(x) && x@ == u,
            None => r matches Err(GetEpisodesError::CreateUrl),
        },
{
    let mut rel = CATEGORY_PREFIX.to_owned();
    rel.append(series_id);
    match join_url(ORIGIN, rel.as_str()) {
        Some(u) => Ok(u),
        None => Err(GetEpisodesError::CreateUrl),
    }
}

/// Whether `s` is a number: one or more ASCII digits.
pub open spec fn is_number(s: Seq<char>) -> bool {
    s.len() > 0 && forall|k: int| 0 <= k < s.len() ==> '0' <= #[trigger] s[k] <= '9'
}

/// Whether `s` is one or more ASCII digits.
pub fn is_number_text(s: &str) -> (r: bool)
    ensures
        r == is_number(s@),
{
    let n = s.unicode_len();
    if n == 0 {
        return false;
    }
    let mut i: usize = 0;
    while i < n
        invariant
            n == s@.len(),
            i <= n,
            forall|k: int| 0 <= k < i ==> '0' <= #[trigger] s@[k] <= '9',
        decreases n - i,
    {
        let c = s.get_char(i);
        if !('0' <= c && c <= '9') {
            return false;
        }
        i = i + 1;
    }
    true
}

/// What the listing URL is for a pager range read as `start`, `end` and a
/// movie id `id`: both range ends present and numbers, then the id present.
pub open spec fn list_url_outcome(
    start: Option<Seq<char>>,
    end: Option<Seq<char>>,
    id: Option<Seq<char>>,
    r: Result<String, GetEpisodesError>,
) -> bool {
    match (start, end) {
        (Some(s), Some(e)) => if is_number(s) && is_number(e) {
            match id {
                Some(id) => r matches Ok(u) && u@ == list_url_spec(s, e, id),
                None => r matches Err(GetEpisodesError::NotFound(m)) && m@ == MOVIE_ID_SELECTOR@,
            }
        } else {
            r matches Err(GetEpisodesError::NotFound(m)) && m@ == PAGER_SELECTOR@
        },
        _ => r matches Err(GetEpisodesError::NotFound(m)) && m@ == PAGER_SELECTOR@,
    }
}

/// The listing URL read from a series page: the episode range of its active
/// pager anchor and the series' internal id. Fails with `NotFound`, naming
/// the selector, where the page lacks either or the range is not numeric.
pub fn episode_list_url(body: &str) -> (r: Result<String, GetEpisodesError>)
    ensures
        list_url_outcome(
            first_attr(body@, PAGER_SELECTOR@, "ep_start"@),
            first_attr(body@, PAGER_SELECTOR@, "ep_end"@),
            first_attr(body@, MOVIE_ID_SELECTOR@, "value"@),
            r,
        ),
{
    let page = parse_page(body);
    let start = first_of(&select_attr(&page, PAGER_SELECTOR, "ep_start"));
    let end = first_of(&select_attr(&page, PAGER_SELECTOR, "ep_end"));
    let id = first_of(&select_attr(&page, MOVIE_ID_SELECTOR, "value"));
    list_url_from(start, end, id)
}

/// The listing URL for a pager range read as `start` and `end` and a movie
/// id `id`, or `NotFound` naming what is missing or not numeric.
pub fn list_url_from(start: Option<String>, end: Option<String>, id: Option<String>) -> (r: Result<
    String,
    GetEpisodesError,
>)
    ensures
        list_url_outcome(opt_view(start), opt_view(end), opt_view(id), r),
{
    match (start, end) {
        (Some(s), Some(e)) => {
            if !(is_number_text(s.as_str()) && is_number_text(e.as_str())) {
                return Err(GetEpisodesError::NotFound(PAGER_SELECTOR.to_owned()));
            }
            match id {
                Some(id) => {
                    let mut u = LIST_ENDPOINT.to_owned();
                    u.append("?ep_start=");
                    u.append(s.as_str());
                    u.append("&ep_end=");
                    u.append(e.as_str());
                    u.append("&id=");
                    u.append(id.as_str());
                    Ok(u)
                },
                None => Err(GetEpisodesError::NotFound(MOVIE_ID_SELECTOR.to_owned())),
            }
        },
        _ => Err(GetEpisodesError::NotFound(PAGER_SELECTOR.to_owned())),
    }
}

/// The episode references of a listing, one per anchor and in the order
/// scraper selects them; an anchor without an address gives the empty text
/// at its place.
pub fn episode_refs(body: &str) -> (r: Vec<String>)
    ensures
        str_views(r@) == refs_of(body@),
        r@.len() == match_count(body@, EPISODE_SELECTOR@),
        forall|i: int|
            0 <= i < r@.len() && (#[trigger] selected_attr(body@, EPISODE_SELECTOR@, "href"@)[i])
                is None ==> r@[i]@.len() == 0,
{
    let page = parse_page(body);
    let hrefs = select_attr(&page, EPISODE_SELECTOR, "href");
    let r = refs_from(&hrefs);
    assert forall|i: int|
        0 <= i < r@.len() && (#[trigger] selected_attr(body@, EPISODE_SELECTOR@, "href"@)[i])
            is None implies r@[i]@.len() == 0 by {
        assert(opt_views(hrefs@)[i] == opt_view(hrefs@[i]));
    }
    r
}

/// One reference per anchor address, in order; the empty text for an
/// anchor without one.
pub fn refs_from(hrefs: &Vec<Option<String>>) -> (r: Vec<String>)
    ensures
        str_views(r@) == opt_views(hrefs@).map_values(|o: Option<Seq<char>>| or_empty(o)),
        r@.len() == hrefs@.len(),
        forall|i: int| 0 <= i < r@.len() && (#[trigger] hrefs@[i]) is None ==> r@[i]@.len() == 0,
{
    let mut r: Vec<String> = Vec::new();
    let mut i: usize = 0;
    while i < hrefs.len()
        invariant
            i <= hrefs@.len(),
            r@.len() == i,
            forall|j: int| 0 <= j < i ==> (#[trigger] r@[j])@ == or_empty(opt_view(hrefs@[j])),
        decreases hrefs@.len() - i,
    {
        match &hrefs[i] {
            Some(h) => r.push(h.clone()),
            None => r.push(String::new()),
        }
        i = i + 1;
    }
    assert(str_views(r@) =~= opt_views(hrefs@).map_values(|o: Option<Seq<char>>| or_empty(o)));
    r
}

// ---------------------------------------------------------------- video

/// The URL of the lookup of a player's sources: the player URL resolved
/// against the origin, its path replaced, its query kept.
pub open spec fn ajax_url_spec(src: Seq<char>) -> Option<Seq<char>> {
    match joined_url(ORIGIN@, src) {
        Some(u) => url_with_path(u, AJAX_PATH@),
        None => None,
    }
}

/// What resolving the sources yields from the parsed source entries:
/// nothing where the source list is missing, every address where each entry
/// has one, else `ParseJson`.
pub open spec fn files_outcome(
    entries: Option<Seq<Option<Seq<char>>>>,
    r: Result<Vec<String>, GetVideoError>,
) -> bool {
    match entries {
        None => r matches Ok(w) && w@.len() == 0,
        Some(s) => if all_some(s) {
            r matches Ok(w) && str_views(w@) == unwrap_all(s)
        } else {
            r matches Err(GetVideoError::ParseJson)
        },
    }
}

/// The URL of the page of episode `episode`.
pub fn episode_url(episode: &str) -> (r: Result<String, GetVideoError>)
    ensures
        match joined_url(ORIGIN@, episode@) {
            Some(u) => r matches Ok(x) && x@ == u,
            None => r matches Err(GetVideoError::CreateUrl),
        },
{
    match join_url(ORIGIN, episode) {
        Some(u) => Ok(u),
        None => Err(GetVideoError::CreateUrl),
    }
}

/// The player address of an episode page whose final URL is `page_url`:
/// the source of its first player iframe. Fails with `NotFound(page_url)`
/// where there is none.
pub fn iframe_source(body: &str, page_url: &str) -> (r: Result<String, GetVideoError>)
    ensures
        match first_attr(body@, PLAYER_SELECTOR@, "src"@) {
            Some(s) => r matches Ok(u) && u@ == s,
            None => r matches Err(GetVideoError::NotFound(m)) && m@ == page_url@,
        },
        match_count(body@, PLAYER_SELECTOR@) == 0 ==> (r matches Err(GetVideoError::NotFound(m))
            && m@ == page_url@),
{
    let page = parse_page(body);
    let srcs = select_attr(&page, PLAYER_SELECTOR, "src");
    match first_of(&srcs) {
        Some(s) => Ok(s),
        None => Err(GetVideoError::NotFound(page_url.to_owned())),
    }
}

/// The URL that looks up the sources of the player at `iframe_src`.
pub fn ajax_url(iframe_src: &str) -> (r: Result<String, GetVideoError>)
    ensures
        match ajax_url_spec(iframe_src@) {
            Some(u) => r matches Ok(x) && x@ == u,
            None => r matches Err(GetVideoError::CreateUrl),
        },
{
    match join_url(ORIGIN, iframe_src) {
        Some(player) => match replace_path(player.as_str(), AJAX_PATH) {
            Some(u) => Ok(u),
            None => Err(GetVideoError::CreateUrl),
        },
        None => Err(GetVideoError::CreateUrl),
    }
}

/// The source addresses from the parsed entries of a lookup's `source`
/// list (`None`: no such list).
pub fn files_of(entries: Option<Vec<Option<String>>>) -> (r: Result<Vec<String>, GetVideoError>)
    ensures
        files_outcome(
            match entries {
                Some(v) => Some(opt_views(v@)),
                None => None,
            },
            r,
        ),
{
    match entries {
        None => Ok(Vec::new()),
        Some(v) => match all_present(&v) {
            Some(w) => Ok(w),
            None => Err(GetVideoError::ParseJson),
        },
    }
}

/// Whether `text` holds no run of `DIGIT_RUN_LIMIT` consecutive ASCII digits.
pub fn digit_runs_short(text: &str) -> (r: bool)
    ensures
        r == digit_runs_below(text.spec_bytes(), DIGIT_RUN_LIMIT as int),
{
    let b = text.as_bytes();
    let mut run: usize = 0;
    let mut i: usize = 0;
    while i < b.len()
        invariant
            b@ == text.spec_bytes(),
            i <= b@.len(),
            run <= i,
            run < DIGIT_RUN_LIMIT,
            forall|k: int| i - run <= k < i ==> is_digit_byte(#[trigger] b@[k]),
            run < i ==> !is_digit_byte(b@[i - run - 1]),
            forall|p: int|
                0 <= p && p + DIGIT_RUN_LIMIT <= i ==> !#[trigger] window_all_digits(
                    b@,
                    p,
                    DIGIT_RUN_LIMIT as int,
                ),
        decreases b@.len() - i,
    {
        let c = b[i];
        let ghost prev = run;
        if 48 <= c && c <= 57 {
            run = run + 1;
            if run == DIGIT_RUN_LIMIT {
                assert(window_all_digits(b@, i + 1 - DIGIT_RUN_LIMIT, DIGIT_RUN_LIMIT as int));
                return false;
            }
        } else {
            run = 0;
        }
        proof {
            let p = i + 1 - DIGIT_RUN_LIMIT;
            if p >= 0 {
                if run == 0 {
                    assert(!is_digit_byte(b@[i as int]));
                } else {
                    assert(!is_digit_byte(b@[i - prev - 1]));
                }
                assert(!window_all_digits(b@, p, DIGIT_RUN_LIMIT as int));
            }
        }
        i = i + 1;
    }
    true
}

/// The source addresses listed by a lookup's JSON body. Fails with
/// `ParseJson` on malformed JSON, and on a body with a run of
/// `DIGIT_RUN_LIMIT` digits, which no source list holds and the JSON parser
/// cannot take; a missing or non-array `source` gives none.
pub fn source_files(body: &str) -> (r: Result<Vec<String>, GetVideoError>)
    ensures
        !json_valid(body@) ==> r matches Err(GetVideoError::ParseJson),
        !digit_runs_below(body.spec_bytes(), DIGIT_RUN_LIMIT as int) ==> r matches Err(
            GetVideoError::ParseJson,
        ),
        json_valid(body@) && digit_runs_below(body.spec_bytes(), DIGIT_RUN_LIMIT as int)
            ==> files_outcome(array_field_strs(body@, "source"@, "file"@), r),
{
    if !digit_runs_short(body) {
        return Err(GetVideoError::ParseJson);
    }
    match parse_json(body) {
        None => Err(GetVideoError::ParseJson),
        Some(doc) => files_of(array_strs(&doc, "source", "file")),
    }
}

/// The final URLs of the sources, in their order, from the outcome of
/// fetching each one (`None`: that fetch failed). One failure fails the
/// whole with `SendGetRequest`: no partial list is returned.
pub fn resolved_sources(fetched: Vec<Option<String>>) -> (r: Result<Vec<String>, GetVideoError>)
    ensures
        all_some(opt_views(fetched@)) ==> (r matches Ok(w) && str_views(w@) == unwrap_all(
            opt_views(fetched@),
        )),
        !all_some(opt_views(fetched@)) ==> r matches Err(GetVideoError::SendGetRequest),
{
    match all_present(&fetched) {
        Some(w) => Ok(w),
        None => Err(GetVideoError::SendGetRequest),
    }
}

} // verus!
