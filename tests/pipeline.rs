use gogoanime::scrape::{
    ajax_url, digit_runs_short, episode_list_url, episode_refs, episode_url, files_of,
    iframe_source, is_number_text, list_url_from, refs_from, resolved_sources, search_entries,
    search_results, search_url, series_url, source_files, strip_prefix_of,
};
use gogoanime::{GetEpisodesError, GetVideoError};

const SEARCH_PAGE: &str = r#"<html><body><div class="last_episodes"><ul>
<li><p class="img"><a href="/category/one-piece" title="One Piece"><img></a></p></li>
<li><p class="img"><a href="/category/one-piece-film"><img></a></p></li>
</ul></div></body></html>"#;

fn ids_and_names(body: &str) -> Vec<(String, String)> {
    search_results(body)
        .into_iter()
        .map(|e| (e.id, e.name))
        .collect()
}

#[test]
fn search_keeps_only_complete_nodes() {
    let r = ids_and_names(SEARCH_PAGE);
    assert_eq!(r, vec![("one-piece".to_string(), "One Piece".to_string())]);
}

#[test]
fn search_counts_well_formed_nodes_in_order() {
    let body = r#"<div class="last_episodes"><ul>
<li><div class="img"><a href="/category/a" title="A"></a></div></li>
<li><div class="img"><a title="no address"></a></div></li>
<li><div class="img"><a href="/category/b" title="B"></a></div></li>
<li><div class="img"><a href="/category/c"></a></div></li>
<li><div class="img"><a href="/category/d" title="D"></a></div></li>
</ul></div>"#;
    let r = ids_and_names(body);
    let ids: Vec<&str> = r.iter().map(|p| p.0.as_str()).collect();
    assert_eq!(ids, vec!["a", "b", "d"]);
    assert_eq!(r[2].1, "D");
}

#[test]
fn search_ignores_nodes_outside_the_result_list() {
    let body = r#"<div class="other"><ul><li><p class="img"><a href="/category/x" title="X"></a></p></li></ul></div>"#;
    assert!(search_results(body).is_empty());
    assert!(search_results("").is_empty());
}

#[test]
fn search_is_repeatable() {
    assert_eq!(ids_and_names(SEARCH_PAGE), ids_and_names(SEARCH_PAGE));
}

#[test]
fn search_url_embeds_the_query() {
    assert_eq!(
        search_url("naruto").unwrap(),
        "https://gogoanime.so/search.html&keyword=naruto"
    );
}

#[test]
fn strip_prefix_only_at_the_start() {
    assert_eq!(strip_prefix_of("/category/naruto", "/category/"), "naruto");
    assert_eq!(strip_prefix_of("naruto/category/", "/category/"), "naruto/category/");
    assert_eq!(strip_prefix_of("/cat", "/category/"), "/cat");
    assert_eq!(strip_prefix_of("/category/", "/category/"), "");
}

#[test]
fn series_url_is_under_category() {
    assert_eq!(
        series_url("one-piece").unwrap(),
        "https://gogoanime.so/category/one-piece"
    );
}

const SERIES_PAGE: &str = r#"<html><body>
<ul id="episode_page"><li><a href="/p" ep_start="0" ep_end="12">0-12</a></li>
<li><a href="/p" class="active" ep_start="12" ep_end="24">13-24</a></li></ul>
<input type="hidden" id="movie_id" value="133">
</body></html>"#;

#[test]
fn list_url_from_active_pager_and_movie_id() {
    assert_eq!(
        episode_list_url(SERIES_PAGE).unwrap(),
        "https://ajax.apimovie.xyz/ajax/load-list-episode?ep_start=12&ep_end=24&id=133"
    );
}

#[test]
fn list_url_without_pager() {
    let body = r#"<input id="movie_id" value="133">"#;
    match episode_list_url(body) {
        Err(GetEpisodesError::NotFound(m)) => assert_eq!(m, "#episode_page a.active"),
        other => panic!("unexpected {:?}", other),
    }
}

#[test]
fn list_url_without_movie_id() {
    let body = r#"<ul id="episode_page"><li><a class="active" ep_start="0" ep_end="5"></a></li></ul>"#;
    match episode_list_url(body) {
        Err(GetEpisodesError::NotFound(m)) => assert_eq!(m, "input#movie_id"),
        other => panic!("unexpected {:?}", other),
    }
}

#[test]
fn episode_refs_keep_positions() {
    let body = r#"<ul id="episode_related">
<li><a href=" /naruto-episode-3"></a></li>
<li><a></a></li>
<li><a href=" /naruto-episode-1"></a></li>
</ul>"#;
    assert_eq!(
        episode_refs(body),
        vec![" /naruto-episode-3".to_string(), String::new(), " /naruto-episode-1".to_string()]
    );
    assert!(episode_refs("<p>nothing</p>").is_empty());
}

#[test]
fn episode_url_joins_the_reference() {
    assert_eq!(
        episode_url("/naruto-episode-1").unwrap(),
        "https://gogoanime.so/naruto-episode-1"
    );
    assert!(matches!(episode_url("http://[::1"), Err(GetVideoError::CreateUrl)));
}

#[test]
fn iframe_missing_gives_not_found_with_page_url() {
    let body = r#"<div class="play-video"><p>no player</p></div>"#;
    match iframe_source(body, "https://gogoanime.so/redirected") {
        Err(GetVideoError::NotFound(u)) => assert_eq!(u, "https://gogoanime.so/redirected"),
        other => panic!("unexpected {:?}", other),
    }
}

#[test]
fn iframe_source_and_ajax_url() {
    let body = r#"<div class="play-video"><iframe src="/embed/abc?id=123"></iframe></div>"#;
    let src = iframe_source(body, "https://gogoanime.so/ep").unwrap();
    assert_eq!(src, "/embed/abc?id=123");
    assert_eq!(ajax_url(&src).unwrap(), "https://gogoanime.so/ajax.php?id=123");
}

#[test]
fn ajax_url_keeps_the_player_host_and_query() {
    assert_eq!(
        ajax_url("//player.example/streaming.php?id=MTU&title=x").unwrap(),
        "https://player.example/ajax.php?id=MTU&title=x"
    );
    assert!(matches!(ajax_url("http://[::1"), Err(GetVideoError::CreateUrl)));
}

#[test]
fn source_files_in_order() {
    let body = r#"{"source":[{"file":"https://cdn.example/a.mp4"},{"file":"https://cdn.example/b.mp4"}]}"#;
    assert_eq!(
        source_files(body).unwrap(),
        vec!["https://cdn.example/a.mp4".to_string(), "https://cdn.example/b.mp4".to_string()]
    );
}

#[test]
fn source_files_invalid_json() {
    assert!(matches!(source_files("{\"source\": ["), Err(GetVideoError::ParseJson)));
}

#[test]
fn source_files_absent_or_not_array() {
    assert!(source_files("{}").unwrap().is_empty());
    assert!(source_files(r#"{"source":"x"}"#).unwrap().is_empty());
    assert!(source_files("[1,2]").unwrap().is_empty());
}

#[test]
fn source_files_entry_without_file() {
    assert!(matches!(
        source_files(r#"{"source":[{"file":"a"},{"label":"hd"}]}"#),
        Err(GetVideoError::ParseJson)
    ));
}

#[test]
fn files_of_outcomes() {
    assert!(files_of(None).unwrap().is_empty());
    assert_eq!(files_of(Some(vec![Some("a".to_string())])).unwrap(), vec!["a".to_string()]);
    assert!(matches!(files_of(Some(vec![None])), Err(GetVideoError::ParseJson)));
}

#[test]
fn resolved_sources_all_or_nothing() {
    let ok = resolved_sources(vec![
        Some("https://cdn.example/a-signed.mp4".to_string()),
        Some("https://cdn.example/b-signed.mp4".to_string()),
    ]);
    assert_eq!(
        ok.unwrap(),
        vec!["https://cdn.example/a-signed.mp4".to_string(), "https://cdn.example/b-signed.mp4".to_string()]
    );
    let failed = resolved_sources(vec![Some("a".to_string()), None, Some("c".to_string())]);
    assert!(matches!(failed, Err(GetVideoError::SendGetRequest)));
    assert!(resolved_sources(Vec::new()).unwrap().is_empty());
}

#[test]
fn episode_resolution_end_to_end() {
    let page = r#"<html><body><div class="play-video"><iframe src="/embed/abc?id=123" allowfullscreen></iframe></div></body></html>"#;
    let src = iframe_source(page, "https://gogoanime.so/one-piece-episode-1").unwrap();
    let lookup = ajax_url(&src).unwrap();
    assert_eq!(lookup, "https://gogoanime.so/ajax.php?id=123");
    let body = r#"{"source":[{"file":"https://cdn.example/a.mp4"},{"file":"https://cdn.example/b.mp4"}]}"#;
    let files = source_files(body).unwrap();
    assert_eq!(files.len(), 2);
    // each address stands for the URL its request was redirected to
    let fetched = files
        .iter()
        .map(|f| Some(format!("{}?token=signed", f)))
        .collect::<Vec<_>>();
    assert_eq!(
        resolved_sources(fetched).unwrap(),
        vec![
            "https://cdn.example/a.mp4?token=signed".to_string(),
            "https://cdn.example/b.mp4?token=signed".to_string()
        ]
    );
}

fn some(s: &str) -> Option<String> {
    Some(s.to_string())
}

#[test]
fn list_url_rejects_non_numeric_range() {
    let body = r#"<ul id="episode_page"><li><a class="active" ep_start="x" ep_end="5"></a></li></ul>
<input id="movie_id" value="133">"#;
    match episode_list_url(body) {
        Err(GetEpisodesError::NotFound(m)) => assert_eq!(m, "#episode_page a.active"),
        other => panic!("unexpected {:?}", other),
    }
    assert!(matches!(list_url_from(some(""), some("5"), some("1")), Err(GetEpisodesError::NotFound(_))));
    assert!(matches!(list_url_from(some("0"), some("5a"), some("1")), Err(GetEpisodesError::NotFound(_))));
    assert!(matches!(list_url_from(some("0"), None, some("1")), Err(GetEpisodesError::NotFound(_))));
}

#[test]
fn list_url_from_values() {
    assert_eq!(
        list_url_from(some("0"), some("100"), some("7")).unwrap(),
        "https://ajax.apimovie.xyz/ajax/load-list-episode?ep_start=0&ep_end=100&id=7"
    );
    match list_url_from(some("0"), some("100"), None) {
        Err(GetEpisodesError::NotFound(m)) => assert_eq!(m, "input#movie_id"),
        other => panic!("unexpected {:?}", other),
    }
}

#[test]
fn number_text() {
    assert!(is_number_text("0"));
    assert!(is_number_text("1024"));
    assert!(!is_number_text(""));
    assert!(!is_number_text("-1"));
    assert!(!is_number_text("1.5"));
}

#[test]
fn refs_from_addresses() {
    assert_eq!(
        refs_from(&vec![some("/a"), None, some("/c")]),
        vec!["/a".to_string(), String::new(), "/c".to_string()]
    );
}

#[test]
fn search_entries_from_columns() {
    let r = search_entries(
        &vec![some("/category/a"), None, some("/category/c"), some("/category/d")],
        &vec![some("A"), some("B"), None, some("D")],
    );
    let pairs: Vec<(String, String)> = r.into_iter().map(|e| (e.id, e.name)).collect();
    assert_eq!(
        pairs,
        vec![("a".to_string(), "A".to_string()), ("d".to_string(), "D".to_string())]
    );
}

#[test]
fn long_digit_runs_are_refused() {
    let zeros = "0".repeat(40000);
    let body = format!(r#"{{"source":[], "n": 0.{}}}"#, zeros);
    assert!(!digit_runs_short(&body));
    assert!(matches!(source_files(&body), Err(GetVideoError::ParseJson)));
    assert!(digit_runs_short(&"1".repeat(29999)));
    assert!(!digit_runs_short(&"1".repeat(30000)));
    assert!(digit_runs_short("{\"a\": 12345}"));
}
