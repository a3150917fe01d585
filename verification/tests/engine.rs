use lrcsync::client::{exact_from_response, search_from_response, LrcLibClient};
use lrcsync::model::{
    ExactLookup, LookupError, LrclibItem, ResolutionOutcome, SearchLookup, TrackMetadata,
};
use lrcsync::query::{build_query, join_names, IgnoreFlags, LrclibQuery};
use lrcsync::resolve::{after_exact, after_search, resolve_fixed, ExactStep, ResolveOptions};
use lrcsync::select::select;

fn item(duration: u64, synced: Option<&str>) -> LrclibItem {
    LrclibItem {
        id: 1,
        trackName: String::from("Song"),
        artistName: String::from("Band"),
        albumName: String::from("Rec"),
        duration,
        instrumental: false,
        plainLyrics: None,
        syncedLyrics: synced.map(String::from),
    }
}

fn metadata() -> TrackMetadata {
    TrackMetadata {
        title: Some(String::from("Song")),
        artists: Some(vec![String::from("Band")]),
        album: Some(String::from("Rec")),
        duration: Some(200),
    }
}

fn options(search_fallback: bool, tolerance: i64) -> ResolveOptions {
    ResolveOptions { ignore: IgnoreFlags::none(), search_fallback, tolerance }
}

fn pair(k: &str, v: &str) -> (String, String) {
    (String::from(k), String::from(v))
}

#[test]
fn no_target_returns_first_regardless_of_tolerance() {
    let candidates = vec![item(250, Some("x")), item(190, Some("y"))];
    for tolerance in [-3i64, 0, 5] {
        let (picked, survivors) = select(&candidates, None, tolerance);
        assert_eq!(picked, Some(0));
        assert_eq!(survivors, 2);
    }
    let empty: Vec<LrclibItem> = Vec::new();
    assert_eq!(select(&empty, None, 5), (None, 0));
}

#[test]
fn select_picks_minimal_delta_within_tolerance() {
    let candidates = vec![item(190, Some("a")), item(200, Some("b")), item(250, Some("c"))];
    let (picked, survivors) = select(&candidates, Some(200), 5);
    assert_eq!(picked, Some(1));
    assert_eq!(survivors, 1);
}

#[test]
fn select_without_window_still_picks_minimal_delta() {
    let candidates = vec![item(190, Some("a")), item(200, Some("b")), item(250, Some("c"))];
    let (picked, survivors) = select(&candidates, Some(200), 0);
    assert_eq!(picked, Some(1));
    assert_eq!(survivors, 3);
}

#[test]
fn select_breaks_delta_ties_by_original_order() {
    let candidates = vec![item(205, Some("a")), item(195, Some("b"))];
    let (picked, survivors) = select(&candidates, Some(200), 10);
    assert_eq!(picked, Some(0));
    assert_eq!(survivors, 2);
}

#[test]
fn delta_equal_to_tolerance_is_excluded() {
    let candidates = vec![item(205, Some("a"))];
    let (picked, survivors) = select(&candidates, Some(200), 5);
    assert_eq!(picked, None);
    assert_eq!(survivors, 0);
}

#[test]
fn resolving_twice_yields_same_outcome() {
    let meta = metadata();
    let opts = options(true, 5);
    let search = SearchLookup::Found(vec![item(190, Some("a")), item(200, Some("b"))]);
    let first = resolve_fixed(&meta, &opts, ExactLookup::NotFound, search.clone());
    let second = resolve_fixed(&meta, &opts, ExactLookup::NotFound, search);
    assert_eq!(first, second);
}

#[test]
fn ignore_duration_clears_duration() {
    let tokens = vec![String::from("duration")];
    let flags = IgnoreFlags::from_tokens(&tokens);
    let q = build_query(&metadata(), &flags);
    assert_eq!(q.duration, None);
    assert_eq!(q.album_name, Some(String::from("Rec")));
}

#[test]
fn ignore_album_clears_album_under_either_token() {
    for token in ["album", "album_name"] {
        let tokens = vec![String::from(token)];
        let flags = IgnoreFlags::from_tokens(&tokens);
        let q = build_query(&metadata(), &flags);
        assert_eq!(q.album_name, None);
        assert_eq!(q.duration, Some(200));
    }
}

#[test]
fn unrecognized_ignore_tokens_are_ignored() {
    let tokens = vec![String::from("Duration"), String::from("year"), String::from("")];
    let flags = IgnoreFlags::from_tokens(&tokens);
    assert!(!flags.duration && !flags.album && !flags.artist);
}

#[test]
fn artist_tokens_set_only_the_artist_flag() {
    for token in ["artist", "artist_name"] {
        let tokens = vec![String::from(token)];
        let flags = IgnoreFlags::from_tokens(&tokens);
        assert!(flags.artist && !flags.duration && !flags.album);
        let q = build_query(&metadata(), &flags);
        assert_eq!(q.artist_name, String::from("Band"));
    }
}

#[test]
fn scenario_full_metadata_exact_hit_resolves() {
    let meta = metadata();
    let flags = IgnoreFlags::from_tokens(&Vec::<String>::new());
    let q = build_query(&meta, &flags);
    assert_eq!(
        q.to_get_query(),
        vec![
            pair("track_name", "Song"),
            pair("artist_name", "Band"),
            pair("album_name", "Rec"),
            pair("duration", "200"),
        ]
    );
    let found = ExactLookup::Found(item(200, Some("[00:01.00]hi")));
    let outcome = resolve_fixed(&meta, &options(true, 5), found, SearchLookup::NotFound);
    assert_eq!(
        outcome,
        ResolutionOutcome::Resolved {
            lyrics_text: String::from("[00:01.00]hi"),
            matched_duration: 200,
        }
    );
}

#[test]
fn scenario_exact_miss_without_fallback_is_not_found() {
    let exact = exact_from_response(404, Err(String::new()));
    assert_eq!(exact, ExactLookup::NotFound);
    let outcome = resolve_fixed(&metadata(), &options(false, 5), exact, SearchLookup::NotFound);
    assert_eq!(outcome, ResolutionOutcome::NotFound);
}

#[test]
fn scenario_exact_miss_with_fallback_picks_closest() {
    let search = SearchLookup::Found(vec![
        item(190, Some("far")),
        item(200, Some("close")),
        item(250, Some("farther")),
    ]);
    let outcome = resolve_fixed(&metadata(), &options(true, 5), ExactLookup::NotFound, search);
    assert_eq!(
        outcome,
        ResolutionOutcome::Resolved {
            lyrics_text: String::from("close"),
            matched_duration: 200,
        }
    );
}

#[test]
fn scenario_no_candidate_within_tolerance_is_not_found() {
    let search = SearchLookup::Found(vec![item(190, Some("a")), item(250, Some("b"))]);
    let outcome = resolve_fixed(&metadata(), &options(true, 5), ExactLookup::NotFound, search);
    assert_eq!(outcome, ResolutionOutcome::NotFound);
}

#[test]
fn scenario_closest_candidate_without_synced_lyrics_is_not_found() {
    let search = SearchLookup::Found(vec![item(200, None), item(250, Some("far"))]);
    let outcome = resolve_fixed(&metadata(), &options(true, 5), ExactLookup::NotFound, search);
    assert_eq!(outcome, ResolutionOutcome::NotFound);
}

#[test]
fn exact_hit_without_synced_lyrics_is_not_found() {
    let found = ExactLookup::Found(item(200, None));
    let outcome = resolve_fixed(&metadata(), &options(true, 5), found, SearchLookup::NotFound);
    assert_eq!(outcome, ResolutionOutcome::NotFound);
}

#[test]
fn empty_search_result_is_not_found() {
    let search = SearchLookup::Found(Vec::new());
    let outcome = resolve_fixed(&metadata(), &options(true, 5), ExactLookup::NotFound, search);
    assert_eq!(outcome, ResolutionOutcome::NotFound);
}

#[test]
fn exact_error_is_propagated() {
    let exact = ExactLookup::Failed(LookupError::Transport(String::from("timed out")));
    let outcome = resolve_fixed(&metadata(), &options(true, 5), exact, SearchLookup::NotFound);
    assert_eq!(
        outcome,
        ResolutionOutcome::Failed(LookupError::Transport(String::from("timed out")))
    );
}

#[test]
fn search_error_is_propagated() {
    let search = SearchLookup::Failed(LookupError::Service(500));
    let outcome = resolve_fixed(&metadata(), &options(true, 5), ExactLookup::NotFound, search);
    assert_eq!(outcome, ResolutionOutcome::Failed(LookupError::Service(500)));
}

#[test]
fn fallback_clears_artist_only_when_ignored() {
    let meta = metadata();
    let mut opts = options(true, 5);
    opts.ignore.artist = true;
    let q = build_query(&meta, &opts.ignore);
    assert_eq!(q.artist_name, String::from("Band"));
    match after_exact(q, &opts, ExactLookup::NotFound) {
        ExactStep::Search(q2) => assert_eq!(q2.artist_name, String::new()),
        step => panic!("expected the search step, got {:?}", step),
    }
    let opts2 = options(true, 5);
    let q3 = build_query(&meta, &opts2.ignore);
    match after_exact(q3, &opts2, ExactLookup::NotFound) {
        ExactStep::Search(q4) => assert_eq!(q4.artist_name, String::from("Band")),
        step => panic!("expected the search step, got {:?}", step),
    }
}

#[test]
fn get_query_always_carries_artist_even_empty() {
    let q = LrclibQuery {
        track_name: String::from("Song"),
        artist_name: String::new(),
        album_name: None,
        duration: None,
    };
    assert_eq!(q.to_get_query(), vec![pair("track_name", "Song"), pair("artist_name", "")]);
    assert_eq!(q.to_get_query_string(), "track_name=Song&artist_name=");
}

#[test]
fn search_query_omits_empty_artist_and_never_sends_duration() {
    let q = LrclibQuery {
        track_name: String::from("Song"),
        artist_name: String::new(),
        album_name: Some(String::from("Rec")),
        duration: Some(200),
    };
    assert_eq!(q.to_search_query(), vec![pair("track_name", "Song"), pair("album_name", "Rec")]);
    let q2 = LrclibQuery { artist_name: String::from("Band"), ..q };
    assert_eq!(
        q2.to_search_query(),
        vec![pair("track_name", "Song"), pair("artist_name", "Band"), pair("album_name", "Rec")]
    );
}

#[test]
fn get_query_string_renders_all_fields() {
    let q = LrclibQuery {
        track_name: String::from("Song"),
        artist_name: String::from("Band"),
        album_name: Some(String::from("Rec")),
        duration: Some(200),
    };
    assert_eq!(
        q.to_get_query_string(),
        "track_name=Song&artist_name=Band&album_name=Rec&duration=200"
    );
}

#[test]
fn remove_methods_clear_their_fields() {
    let mut q = LrclibQuery {
        track_name: String::from("Song"),
        artist_name: String::from("Band"),
        album_name: Some(String::from("Rec")),
        duration: Some(200),
    };
    q.remove_duration();
    assert_eq!(q.duration, None);
    q.remove_album_name();
    assert_eq!(q.album_name, None);
    assert_eq!(q.track_name, String::from("Song"));
}

#[test]
fn metadata_defaults_fill_missing_fields() {
    let meta = TrackMetadata { title: None, artists: None, album: None, duration: None };
    let q = build_query(&meta, &IgnoreFlags::none());
    assert_eq!(q.track_name, String::new());
    assert_eq!(q.artist_name, String::new());
    assert_eq!(q.album_name, None);
    assert_eq!(q.duration, None);
}

#[test]
fn artists_join_with_comma_and_space() {
    let parts = vec![String::from("A"), String::from("B"), String::from("C")];
    assert_eq!(join_names(&parts, ", "), "A, B, C");
    assert_eq!(join_names(&vec![String::from("Solo")], ", "), "Solo");
    assert_eq!(join_names(&Vec::<String>::new(), ", "), "");
    let meta = TrackMetadata {
        artists: Some(vec![String::from("X"), String::from("Y")]),
        ..metadata()
    };
    assert_eq!(build_query(&meta, &IgnoreFlags::none()).artist_name, "X, Y");
}

#[test]
fn exact_response_interpretation() {
    assert_eq!(exact_from_response(200, Ok(item(200, None))), ExactLookup::Found(item(200, None)));
    assert_eq!(
        exact_from_response(200, Err(String::from("bad json"))),
        ExactLookup::Failed(LookupError::Schema(String::from("bad json")))
    );
    assert_eq!(exact_from_response(404, Err(String::new())), ExactLookup::NotFound);
    assert_eq!(
        exact_from_response(500, Err(String::new())),
        ExactLookup::Failed(LookupError::Service(500))
    );
    assert_eq!(
        exact_from_response(302, Err(String::new())),
        ExactLookup::Failed(LookupError::Service(302))
    );
}

#[test]
fn search_response_interpretation() {
    assert_eq!(
        search_from_response(200, Ok(vec![item(1, None)])),
        SearchLookup::Found(vec![item(1, None)])
    );
    assert_eq!(
        search_from_response(200, Err(String::from("drift"))),
        SearchLookup::Failed(LookupError::Schema(String::from("drift")))
    );
    assert_eq!(search_from_response(404, Err(String::new())), SearchLookup::NotFound);
    assert_eq!(
        search_from_response(503, Err(String::new())),
        SearchLookup::Failed(LookupError::Service(503))
    );
}

#[test]
fn after_search_reports_the_picked_candidate() {
    let q = build_query(&metadata(), &IgnoreFlags::none());
    let outcome = after_search(
        &q,
        &options(true, 5),
        SearchLookup::Found(vec![item(199, Some("near")), item(201, Some("nearer not"))]),
    );
    assert_eq!(
        outcome,
        ResolutionOutcome::Resolved { lyrics_text: String::from("near"), matched_duration: 199 }
    );
}

#[test]
fn nan_mapped_duration_ranks_last() {
    let candidates = vec![item(u64::MAX, Some("nan")), item(210, Some("real"))];
    let (picked, survivors) = select(&candidates, Some(200), 0);
    assert_eq!(picked, Some(1));
    assert_eq!(survivors, 2);
}

#[test]
fn client_endpoints_follow_the_base_url() {
    let client = LrcLibClient::new("https://lrclib.net");
    assert_eq!(client.url, "https://lrclib.net");
    assert_eq!(client.get_endpoint(), "https://lrclib.net/api/get");
    let mut client2 = LrcLibClient::new("http://localhost:8080");
    assert_eq!(client2.get_endpoint(), "http://localhost:8080/api/get");
    assert_eq!(client2.search_endpoint(), "http://localhost:8080/api/search");
    client2.set_url("http://example.test");
    assert_eq!(client2.get_endpoint(), "http://example.test/api/get");
}

#[test]
fn durations_render_in_decimal() {
    assert_eq!(lrcsync::numfmt::u64_to_string(0), "0");
    assert_eq!(lrcsync::numfmt::u64_to_string(205), "205");
    assert_eq!(lrcsync::numfmt::u64_to_string(10), "10");
    assert_eq!(lrcsync::numfmt::u64_to_string(u64::MAX), "18446744073709551615");
}
