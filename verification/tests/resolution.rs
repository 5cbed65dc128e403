use down_on_spot::{
    classify_input, get_config_settings_path, search_resolution, secs_to_hrs_min_sec, Pager,
    ParsedInput, Resolution, ResolveError, SearchCandidate, Settings, TrackRef, UriKind,
};

fn candidate(n: usize) -> SearchCandidate {
    SearchCandidate {
        track_id: format!("id{}", n),
        title: format!("song {}", n),
        author: format!("artist {}", n),
    }
}

fn page_of_tracks(from: usize, count: usize) -> Vec<Option<TrackRef>> {
    let mut page = Vec::new();
    for i in from..from + count {
        page.push(Some(TrackRef {
            track_id: format!("track{}", i),
            title: format!("title{}", i),
            author: format!("author{}", i),
        }));
    }
    page
}

#[test]
fn canonical_track_uri_resolves() {
    match classify_input("spotify:track:abc123") {
        Ok(ParsedInput::Uri { kind, id }) => {
            assert_eq!(kind, UriKind::Track);
            assert_eq!(id, "abc123");
        }
        other => panic!("expected a track reference, found {:?}", other),
    }
}

#[test]
fn canonical_kinds_dispatch() {
    for (raw, want) in [
        ("spotify:playlist:37i9dQZF1DXcxvFzl58uP7", UriKind::Playlist),
        ("spotify:album:al1", UriKind::Album),
        ("spotify:artist:ar1", UriKind::Artist),
        ("spotify:show:sh1", UriKind::Other),
        ("spotify:episode:ep1", UriKind::Other),
        ("spotify:user:u1", UriKind::Other),
    ] {
        match classify_input(raw) {
            Ok(ParsedInput::Uri { kind, .. }) => assert_eq!(kind, want, "for {}", raw),
            other => panic!("expected a uri for {}, found {:?}", raw, other),
        }
    }
}

#[test]
fn scheme_with_wrong_segment_count_is_invalid() {
    assert_eq!(classify_input("spotify:track"), Err(ResolveError::InvalidUri));
    assert_eq!(
        classify_input("spotify:track:abc:extra"),
        Err(ResolveError::InvalidUri)
    );
    assert_eq!(classify_input("spotify:"), Err(ResolveError::InvalidUri));
}

#[test]
fn web_player_url_resolves() {
    match classify_input("https://open.spotify.com/playlist/37i9dQZF1DXcxvFzl58uP7") {
        Ok(ParsedInput::Uri { kind, id }) => {
            assert_eq!(kind, UriKind::Playlist);
            assert_eq!(id, "37i9dQZF1DXcxvFzl58uP7");
        }
        other => panic!("expected a playlist reference, found {:?}", other),
    }
    match classify_input("https://open.spotify.com/track/0KjAxsrYSvN0xGuh3cKPxD?si=x") {
        Ok(ParsedInput::Uri { kind, id }) => {
            assert_eq!(kind, UriKind::Track);
            assert_eq!(id, "0KjAxsrYSvN0xGuh3cKPxD");
        }
        other => panic!("expected a track reference, found {:?}", other),
    }
}

#[test]
fn foreign_or_short_urls_are_invalid() {
    assert_eq!(
        classify_input("https://example.com/track/abc"),
        Err(ResolveError::InvalidUri)
    );
    assert_eq!(
        classify_input("https://open.spotify.com/"),
        Err(ResolveError::InvalidUri)
    );
}

#[test]
fn free_text_becomes_search_not_error() {
    match classify_input("Ariana Grande") {
        Ok(ParsedInput::Search { query }) => assert_eq!(query, "Ariana Grande"),
        other => panic!("expected a search query, found {:?}", other),
    }
}

#[test]
fn zero_search_matches_yield_empty_candidates() {
    // a bare phrase resolves to a search, and an empty result list is
    // "nothing to do", never an invalid input
    assert!(matches!(
        classify_input("no such song anywhere"),
        Ok(ParsedInput::Search { .. })
    ));
    match search_resolution(Vec::new()) {
        Resolution::Candidates(v) => assert!(v.is_empty()),
        other => panic!("expected empty candidates, found {:?}", other),
    }
}

#[test]
fn search_results_are_capped_at_fifty() {
    let mut results = Vec::new();
    for n in 0..52 {
        results.push(candidate(n));
    }
    match search_resolution(results) {
        Resolution::Candidates(v) => {
            assert_eq!(v.len(), 50);
            assert_eq!(v[0].track_id, "id0");
            assert_eq!(v[49].track_id, "id49");
        }
        other => panic!("expected candidates, found {:?}", other),
    }
}

#[test]
fn playlist_pagination_issues_three_pages_for_250() {
    let mut pager: Pager<TrackRef> = Pager::new(100);
    let mut offsets = Vec::new();
    let mut pages: usize = 0;
    loop {
        offsets.push(pager.next_offset());
        assert_eq!(pager.page_limit(), 100);
        let from = pager.next_offset();
        let count = if 250 - from >= 100 { 100 } else { 250 - from };
        let done = pager.feed(page_of_tracks(from, count), 250);
        pages += 1;
        if done {
            break;
        }
    }
    assert_eq!(pages, 3);
    assert_eq!(offsets, vec![0, 100, 200]);
    let items = pager.into_items();
    assert_eq!(items.len(), 250);
    assert_eq!(items[0].track_id, "track0");
    assert_eq!(items[249].track_id, "track249");
}

#[test]
fn pagination_discards_null_items() {
    let mut pager: Pager<TrackRef> = Pager::new(100);
    let mut page = page_of_tracks(0, 4);
    page.insert(1, None); // a removed/local entry
    page.push(None);
    let done = pager.feed(page, 6);
    assert!(done);
    let items = pager.into_items();
    assert_eq!(items.len(), 4);
    assert_eq!(items[0].track_id, "track0");
    assert_eq!(items[1].track_id, "track1");
}

#[test]
fn pagination_trusts_latest_total() {
    let mut pager: Pager<TrackRef> = Pager::new(100);
    // first page claims 300 in total, the next page corrects it to 200
    assert!(!pager.feed(page_of_tracks(0, 100), 300));
    assert!(pager.feed(page_of_tracks(100, 100), 200));
    assert_eq!(pager.into_items().len(), 200);
}

#[test]
fn empty_listing_finishes_after_one_page() {
    let mut pager: Pager<TrackRef> = Pager::new(50);
    assert_eq!(pager.next_offset(), 0);
    let done = pager.feed(Vec::new(), 0);
    assert!(done);
    assert!(pager.into_items().is_empty());
}

#[test]
fn time_formatting_exact_fields() {
    assert_eq!(secs_to_hrs_min_sec(0), "00:00:00");
    assert_eq!(secs_to_hrs_min_sec(59), "00:00:59");
    // the first field is secs / 360, the second is the full minute count
    assert_eq!(secs_to_hrs_min_sec(3661), "10:61:01");
    assert_eq!(secs_to_hrs_min_sec(360), "01:06:00");
}

#[test]
fn settings_defaults() {
    let s = Settings::new("user", "pass", "client", "secret");
    assert_eq!(s.username, "user");
    assert_eq!(s.password, "pass");
    assert_eq!(s.client_id, "client");
    assert_eq!(s.client_secret, "secret");
    assert_eq!(s.refresh_ui_seconds, 1);
    assert_eq!(s.downloader.concurrent_downloads, 4);
    assert!(s.market_country_code.is_none());
}

#[test]
fn settings_path_is_under_config_folder() {
    assert_eq!(
        get_config_settings_path("/home/u/.config/down_on_spot"),
        "/home/u/.config/down_on_spot/settings.json"
    );
}
