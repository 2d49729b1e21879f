use spot::spot::Spot;
use spot::step::{Event, FetchError, Step};
use spot::token::AuthResponse;
use spot::top_songs::{TOP_SONGS_FAILURE_WINDOW_MS, TOP_SONGS_TTL_MS};
use spot::track::{copy_all, copy_prefix, top_prefix, Album, ExternalUrls, Item, TopItems};
use spot::wire::{Auth, Content, Payload, Reply, Verb};

fn track(name: &str) -> Item {
    Item {
        name: name.to_string(),
        duration_ms: 180_000,
        preview_url: None,
        album: Album {
            album_type: "single".to_string(),
            artists: vec![],
            external_urls: ExternalUrls { spotify: "https://open.spotify.com/album/x".to_string() },
            images: vec![],
            name: format!("{} (Single)", name),
            uri: "spotify:album:x".to_string(),
        },
        artists: vec![],
        external_urls: ExternalUrls { spotify: format!("https://open.spotify.com/track/{}", name) },
    }
}

fn ranking(names: &[&str]) -> Vec<Item> {
    names.iter().map(|n| track(n)).collect()
}

fn names_of(items: &[Item]) -> Vec<String> {
    items.iter().map(|i| i.name.clone()).collect()
}

fn listener(now: i64) -> Spot {
    let mut spot = Spot::new("id".to_string(), "secret".to_string(), "refresh".to_string());
    let grant = AuthResponse { access_token: "T1".to_string(), expires_in: 100_000 };
    spot.get_token_at(now, Reply::Answered { status: 200, payload: Payload::Parsed(grant) }).unwrap();
    spot
}

fn fetched(names: &[&str]) -> Event<TopItems> {
    Event::Called(Reply::Answered {
        status: 200,
        payload: Payload::Parsed(TopItems { items: ranking(names) }),
    })
}

fn served(step: Step<Vec<Item>, FetchError>) -> Vec<String> {
    match step {
        Step::Done(Ok(items)) => names_of(&items),
        other => panic!("expected a ranking, got {:?}", other),
    }
}

#[test]
fn limit_two_of_five_gives_the_first_two_in_rank_order() {
    let mut spot = listener(0);
    spot.get_top_songs_at(0, 32, fetched(&["e", "a", "d", "b", "c"]));
    let step = spot.get_top_songs_at(1_000, 2, Event::Start);
    assert_eq!(step, Step::Done(Ok(ranking(&["e", "a"]))));
    assert_eq!(spot.top_songs.value, Some(ranking(&["e", "a", "d", "b", "c"])));
}

#[test]
fn callers_with_different_limits_share_one_cached_ranking() {
    let mut spot = listener(0);
    spot.get_top_songs_at(0, 1, fetched(&["e", "a", "d", "b", "c"]));
    assert_eq!(served(spot.get_top_songs_at(10, 0, Event::Start)), Vec::<String>::new());
    assert_eq!(served(spot.get_top_songs_at(20, 1, Event::Start)), vec!["e"]);
    assert_eq!(served(spot.get_top_songs_at(30, 4, Event::Start)), vec!["e", "a", "d", "b"]);
    assert_eq!(served(spot.get_top_songs_at(40, 5, Event::Start)), vec!["e", "a", "d", "b", "c"]);
    assert_eq!(served(spot.get_top_songs_at(50, 6, Event::Start)), vec!["e", "a", "d", "b", "c"]);
    assert_eq!(
        served(spot.get_top_songs_at(60, usize::MAX, Event::Start)),
        vec!["e", "a", "d", "b", "c"]
    );
    assert_eq!(spot.top_songs.value.as_ref().unwrap().len(), 5);
}

#[test]
fn fetch_stores_the_whole_ranking_and_serves_the_prefix() {
    let mut spot = listener(0);
    let step = spot.get_top_songs_at(7_000, 3, fetched(&["e", "a", "d", "b", "c"]));
    assert_eq!(served(step), vec!["e", "a", "d"]);
    assert_eq!(spot.top_songs.value, Some(ranking(&["e", "a", "d", "b", "c"])));
    assert_eq!(spot.top_songs.captured_at, 7_000);
    assert_eq!(spot.top_songs.valid_until, 7_000 + TOP_SONGS_TTL_MS);
    assert_eq!(spot.top_songs.valid_until, 607_000);
}

#[test]
fn ranking_is_served_for_ten_minutes() {
    let mut spot = listener(0);
    spot.get_top_songs_at(0, 4, fetched(&["a", "b"]));
    assert_eq!(served(spot.get_top_songs_at(599_999, 4, Event::Start)), vec!["a", "b"]);
    match spot.get_top_songs_at(600_000, 4, Event::Start) {
        Step::Call(request) => {
            assert_eq!(request.verb, Verb::Get);
            assert_eq!(
                request.url,
                "https://api.spotify.com/v1/me/top/tracks?limit=32&time_range=short_term"
            );
            assert_eq!(request.auth, Auth::Bearer { token: "T1".to_string() });
            assert_eq!(request.content, Content::Empty);
        }
        other => panic!("expected a call, got {:?}", other),
    }
}

#[test]
fn empty_ranking_is_a_value() {
    let mut spot = listener(0);
    let step = spot.get_top_songs_at(0, 4, fetched(&[]));
    assert_eq!(step, Step::Done(Ok(vec![])));
    assert_eq!(spot.top_songs.value, Some(vec![]));
    assert_eq!(spot.get_top_songs_at(1, 4, Event::Start), Step::Done(Ok(vec![])));
}

#[test]
fn failed_ranking_query_is_remembered_for_twenty_seconds() {
    let failures: Vec<(Reply<TopItems>, FetchError)> = vec![
        (Reply::Unreachable, FetchError::Upstream),
        (Reply::Answered { status: 500, payload: Payload::Malformed }, FetchError::Upstream),
        (
            Reply::Answered {
                status: 404,
                payload: Payload::Parsed(TopItems { items: ranking(&["a"]) }),
            },
            FetchError::Upstream,
        ),
        (Reply::Answered { status: 200, payload: Payload::Lost }, FetchError::Upstream),
        (Reply::Answered { status: 200, payload: Payload::Malformed }, FetchError::Decode),
        (Reply::Answered { status: 204, payload: Payload::Malformed }, FetchError::Decode),
    ];
    for (reply, error) in failures {
        let mut spot = listener(0);
        spot.get_top_songs_at(0, 4, fetched(&["a", "b"]));
        let step = spot.get_top_songs_at(700_000, 4, Event::Called(reply));
        assert_eq!(step, Step::Done(Err(error)));
        assert_eq!(spot.top_songs.value, None);
        assert_eq!(spot.top_songs.captured_at, 700_000);
        assert_eq!(spot.top_songs.valid_until, 700_000 + TOP_SONGS_FAILURE_WINDOW_MS);
        assert_eq!(spot.top_songs.valid_until, 720_000);
        assert_eq!(
            spot.get_top_songs_at(719_999, 4, Event::Start),
            Step::Done(Err(FetchError::SuppressedRecentFailure))
        );
        assert!(matches!(spot.get_top_songs_at(720_000, 4, Event::Start), Step::Call(_)));
    }
}

#[test]
fn ranking_query_exchanges_the_token_first() {
    let mut spot = Spot::new("id".to_string(), "secret".to_string(), "refresh".to_string());
    match spot.get_top_songs_at(1_000, 4, Event::Start) {
        Step::Exchange(request) => {
            assert_eq!(request.url, "https://accounts.spotify.com/api/token");
            assert_eq!(request.verb, Verb::Post);
        }
        other => panic!("expected an exchange, got {:?}", other),
    }
    let grant = AuthResponse { access_token: "T7".to_string(), expires_in: 10 };
    let event = Event::Exchanged(Reply::Answered { status: 200, payload: Payload::Parsed(grant) });
    match spot.get_top_songs_at(1_000, 4, event) {
        Step::Call(request) => assert_eq!(request.auth, Auth::Bearer { token: "T7".to_string() }),
        other => panic!("expected a call, got {:?}", other),
    }
    assert_eq!(spot.token.as_ref().unwrap().expires_at, 11);

    let mut spot = Spot::new("id".to_string(), "secret".to_string(), "refresh".to_string());
    let step = spot.get_top_songs_at(1_000, 4, Event::Exchanged(Reply::Unreachable));
    assert_eq!(step, Step::Done(Err(FetchError::AuthFailed)));
    assert_eq!(spot.top_songs.valid_until, 21_000);
    assert_eq!(spot.current_song.valid_until, 0);
    assert_eq!(
        spot.get_top_songs_at(20_999, 4, Event::Start),
        Step::Done(Err(FetchError::SuppressedRecentFailure))
    );
}

#[test]
fn the_two_slots_do_not_touch_each_other() {
    let mut spot = listener(0);
    spot.get_top_songs_at(0, 4, fetched(&["a", "b"]));
    spot.get_current_song_at(100, Event::Called(Reply::Unreachable));
    assert_eq!(served(spot.get_top_songs_at(200, 4, Event::Start)), vec!["a", "b"]);
    assert_eq!(spot.current_song.valid_until, 10_100);
    spot.get_top_songs_at(700_000, 4, Event::Called(Reply::Unreachable));
    assert_eq!(spot.current_song.valid_until, 10_100);
    assert_eq!(spot.current_song.captured_at, 100);
}

#[test]
fn ranking_range_check() {
    let spot = listener(0);
    assert!(spot.top_songs_in_range(i64::MAX, 4, &Event::Start));
    assert!(spot.top_songs_in_range(i64::MAX - 600_000, 4, &fetched(&["a"])));
    assert!(!spot.top_songs_in_range(i64::MAX - 599_999, 4, &fetched(&["a"])));
    assert!(spot.top_songs_in_range(i64::MAX - 20_000, 4, &Event::Called(Reply::Unreachable)));
    assert!(!spot.top_songs_in_range(i64::MAX - 19_999, 4, &Event::Called(Reply::Unreachable)));
    assert!(!spot.top_songs_in_range(i64::MAX - 19_999, 4, &Event::Exchanged(Reply::Unreachable)));
    assert!(spot.top_songs_in_range(i64::MIN, 4, &Event::Exchanged(Reply::Unreachable)));
}

#[test]
fn clock_variant_of_the_ranking_query() {
    let mut spot = listener(0);
    let timed = spot.get_top_songs(2, fetched(&["e", "a", "d"]));
    assert!(timed.at > 1_577_836_800_000);
    assert_eq!(timed.result, Some(Step::Done(Ok(ranking(&["e", "a"])))));
    assert_eq!(spot.top_songs.captured_at, timed.at);
    assert_eq!(spot.top_songs.valid_until, timed.at + 600_000);
    let again = spot.get_top_songs(1, Event::Start);
    assert_eq!(again.result, Some(Step::Done(Ok(ranking(&["e"])))));
}

#[test]
fn prefix_copies_keep_order() {
    let items = ranking(&["c", "a", "b"]);
    assert_eq!(names_of(&copy_prefix(&items, 0)), Vec::<String>::new());
    assert_eq!(names_of(&copy_prefix(&items, 2)), vec!["c", "a"]);
    assert_eq!(names_of(&copy_prefix(&items, 3)), vec!["c", "a", "b"]);
    assert_eq!(copy_all(&items), items);
    assert_eq!(names_of(&top_prefix(&items, 1)), vec!["c"]);
    assert_eq!(top_prefix(&items, 3), items);
    assert_eq!(top_prefix(&items, 9), items);
    let body = TopItems { items: ranking(&["z", "y"]) };
    assert_eq!(body.clone(), body);
}
