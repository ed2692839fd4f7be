use rambt::app::{merge_ratings, Action, App, Key, RatingRecord};
use rambt::musicbrainz::{ArtistSearchResult, PrimaryType, Release, ReleaseType};
use rambt::rating::Rated;
use rambt::sections::ListItemType;

fn artist(id: &str, name: &str) -> ArtistSearchResult {
    ArtistSearchResult {
        id: id.to_string(),
        name: name.to_string(),
        disambiguation: String::from("band"),
    }
}

fn kind(primary: PrimaryType) -> ReleaseType {
    ReleaseType::new(Some(primary), Vec::new())
}

fn item(id: &str, primary: PrimaryType, rating: Option<u8>) -> Release {
    Release {
        id: id.to_string(),
        title: id.to_uppercase(),
        year: 1990,
        group_type: kind(primary),
        rating,
    }
}

fn entry(release_id: &str, rating: Option<u8>) -> Rated {
    Rated {
        artist_id: String::from("artist-1"),
        artist_name: String::from("Artist"),
        release_id: release_id.to_string(),
        title: release_id.to_uppercase(),
        rating,
    }
}

fn three_releases() -> Vec<Release> {
    vec![
        item("a", PrimaryType::Album, None),
        item("b", PrimaryType::Album, Some(7)),
        item("c", PrimaryType::Single, None),
    ]
}

fn browsing(releases: Vec<Release>, ratings: Vec<(String, u8)>) -> App {
    let mut app = App::search(vec![artist("artist-1", "First"), artist("artist-2", "Second")])
        .expect("two artists make a session");
    assert_eq!(app.on_right(), Some(String::from("artist-1")));
    app.show_releases(releases, ratings);
    app
}

fn selected_rating(app: &App) -> Option<u8> {
    app.get_selected_release().expect("a release is selected").rating
}

fn cursor(app: &App) -> Option<usize> {
    app.releases().expect("releases are shown").selected_index()
}

#[test]
fn a_search_without_artists_starts_no_session() {
    assert!(App::search(Vec::new()).is_none());
}

#[test]
fn a_search_starts_on_the_first_artist() {
    let app = App::search(vec![artist("1", "One"), artist("2", "Two")]).unwrap();
    assert_eq!(app.get_selected_artist(), Some(&artist("1", "One")));
    assert!(app.releases().is_none());
    assert!(app.rated_list().is_none());
    assert!(!app.currently_rating());
    assert_eq!(app.search_results().unwrap().items().len(), 2);
}

#[test]
fn going_over_ratings_starts_on_the_first_rating() {
    let app = App::list_rated(vec![entry("x", Some(3)), entry("y", Some(4))]);
    assert!(app.search_results().is_none());
    assert!(app.releases().is_none());
    assert_eq!(app.rated_list().unwrap().selected_index(), Some(0));
    assert_eq!(app.get_selected_rated(), Some(&entry("x", Some(3))));
    assert_eq!(app.get_selected_artist(), None);
    let empty = App::list_rated(Vec::new());
    assert_eq!(empty.rated_list().unwrap().selected_index(), None);
    assert_eq!(empty.get_selected_rated(), None);
}

#[test]
fn artists_are_browsed_up_and_down() {
    let mut app = App::search(vec![artist("1", "One"), artist("2", "Two"), artist("3", "Three")])
        .unwrap();
    app.on_down();
    assert_eq!(app.get_selected_artist(), Some(&artist("2", "Two")));
    app.on_up();
    app.on_up();
    assert_eq!(app.get_selected_artist(), Some(&artist("3", "Three")));
    assert_eq!(app.on_key(Key::Char('j')), Action::Continue);
    assert_eq!(app.get_selected_artist(), Some(&artist("1", "One")));
    assert_eq!(app.on_key(Key::Char('k')), Action::Continue);
    assert_eq!(app.get_selected_artist(), Some(&artist("3", "Three")));
}

#[test]
fn the_releases_open_on_the_first_release() {
    let app = browsing(three_releases(), Vec::new());
    let releases = app.releases().unwrap();
    assert_eq!(releases.items().len(), 5);
    assert_eq!(cursor(&app), Some(1));
    assert_eq!(app.get_selected_release(), Some(&item("a", PrimaryType::Album, None)));
    assert!(matches!(releases.items()[0], ListItemType::ReleaseType(_)));
    assert!(matches!(releases.items()[3], ListItemType::ReleaseType(_)));
}

#[test]
fn the_cursor_passes_over_headers() {
    let mut app = browsing(three_releases(), Vec::new());
    app.on_down();
    assert_eq!(cursor(&app), Some(2));
    app.on_down();
    assert_eq!(cursor(&app), Some(4));
    app.on_down();
    assert_eq!(cursor(&app), Some(1));
    app.on_up();
    assert_eq!(cursor(&app), Some(4));
    app.on_up();
    assert_eq!(cursor(&app), Some(2));
    app.on_up();
    assert_eq!(cursor(&app), Some(1));
}

#[test]
fn releases_that_have_not_arrived_leave_the_artists_on_the_screen() {
    let mut app = App::search(vec![artist("1", "One")]).unwrap();
    assert_eq!(app.on_key(Key::Right), Action::FetchReleases(String::from("1")));
    assert!(app.releases().is_none());
    assert!(!app.currently_rating());
    assert_eq!(app.on_key(Key::Char('l')), Action::FetchReleases(String::from("1")));
    assert_eq!(app.on_key(Key::Enter), Action::Continue);
    assert!(!app.currently_rating());
}

#[test]
fn an_artist_without_releases_shows_an_empty_list() {
    let mut app = browsing(Vec::new(), Vec::new());
    assert_eq!(app.releases().unwrap().items().len(), 0);
    assert_eq!(cursor(&app), None);
    assert_eq!(app.get_selected_release(), None);
    app.on_down();
    app.on_up();
    assert_eq!(cursor(&app), None);
    app.start_rating();
    assert!(!app.currently_rating());
    assert_eq!(app.on_right(), None);
    assert!(!app.currently_rating());
}

#[test]
fn left_leaves_the_releases() {
    let mut app = browsing(three_releases(), Vec::new());
    app.on_left();
    assert!(app.releases().is_none());
    assert_eq!(app.get_selected_artist(), Some(&artist("artist-1", "First")));
    app.on_left();
    assert!(app.releases().is_none());
    assert_eq!(app.on_right(), Some(String::from("artist-1")));
}

#[test]
fn releases_arrive_only_where_they_are_awaited() {
    let mut app = browsing(three_releases(), Vec::new());
    app.show_releases(vec![item("z", PrimaryType::Ep, None)], Vec::new());
    assert_eq!(app.releases().unwrap().items().len(), 5);
    let mut revisit = App::list_rated(vec![entry("x", Some(3))]);
    revisit.show_releases(three_releases(), Vec::new());
    assert!(revisit.releases().is_none());
}

#[test]
fn a_rating_starts_at_one_and_an_abort_takes_it_away() {
    let mut app = browsing(three_releases(), Vec::new());
    assert_eq!(selected_rating(&app), None);
    app.start_rating();
    assert!(app.currently_rating());
    assert_eq!(selected_rating(&app), Some(1));
    app.abort_rating();
    assert!(!app.currently_rating());
    assert_eq!(selected_rating(&app), None);
}

#[test]
fn an_abort_brings_the_old_rating_back() {
    let mut app = browsing(three_releases(), Vec::new());
    app.on_down();
    assert_eq!(selected_rating(&app), Some(7));
    assert_eq!(app.on_key(Key::Enter), Action::Continue);
    assert!(app.currently_rating());
    assert_eq!(selected_rating(&app), Some(7));
    assert_eq!(app.on_key(Key::Char('3')), Action::Continue);
    assert_eq!(selected_rating(&app), Some(3));
    assert_eq!(app.on_key(Key::Esc), Action::Continue);
    assert_eq!(selected_rating(&app), Some(7));
    assert!(!app.currently_rating());
}

#[test]
fn a_confirmed_rating_is_handed_out_for_storage() {
    let mut app = browsing(three_releases(), Vec::new());
    app.on_down();
    app.start_rating();
    app.set_rating(3);
    let record = app.confirm_rating();
    assert_eq!(
        record,
        Some(RatingRecord {
            artist_id: String::from("artist-1"),
            artist_name: Some(String::from("First")),
            release_id: String::from("b"),
            title: String::from("B"),
            rating: Some(3),
        })
    );
    assert!(!app.currently_rating());
    assert_eq!(selected_rating(&app), Some(3));
    assert_eq!(app.confirm_rating(), None);
}

#[test]
fn enter_confirms_while_rating() {
    let mut app = browsing(three_releases(), Vec::new());
    assert_eq!(app.on_key(Key::Enter), Action::Continue);
    assert_eq!(app.on_key(Key::Char('8')), Action::Continue);
    assert_eq!(
        app.on_key(Key::Enter),
        Action::Store(RatingRecord {
            artist_id: String::from("artist-1"),
            artist_name: Some(String::from("First")),
            release_id: String::from("a"),
            title: String::from("A"),
            rating: Some(8),
        })
    );
    assert!(!app.currently_rating());
}

#[test]
fn digits_set_the_rating_while_rating() {
    let mut app = browsing(three_releases(), Vec::new());
    app.start_rating();
    assert_eq!(app.on_key(Key::Char('0')), Action::Continue);
    assert_eq!(selected_rating(&app), Some(10));
    let digits = ['1', '2', '3', '4', '5', '6', '7', '8', '9'];
    for (i, digit) in digits.iter().enumerate() {
        assert_eq!(app.on_key(Key::Char(*digit)), Action::Continue);
        assert_eq!(selected_rating(&app), Some(i as u8 + 1));
    }
    assert_eq!(app.on_key(Key::Char('x')), Action::Continue);
    assert_eq!(selected_rating(&app), Some(9));
}

#[test]
fn digits_do_nothing_while_browsing() {
    let mut app = browsing(three_releases(), Vec::new());
    app.on_down();
    assert_eq!(app.on_key(Key::Char('5')), Action::Continue);
    assert_eq!(selected_rating(&app), Some(7));
    app.set_rating(5);
    assert_eq!(selected_rating(&app), Some(7));
    app.abort_rating();
    assert_eq!(selected_rating(&app), Some(7));
    let mut search = App::search(vec![artist("1", "One")]).unwrap();
    assert_eq!(search.on_key(Key::Char('5')), Action::Continue);
    assert_eq!(search.on_key(Key::Esc), Action::Continue);
    assert!(!search.currently_rating());
}

#[test]
fn left_and_right_step_the_rating_while_rating() {
    let mut app = browsing(three_releases(), Vec::new());
    app.on_down();
    app.start_rating();
    assert_eq!(app.on_right(), None);
    assert_eq!(selected_rating(&app), Some(8));
    app.on_left();
    app.on_left();
    assert_eq!(selected_rating(&app), Some(6));
    app.set_rating(10);
    assert_eq!(app.on_key(Key::Right), Action::Continue);
    assert_eq!(selected_rating(&app), Some(10));
    app.set_rating(1);
    assert_eq!(app.on_key(Key::Char('h')), Action::Continue);
    assert_eq!(selected_rating(&app), Some(1));
    assert!(app.releases().is_some());
}

#[test]
fn the_cursor_stays_while_rating() {
    let mut app = browsing(three_releases(), Vec::new());
    app.start_rating();
    app.on_down();
    assert_eq!(cursor(&app), Some(1));
    app.on_up();
    assert_eq!(cursor(&app), Some(1));
    assert_eq!(app.on_key(Key::Down), Action::Continue);
    assert_eq!(app.on_key(Key::Up), Action::Continue);
    assert_eq!(cursor(&app), Some(1));
}

#[test]
fn right_starts_a_rating_over_releases() {
    let mut app = browsing(three_releases(), Vec::new());
    assert_eq!(app.on_key(Key::Right), Action::Continue);
    assert!(app.currently_rating());
    assert_eq!(selected_rating(&app), Some(1));
}

#[test]
fn stored_ratings_are_put_on_their_releases() {
    let app = browsing(
        three_releases(),
        vec![(String::from("c"), 9), (String::from("a"), 4), (String::from("nowhere"), 2)],
    );
    let ratings: Vec<Option<u8>> = app
        .releases()
        .unwrap()
        .items()
        .iter()
        .map(|item| match item {
            ListItemType::Release(release) => release.rating,
            ListItemType::ReleaseType(_) => None,
        })
        .collect();
    assert_eq!(ratings, vec![None, Some(4), Some(7), None, Some(9)]);
}

#[test]
fn two_stored_ratings_reach_two_releases_and_no_other() {
    let releases = vec![
        item("a", PrimaryType::Album, None),
        item("b", PrimaryType::Album, None),
        item("c", PrimaryType::Album, None),
        item("d", PrimaryType::Album, None),
    ];
    let merged = merge_ratings(releases, &vec![(String::from("b"), 6), (String::from("d"), 10)]);
    assert_eq!(
        merged,
        vec![
            item("a", PrimaryType::Album, None),
            item("b", PrimaryType::Album, Some(6)),
            item("c", PrimaryType::Album, None),
            item("d", PrimaryType::Album, Some(10)),
        ]
    );
}

#[test]
fn the_last_stored_rating_of_a_release_counts() {
    let merged = merge_ratings(
        vec![item("a", PrimaryType::Album, Some(2)), item("b", PrimaryType::Album, Some(5))],
        &vec![(String::from("a"), 3), (String::from("a"), 8)],
    );
    assert_eq!(
        merged,
        vec![item("a", PrimaryType::Album, Some(8)), item("b", PrimaryType::Album, Some(5))]
    );
    assert_eq!(merge_ratings(Vec::new(), &vec![(String::from("a"), 3)]), Vec::new());
}

#[test]
fn earlier_ratings_are_rated_again() {
    let mut app = App::list_rated(vec![entry("x", Some(3)), entry("y", None)]);
    assert_eq!(app.on_key(Key::Enter), Action::Continue);
    assert!(!app.currently_rating());
    assert_eq!(app.on_key(Key::Right), Action::Continue);
    assert!(app.currently_rating());
    assert_eq!(app.on_key(Key::Char('0')), Action::Continue);
    assert_eq!(app.get_selected_rated(), Some(&entry("x", Some(10))));
    assert_eq!(
        app.on_key(Key::Enter),
        Action::Store(RatingRecord {
            artist_id: String::from("artist-1"),
            artist_name: None,
            release_id: String::from("x"),
            title: String::from("X"),
            rating: Some(10),
        })
    );
    app.on_down();
    app.start_rating();
    assert_eq!(app.get_selected_rated(), Some(&entry("y", Some(1))));
    app.abort_rating();
    assert_eq!(app.get_selected_rated(), Some(&entry("y", None)));
    app.on_left();
    assert!(app.rated_list().is_some());
}

#[test]
fn an_empty_list_of_ratings_has_nothing_to_rate() {
    let mut app = App::list_rated(Vec::new());
    assert_eq!(app.on_right(), None);
    assert!(!app.currently_rating());
    app.start_rating();
    assert!(!app.currently_rating());
    app.set_rating(4);
    assert_eq!(app.confirm_rating(), None);
    app.on_down();
    app.on_up();
    assert_eq!(app.rated_list().unwrap().selected_index(), None);
}

#[test]
fn q_quits_in_every_state() {
    let mut app = browsing(three_releases(), Vec::new());
    assert_eq!(app.on_key(Key::Char('q')), Action::Quit);
    app.start_rating();
    assert_eq!(app.on_key(Key::Char('q')), Action::Quit);
    assert!(app.currently_rating());
    assert_eq!(cursor(&app), Some(1));
    assert_eq!(app.on_key(Key::Other), Action::Continue);
    assert!(app.currently_rating());
}
