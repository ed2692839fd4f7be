use rambt::app::App;
use rambt::musicbrainz::{ArtistSearchResult, PrimaryType, Release, ReleaseType, SecondaryType};
use rambt::rating::Rated;
use rambt::screen::{artist_rows, rated_rows, release_rows, screen, Row, Screen};
use rambt::ui::{Highlight, RatingLine, StatefulList};

fn performer(name: &str, note: &str) -> ArtistSearchResult {
    ArtistSearchResult {
        id: name.to_lowercase(),
        name: name.to_string(),
        disambiguation: note.to_string(),
    }
}

fn record(title: &str, year: i32, kind: ReleaseType, rating: Option<u8>) -> Release {
    Release { id: title.to_lowercase(), title: title.to_string(), year, group_type: kind, rating }
}

fn plain(text: &str, stars: &str, missing: &str) -> RatingLine {
    RatingLine {
        text: text.to_string(),
        highlight: Highlight::Plain,
        stars: stars.to_string(),
        missing: missing.to_string(),
    }
}

fn shown_releases() -> App {
    let mut app = App::search(vec![performer("Nirvana", "90s US grunge band")]).unwrap();
    assert_eq!(app.on_right(), Some(String::from("nirvana")));
    app.show_releases(
        vec![
            record("Bleach", 1989, ReleaseType::new(Some(PrimaryType::Album), Vec::new()), None),
            record(
                "Unplugged",
                1994,
                ReleaseType::new(Some(PrimaryType::Album), vec![SecondaryType::Live]),
                None,
            ),
        ],
        vec![(String::from("unplugged"), 9)],
    );
    app
}

#[test]
fn the_screen_follows_the_session() {
    let mut app = App::search(vec![performer("Nirvana", "90s US grunge band")]).unwrap();
    assert_eq!(screen(&app), Screen::Artists);
    app.on_right();
    app.show_releases(Vec::new(), Vec::new());
    assert_eq!(screen(&app), Screen::Releases);
    app.on_left();
    assert_eq!(screen(&app), Screen::Artists);
    assert_eq!(screen(&App::list_rated(Vec::new())), Screen::Ratings);
}

#[test]
fn artists_are_listed_by_name_and_disambiguation() {
    let list = StatefulList::with_items(vec![
        performer("Nirvana", "90s US grunge band"),
        performer("Nirvana", "60s UK band"),
    ]);
    assert_eq!(
        artist_rows(&list),
        vec![String::from("Nirvana (90s US grunge band)"), String::from("Nirvana (60s UK band)")]
    );
    assert_eq!(artist_rows(&StatefulList::with_items(Vec::new())), Vec::<String>::new());
}

#[test]
fn releases_are_listed_under_their_headers() {
    let app = shown_releases();
    assert_eq!(
        release_rows(app.releases().unwrap(), app.currently_rating()),
        vec![
            Row::Header(String::from("Album")),
            Row::Line(RatingLine {
                text: String::from("> (1989) Bleach "),
                highlight: Highlight::Selected,
                stars: String::new(),
                missing: String::new(),
            }),
            Row::Header(String::from("Album + Live")),
            Row::Line(plain("  (1994) Unplugged ", "★ ★ ★ ★ ⯨", "⯩")),
        ]
    );
}

#[test]
fn the_line_that_is_rated_stands_out() {
    let mut app = shown_releases();
    app.on_down();
    app.start_rating();
    app.on_left();
    let rows = release_rows(app.releases().unwrap(), app.currently_rating());
    assert_eq!(rows[1], Row::Line(plain("  (1989) Bleach ", "", "")));
    assert_eq!(
        rows[3],
        Row::Line(RatingLine {
            text: String::from("> (1994) Unplugged "),
            highlight: Highlight::Rating,
            stars: String::from("★ ★ ★ ★ "),
            missing: String::from("★ "),
        })
    );
}

#[test]
fn earlier_ratings_are_listed_by_artist_and_title() {
    let mut list = StatefulList::with_items(vec![
        Rated {
            artist_id: String::from("a"),
            artist_name: String::from("Nirvana"),
            release_id: String::from("r1"),
            title: String::from("Bleach"),
            rating: Some(6),
        },
        Rated {
            artist_id: String::from("b"),
            artist_name: String::from("Low"),
            release_id: String::from("r2"),
            title: String::from("Trust"),
            rating: None,
        },
    ]);
    list.next();
    assert_eq!(
        rated_rows(&list, false),
        vec![
            plain("  Nirvana - Bleach ", "★ ★ ★ ", "★ ★ "),
            RatingLine {
                text: String::from("> Low - Trust "),
                highlight: Highlight::Selected,
                stars: String::new(),
                missing: String::new(),
            },
        ]
    );
    assert_eq!(rated_rows(&StatefulList::with_items(Vec::new()), true), Vec::new());
}

#[test]
fn an_empty_list_of_releases_has_no_rows() {
    let mut app = App::search(vec![performer("Nobody", "")]).unwrap();
    app.on_right();
    app.show_releases(Vec::new(), Vec::new());
    assert_eq!(release_rows(app.releases().unwrap(), false), Vec::new());
}
