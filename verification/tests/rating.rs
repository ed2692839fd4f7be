use rambt::musicbrainz::{Release, ReleaseType};
use rambt::rating::{Rate, Rated};

fn rated_release(rating: Option<u8>) -> Release {
    Release {
        id: String::from("id"),
        title: String::from("title"),
        year: 2001,
        group_type: ReleaseType::new(None, Vec::new()),
        rating,
    }
}

fn rated_entry(rating: Option<u8>) -> Rated {
    Rated {
        artist_id: String::from("artist"),
        artist_name: String::from("Artist"),
        release_id: String::from("release"),
        title: String::from("Title"),
        rating,
    }
}

#[test]
fn an_absent_rating_stays_absent() {
    let mut item = rated_release(None);
    item.increase_rating();
    assert_eq!(item.rating, None);
    item.decrease_rating();
    assert_eq!(item.rating, None);
    let mut entry = rated_entry(None);
    entry.increase_rating();
    assert_eq!(entry.rating, None);
    entry.decrease_rating();
    assert_eq!(entry.rating, None);
}

#[test]
fn decrease_takes_one_off_down_to_one() {
    for r in 2..=10u8 {
        let mut item = rated_release(Some(r));
        item.decrease_rating();
        assert_eq!(item.rating, Some(r - 1));
    }
    let mut item = rated_release(Some(1));
    item.decrease_rating();
    assert_eq!(item.rating, Some(1));
}

#[test]
fn increase_adds_one_up_to_ten() {
    for r in 1..=9u8 {
        let mut item = rated_entry(Some(r));
        item.increase_rating();
        assert_eq!(item.rating, Some(r + 1));
    }
    let mut item = rated_entry(Some(10));
    item.increase_rating();
    assert_eq!(item.rating, Some(10));
}

#[test]
fn ratings_off_the_scale_are_left_alone() {
    let mut high = rated_release(Some(255));
    high.increase_rating();
    assert_eq!(high.rating, Some(255));
    let mut low = rated_release(Some(0));
    low.decrease_rating();
    assert_eq!(low.rating, Some(0));
}

#[test]
fn set_rating_assigns_whatever_it_is_given() {
    let mut item = rated_release(None);
    item.set_rating(7);
    assert_eq!(item.rating, Some(7));
    item.set_rating(1);
    assert_eq!(item.rating, Some(1));
    item.set_rating(10);
    assert_eq!(item.rating, Some(10));
    item.set_rating(42);
    assert_eq!(item.rating, Some(42));
}

#[test]
fn a_rating_changes_nothing_else() {
    let mut entry = rated_entry(Some(4));
    *entry.rating() = Some(9);
    assert_eq!(entry, Rated { rating: Some(9), ..rated_entry(None) });
    let mut item = rated_release(Some(4));
    item.increase_rating();
    assert_eq!(item, rated_release(Some(5)));
}

#[test]
fn a_rated_entry_reads_as_artist_and_title() {
    assert_eq!(rated_entry(None).label(), "Artist - Title");
}
