use rambt::musicbrainz::{PrimaryType, Release, ReleaseType, SecondaryType};
use rambt::sections::{insert_headers, ListItemType};

fn album_kind() -> ReleaseType {
    ReleaseType::new(Some(PrimaryType::Album), Vec::new())
}

fn single_kind() -> ReleaseType {
    ReleaseType::new(Some(PrimaryType::Single), Vec::new())
}

fn kind_release(kind: ReleaseType, title: &str) -> Release {
    Release { id: title.to_lowercase(), title: title.to_string(), year: 1999, group_type: kind, rating: None }
}

fn releases_of(items: Vec<ListItemType>) -> Vec<Release> {
    let mut releases = Vec::new();
    for item in items {
        if let ListItemType::Release(release) = item {
            releases.push(release);
        }
    }
    releases
}

#[test]
fn no_releases_give_no_entries() {
    assert_eq!(insert_headers(Vec::new()), Vec::new());
}

#[test]
fn two_kinds_give_two_sections() {
    let items = insert_headers(vec![
        kind_release(album_kind(), "A"),
        kind_release(album_kind(), "B"),
        kind_release(single_kind(), "C"),
    ]);
    assert_eq!(
        items,
        vec![
            ListItemType::ReleaseType(album_kind()),
            ListItemType::Release(kind_release(album_kind(), "A")),
            ListItemType::Release(kind_release(album_kind(), "B")),
            ListItemType::ReleaseType(single_kind()),
            ListItemType::Release(kind_release(single_kind(), "C")),
        ]
    );
}

#[test]
fn one_release_gets_one_header() {
    let items = insert_headers(vec![kind_release(single_kind(), "Only")]);
    assert_eq!(
        items,
        vec![ListItemType::ReleaseType(single_kind()), ListItemType::Release(kind_release(single_kind(), "Only"))]
    );
}

#[test]
fn a_kind_that_returns_opens_a_new_section() {
    let items = insert_headers(vec![
        kind_release(album_kind(), "A"),
        kind_release(single_kind(), "B"),
        kind_release(album_kind(), "C"),
    ]);
    assert_eq!(
        items,
        vec![
            ListItemType::ReleaseType(album_kind()),
            ListItemType::Release(kind_release(album_kind(), "A")),
            ListItemType::ReleaseType(single_kind()),
            ListItemType::Release(kind_release(single_kind(), "B")),
            ListItemType::ReleaseType(album_kind()),
            ListItemType::Release(kind_release(album_kind(), "C")),
        ]
    );
}

#[test]
fn the_order_of_secondary_categories_counts() {
    let live_remix = ReleaseType::new(
        Some(PrimaryType::Album),
        vec![SecondaryType::Live, SecondaryType::Remix],
    );
    let remix_live = ReleaseType::new(
        Some(PrimaryType::Album),
        vec![SecondaryType::Remix, SecondaryType::Live],
    );
    assert_ne!(live_remix, remix_live);
    let items = insert_headers(vec![
        kind_release(live_remix.clone(), "A"),
        kind_release(remix_live.clone(), "B"),
        kind_release(remix_live.clone(), "C"),
        kind_release(album_kind(), "D"),
        kind_release(ReleaseType::new(None, Vec::new()), "E"),
    ]);
    let headers: Vec<usize> = items
        .iter()
        .enumerate()
        .filter(|(_, item)| matches!(item, ListItemType::ReleaseType(_)))
        .map(|(i, _)| i)
        .collect();
    assert_eq!(headers, vec![0, 2, 5, 7]);
    assert_eq!(items.len(), 9);
}

#[test]
fn sectioning_again_changes_nothing() {
    let first = insert_headers(vec![
        kind_release(album_kind(), "A"),
        kind_release(album_kind(), "B"),
        kind_release(single_kind(), "C"),
        kind_release(single_kind(), "D"),
        kind_release(album_kind(), "E"),
    ]);
    let again = insert_headers(releases_of(insert_headers(vec![
        kind_release(album_kind(), "A"),
        kind_release(album_kind(), "B"),
        kind_release(single_kind(), "C"),
        kind_release(single_kind(), "D"),
        kind_release(album_kind(), "E"),
    ])));
    assert_eq!(first, again);
    let headers = first.iter().filter(|item| matches!(item, ListItemType::ReleaseType(_))).count();
    assert_eq!(headers, 3);
}

#[test]
fn the_releases_come_out_as_they_went_in() {
    let items = insert_headers(vec![
        kind_release(single_kind(), "Z"),
        kind_release(album_kind(), "Y"),
        kind_release(album_kind(), "X"),
    ]);
    assert_eq!(
        releases_of(items),
        vec![kind_release(single_kind(), "Z"), kind_release(album_kind(), "Y"), kind_release(album_kind(), "X")]
    );
}

#[test]
fn a_header_never_follows_a_header_nor_comes_last() {
    let items = insert_headers(vec![
        kind_release(album_kind(), "A"),
        kind_release(single_kind(), "B"),
        kind_release(single_kind(), "C"),
        kind_release(album_kind(), "D"),
    ]);
    assert!(matches!(items.first(), Some(ListItemType::ReleaseType(_))));
    assert!(matches!(items.last(), Some(ListItemType::Release(_))));
    for pair in items.windows(2) {
        assert!(!matches!(
            (&pair[0], &pair[1]),
            (ListItemType::ReleaseType(_), ListItemType::ReleaseType(_))
        ));
    }
}
