//! What the lists of a session look like on the screen, row by row.

use crate::app::{artists_view, rated_view, sections_view, App, Session};
use crate::musicbrainz::{ArtistSearchResult, ArtistView};
use crate::rating::{Rated, RatedView};
use crate::sections::{ItemView, ListItemType};
use crate::ui::{rating_line, rating_line_of, LineView, RatingLine, Selection, StatefulList};
use vstd::prelude::*;

verus! {

/// Which of the lists of a session is on the screen.
#[derive(Clone, Copy, Debug, PartialEq, Eq, Structural)]
pub enum Screen {
    /// The releases of the selected artist.
    Releases,
    /// The artists that the search has found.
    Artists,
    /// The ratings given earlier.
    Ratings,
}

/// A row of the list of releases: the header of a section, or the line of a
/// release.
#[derive(Debug, PartialEq, Eq)]
pub enum Row {
    Header(String),
    Line(RatingLine),
}

/// What a [`Row`] stands for.
pub ghost enum RowView {
    Header(Seq<char>),
    Line(LineView),
}

impl View for Row {
    type V = RowView;

    open spec fn view(&self) -> RowView {
        match self {
            Row::Header(text) => RowView::Header(text@),
            Row::Line(line) => RowView::Line(line@),
        }
    }
}

/// The list that is on the screen: the releases while they are shown, else
/// the artists in a session that has them, else the earlier ratings.
pub open spec fn screen_of(session: Session) -> Screen {
    if session.releases is Some {
        Screen::Releases
    } else if session.search_results is Some {
        Screen::Artists
    } else {
        Screen::Ratings
    }
}

/// The row of one entry of the list of releases: a header reads as its
/// kind, a release as its year and title with its rating.
pub open spec fn release_row_of(item: ItemView, selected: bool, currently_rating: bool) -> RowView {
    match item {
        ItemView::ReleaseType(kind) => RowView::Header(kind.label()),
        ItemView::Release(release) => RowView::Line(
            rating_line_of(release.label(), release.rating, selected, currently_rating),
        ),
    }
}

/// The rows of the list of releases, one for each entry, with the row under
/// the cursor marked.
pub open spec fn release_rows_of(list: Selection<ItemView>, currently_rating: bool) -> Seq<RowView> {
    Seq::new(
        list.items.len(),
        |i: int| release_row_of(list.items[i], list.cursor == Some(i), currently_rating),
    )
}

/// The rows of the list of earlier ratings, one for each entry, with the row
/// under the cursor marked.
pub open spec fn rated_rows_of(list: Selection<RatedView>, currently_rating: bool) -> Seq<LineView> {
    Seq::new(
        list.items.len(),
        |i: int|
            rating_line_of(
                list.items[i].label(),
                list.items[i].rating,
                list.cursor == Some(i),
                currently_rating,
            ),
    )
}

/// The rows of the list of artists, one for each artist.
pub open spec fn artist_rows_of(list: Selection<ArtistView>) -> Seq<Seq<char>> {
    Seq::new(list.items.len(), |i: int| list.items[i].label())
}

/// The rows, each as what it stands for.
pub open spec fn rows_view(rows: Seq<Row>) -> Seq<RowView> {
    rows.map_values(|row: Row| row@)
}

/// The lines, each as what it stands for.
pub open spec fn lines_view(lines: Seq<RatingLine>) -> Seq<LineView> {
    lines.map_values(|line: RatingLine| line@)
}

/// The texts, each as the characters it holds.
pub open spec fn texts_view(texts: Seq<String>) -> Seq<Seq<char>> {
    texts.map_values(|text: String| text@)
}

/// Which of the lists of `app` is on the screen.
pub fn screen(app: &App) -> (shown: Screen)
    ensures
        shown == screen_of(app@),
{
    if app.releases().is_some() {
        Screen::Releases
    } else if app.search_results().is_some() {
        Screen::Artists
    } else {
        Screen::Ratings
    }
}

/// Lays out the list of releases: a row for each entry, the one under the
/// cursor marked.
pub fn release_rows(list: &StatefulList<ListItemType>, currently_rating: bool) -> (rows: Vec<Row>)
    ensures
        rows_view(rows@) == release_rows_of(sections_view(list@), currently_rating),
{
    let selected = list.selected_index();
    let items = list.items();
    let ghost wanted = release_rows_of(sections_view(list@), currently_rating);
    let mut rows: Vec<Row> = Vec::new();
    let mut i: usize = 0;
    while i < items.len()
        invariant
            i <= items.len(),
            items@ == list@.items,
            wanted == release_rows_of(sections_view(list@), currently_rating),
            match selected {
                Some(at) => list@.cursor == Some(at as int),
                None => list@.cursor is None,
            },
            rows_view(rows@) == wanted.take(i as int),
        decreases items.len() - i,
    {
        let ghost before = rows_view(rows@);
        let under_cursor = match selected {
            Some(at) => at == i,
            None => false,
        };
        let row = match &items[i] {
            ListItemType::ReleaseType(kind) => Row::Header(kind.label()),
            ListItemType::Release(release) => Row::Line(
                rating_line(
                    release.label().as_str(),
                    release.rating,
                    under_cursor,
                    currently_rating,
                ),
            ),
        };
        assert(row@ == wanted[i as int]);
        rows.push(row);
        assert(rows_view(rows@) == before.push(wanted[i as int]));
        assert(wanted.take(i + 1) == wanted.take(i as int).push(wanted[i as int]));
        i += 1;
    }
    assert(wanted.take(i as int) == wanted);
    rows
}

/// Lays out the list of earlier ratings: a line for each entry, the one
/// under the cursor marked.
pub fn rated_rows(list: &StatefulList<Rated>, currently_rating: bool) -> (rows: Vec<RatingLine>)
    ensures
        lines_view(rows@) == rated_rows_of(rated_view(list@), currently_rating),
{
    let selected = list.selected_index();
    let items = list.items();
    let ghost wanted = rated_rows_of(rated_view(list@), currently_rating);
    let mut rows: Vec<RatingLine> = Vec::new();
    let mut i: usize = 0;
    while i < items.len()
        invariant
            i <= items.len(),
            items@ == list@.items,
            wanted == rated_rows_of(rated_view(list@), currently_rating),
            match selected {
                Some(at) => list@.cursor == Some(at as int),
                None => list@.cursor is None,
            },
            lines_view(rows@) == wanted.take(i as int),
        decreases items.len() - i,
    {
        let ghost before = lines_view(rows@);
        let under_cursor = match selected {
            Some(at) => at == i,
            None => false,
        };
        let line = rating_line(
            items[i].label().as_str(),
            items[i].rating,
            under_cursor,
            currently_rating,
        );
        assert(line@ == wanted[i as int]);
        rows.push(line);
        assert(lines_view(rows@) == before.push(wanted[i as int]));
        assert(wanted.take(i + 1) == wanted.take(i as int).push(wanted[i as int]));
        i += 1;
    }
    assert(wanted.take(i as int) == wanted);
    rows
}

/// Lays out the list of artists: a row for each artist.
pub fn artist_rows(list: &StatefulList<ArtistSearchResult>) -> (rows: Vec<String>)
    ensures
        texts_view(rows@) == artist_rows_of(artists_view(list@)),
{
    let items = list.items();
    let ghost wanted = artist_rows_of(artists_view(list@));
    let mut rows: Vec<String> = Vec::new();
    let mut i: usize = 0;
    while i < items.len()
        invariant
            i <= items.len(),
            items@ == list@.items,
            wanted == artist_rows_of(artists_view(list@)),
            texts_view(rows@) == wanted.take(i as int),
        decreases items.len() - i,
    {
        let ghost before = texts_view(rows@);
        let text = items[i].label();
        assert(text@ == wanted[i as int]);
        rows.push(text);
        assert(texts_view(rows@) == before.push(wanted[i as int]));
        assert(wanted.take(i + 1) == wanted.take(i as int).push(wanted[i as int]));
        i += 1;
    }
    assert(wanted.take(i as int) == wanted);
    rows
}

} // verus!
