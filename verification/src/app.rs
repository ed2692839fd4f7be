//! The session: what is on the screen, whether a rating is being edited, and
//! how each command changes that.

use crate::musicbrainz::{ArtistSearchResult, ArtistView, Release, ReleaseView};
use crate::rating::{decreased, increased, Rate, Rated, RatedView};
use crate::sections::{
    in_place, insert_headers, is_sectioned, lemma_first_release, lemma_rating_keeps_sections,
    lemma_releases_of_with_headers, lemma_sections_ends, lemma_with_headers_sectioned,
    releases_view, with_headers, ItemView, ListItemType,
};
use crate::ui::{lemma_map_commutes, Selection, StatefulList};
use vstd::prelude::*;

verus! {

/// What an [`App`] stands for.
///
/// `search_results` is set in a session that started with a search, and
/// `rated_list` in one that goes over earlier ratings. `releases` is set while
/// the releases of the selected artist are on the screen.
pub ghost struct Session {
    pub search_results: Option<Selection<ArtistView>>,
    pub releases: Option<Selection<ItemView>>,
    pub rated_list: Option<Selection<RatedView>>,
    pub currently_rating: bool,
    pub previous_rating: Option<u8>,
}

/// A rating to be written to storage.
///
/// `artist_name` is set when the artist has to be stored along with the
/// rating, and absent when the rating comes from the list of earlier ratings,
/// whose artists are stored already.
#[derive(Debug, PartialEq, Eq)]
pub struct RatingRecord {
    pub artist_id: String,
    pub artist_name: Option<String>,
    pub release_id: String,
    pub title: String,
    pub rating: Option<u8>,
}

/// What a [`RatingRecord`] stands for.
pub ghost struct RecordView {
    pub artist_id: Seq<char>,
    pub artist_name: Option<Seq<char>>,
    pub release_id: Seq<char>,
    pub title: Seq<char>,
    pub rating: Option<u8>,
}

impl View for RatingRecord {
    type V = RecordView;

    open spec fn view(&self) -> RecordView {
        RecordView {
            artist_id: self.artist_id@,
            artist_name: match self.artist_name {
                Some(name) => Some(name@),
                None => None,
            },
            release_id: self.release_id@,
            title: self.title@,
            rating: self.rating,
        }
    }
}

/// The stored rating that applies to the release `id`: the last one in
/// `ratings` under that identifier, or `fallback` when there is none.
pub open spec fn stored_rating(ratings: Seq<(Seq<char>, u8)>, id: Seq<char>, fallback: Option<u8>)
    -> Option<u8>
    decreases ratings.len(),
{
    if ratings.len() == 0 {
        fallback
    } else if ratings.last().0 == id {
        Some(ratings.last().1)
    } else {
        stored_rating(ratings.drop_last(), id, fallback)
    }
}

/// The releases with the stored ratings put on those whose identifier has
/// one; every other release keeps the rating it has.
pub open spec fn merged(releases: Seq<ReleaseView>, ratings: Seq<(Seq<char>, u8)>) -> Seq<
    ReleaseView,
> {
    Seq::new(
        releases.len(),
        |i: int|
            ReleaseView {
                rating: stored_rating(ratings, releases[i].id, releases[i].rating),
                ..releases[i]
            },
    )
}

/// A release without a stored rating keeps the rating it has, and a rating
/// that differs from it was stored under the identifier of the release.
pub proof fn lemma_stored_rating(ratings: Seq<(Seq<char>, u8)>, id: Seq<char>, fallback: Option<u8>)
    ensures
        (forall|i: int| 0 <= i < ratings.len() ==> ratings[i].0 != id) ==> stored_rating(
            ratings,
            id,
            fallback,
        ) == fallback,
        (exists|i: int| 0 <= i < ratings.len() && ratings[i].0 == id) ==> exists|i: int|
            0 <= i < ratings.len() && ratings[i].0 == id && stored_rating(ratings, id, fallback)
                == Some(ratings[i].1),
    decreases ratings.len(),
{
    if ratings.len() > 0 {
        let before = ratings.drop_last();
        lemma_stored_rating(before, id, fallback);
        if ratings.last().0 == id {
            assert(ratings[ratings.len() - 1].0 == id);
        } else {
            if exists|i: int| 0 <= i < ratings.len() && ratings[i].0 == id {
                let i = choose|i: int| 0 <= i < ratings.len() && ratings[i].0 == id;
                assert(before[i].0 == id);
                let j = choose|j: int|
                    0 <= j < before.len() && before[j].0 == id && stored_rating(
                        before,
                        id,
                        fallback,
                    ) == Some(before[j].1);
                assert(ratings[j] == before[j]);
            }
        }
    }
}

/// Putting the stored ratings on the releases changes nothing but ratings:
/// there are as many releases as before, in the same order, each with its
/// identifier, title, year and kind.
pub proof fn lemma_merged_keeps_releases(releases: Seq<ReleaseView>, ratings: Seq<(Seq<char>, u8)>)
    ensures
        merged(releases, ratings).len() == releases.len(),
        forall|i: int|
            0 <= i < releases.len() ==> (#[trigger] merged(releases, ratings)[i]) == (ReleaseView {
                rating: merged(releases, ratings)[i].rating,
                ..releases[i]
            }),
        ratings.len() == 0 ==> merged(releases, ratings) == releases,
{
    if ratings.len() == 0 {
        assert(merged(releases, ratings) =~= releases);
    }
}

/// The stored ratings, each as an identifier and a rating.
pub open spec fn ratings_view(ratings: Seq<(String, u8)>) -> Seq<(Seq<char>, u8)> {
    ratings.map_values(|rating: (String, u8)| (rating.0@, rating.1))
}

/// The list of artists as what it stands for.
pub open spec fn artists_view(list: Selection<ArtistSearchResult>) -> Selection<ArtistView> {
    list.map(|artist: ArtistSearchResult| artist@)
}

/// The sectioned list as what it stands for.
pub open spec fn sections_view(list: Selection<ListItemType>) -> Selection<ItemView> {
    list.map(|item: ListItemType| item@)
}

/// The list of earlier ratings as what it stands for.
pub open spec fn rated_view(list: Selection<Rated>) -> Selection<RatedView> {
    list.map(|entry: Rated| entry@)
}

impl Session {
    /// The session that starts from the artists a search has found.
    pub open spec fn searching(artists: Seq<ArtistView>) -> Session {
        Session {
            search_results: Some(Selection::start(artists)),
            releases: None,
            rated_list: None,
            currently_rating: false,
            previous_rating: None,
        }
    }

    /// The session that goes over the ratings given earlier.
    pub open spec fn revisiting(entries: Seq<RatedView>) -> Session {
        Session {
            search_results: None,
            releases: None,
            rated_list: Some(Selection::start(entries)),
            currently_rating: false,
            previous_rating: None,
        }
    }

    /// The artist under the cursor.
    pub open spec fn selected_artist(self) -> Option<ArtistView> {
        match self.search_results {
            Some(list) => list.selected(),
            None => None,
        }
    }

    /// The release under the cursor; nothing when the cursor is on a header.
    pub open spec fn selected_release(self) -> Option<ReleaseView> {
        match self.releases {
            Some(list) => match list.selected() {
                Some(ItemView::Release(release)) => Some(release),
                _ => None,
            },
            None => None,
        }
    }

    /// The earlier rating under the cursor.
    pub open spec fn selected_rated(self) -> Option<RatedView> {
        match self.rated_list {
            Some(list) => list.selected(),
            None => None,
        }
    }

    /// The rating that an edit would change, if there is something to rate
    /// under the cursor: the selected release, or else the selected earlier
    /// rating.
    pub open spec fn target(self) -> Option<Option<u8>> {
        match self.selected_release() {
            Some(release) => Some(release.rating),
            None => match self.selected_rated() {
                Some(entry) => Some(entry.rating),
                None => None,
            },
        }
    }

    /// The session with `rating` on what an edit would change, and everything
    /// else as it is.
    pub open spec fn with_target(self, rating: Option<u8>) -> Session {
        match self.selected_release() {
            Some(release) => Session {
                releases: Some(
                    self.releases->0.with_selected(
                        ItemView::Release(ReleaseView { rating, ..release }),
                    ),
                ),
                ..self
            },
            None => match self.selected_rated() {
                Some(entry) => Session {
                    rated_list: Some(
                        self.rated_list->0.with_selected(RatedView { rating, ..entry }),
                    ),
                    ..self
                },
                None => self,
            },
        }
    }

    /// A move to the next entry. Nothing moves while a rating is edited. In a
    /// list of releases the cursor passes over a header.
    pub open spec fn on_down(self) -> Session {
        if self.currently_rating {
            self
        } else if let Some(list) = self.releases {
            let moved = list.next();
            Session {
                releases: Some(
                    if moved.selected() matches Some(ItemView::ReleaseType(_)) {
                        moved.next()
                    } else {
                        moved
                    },
                ),
                ..self
            }
        } else if let Some(list) = self.search_results {
            Session { search_results: Some(list.next()), ..self }
        } else if let Some(list) = self.rated_list {
            Session { rated_list: Some(list.next()), ..self }
        } else {
            self
        }
    }

    /// A move to the previous entry. Nothing moves while a rating is edited.
    /// In a list of releases the cursor passes over a header.
    pub open spec fn on_up(self) -> Session {
        if self.currently_rating {
            self
        } else if let Some(list) = self.releases {
            let moved = list.previous();
            Session {
                releases: Some(
                    if moved.selected() matches Some(ItemView::ReleaseType(_)) {
                        moved.previous()
                    } else {
                        moved
                    },
                ),
                ..self
            }
        } else if let Some(list) = self.search_results {
            Session { search_results: Some(list.previous()), ..self }
        } else if let Some(list) = self.rated_list {
            Session { rated_list: Some(list.previous()), ..self }
        } else {
            self
        }
    }

    /// The command to the left: one step down for the rating that is edited;
    /// otherwise back from the releases to the artists.
    pub open spec fn on_left(self) -> Session {
        if self.currently_rating {
            match self.target() {
                Some(rating) => self.with_target(decreased(rating)),
                None => self,
            }
        } else {
            Session { releases: None, ..self }
        }
    }

    /// Whether the command to the right asks for the releases of the
    /// selected artist: no rating is edited, no releases are shown and an
    /// artist is selected.
    pub open spec fn wants_releases(self) -> bool {
        !self.currently_rating && self.releases is None && self.selected_artist() is Some
    }

    /// The identifier of the artist whose releases the command to the right
    /// asks for, if it asks for any.
    pub open spec fn wanted_artist(self) -> Option<Seq<char>> {
        if self.wants_releases() {
            Some(self.selected_artist()->0.id)
        } else {
            None
        }
    }

    /// The command to the right: one step up for the rating that is edited;
    /// nothing yet where the releases of an artist are asked for; otherwise
    /// the start of a rating.
    pub open spec fn on_right(self) -> Session {
        if self.currently_rating {
            match self.target() {
                Some(rating) => self.with_target(increased(rating)),
                None => self,
            }
        } else if self.wants_releases() {
            self
        } else {
            self.start_rating()
        }
    }

    /// The releases of the selected artist arrive: the stored ratings are put
    /// on them, they are sectioned, and the cursor goes to the first release.
    /// Nothing changes unless the session is waiting for them.
    pub open spec fn show_releases(self, releases: Seq<ReleaseView>, ratings: Seq<(Seq<char>, u8)>)
        -> Session {
        if self.wants_releases() {
            Session {
                releases: Some(Selection::start(with_headers(merged(releases, ratings))).next()),
                ..self
            }
        } else {
            self
        }
    }

    /// The start of a rating: the rating under the cursor is remembered, and
    /// an absent one becomes 1. Nothing changes where there is nothing to
    /// rate under the cursor.
    pub open spec fn start_rating(self) -> Session {
        match self.target() {
            Some(rating) => {
                let begun = Session { currently_rating: true, previous_rating: rating, ..self };
                if rating is None {
                    begun.with_target(Some(1u8))
                } else {
                    begun
                }
            },
            None => self,
        }
    }

    /// A rating typed in while a rating is edited.
    pub open spec fn set_rating(self, rating: u8) -> Session {
        if self.currently_rating {
            self.with_target(Some(rating))
        } else {
            self
        }
    }

    /// The end of an edit that is kept.
    pub open spec fn confirm_rating(self) -> Session {
        Session { currently_rating: false, ..self }
    }

    /// What has to be stored when the edit is kept: for a release of a found
    /// artist the rating together with the artist, for an earlier rating the
    /// rating alone. Nothing when no rating is edited.
    pub open spec fn to_store(self) -> Option<RecordView> {
        if !self.currently_rating {
            None
        } else {
            match self.selected_artist() {
                Some(artist) => match self.selected_release() {
                    Some(release) => Some(
                        RecordView {
                            artist_id: artist.id,
                            artist_name: Some(artist.name),
                            release_id: release.id,
                            title: release.title,
                            rating: release.rating,
                        },
                    ),
                    None => None,
                },
                None => match self.selected_rated() {
                    Some(entry) => Some(
                        RecordView {
                            artist_id: entry.artist_id,
                            artist_name: None,
                            release_id: entry.release_id,
                            title: entry.title,
                            rating: entry.rating,
                        },
                    ),
                    None => None,
                },
            }
        }
    }

    /// The end of an edit that is dropped: the remembered rating returns.
    pub open spec fn abort_rating(self) -> Session {
        if self.currently_rating {
            Session { currently_rating: false, ..self.with_target(self.previous_rating) }
        } else {
            self
        }
    }
}

/// A key that the user has pressed.
#[derive(Clone, Copy, Debug, PartialEq, Eq, Structural)]
pub enum Key {
    Char(char),
    Left,
    Right,
    Up,
    Down,
    Enter,
    Esc,
    Other,
}

/// What a key asks for.
#[derive(Clone, Copy, Debug, PartialEq, Eq, Structural)]
pub enum Command {
    Quit,
    Left,
    Right,
    Down,
    Up,
    Rate(u8),
    Enter,
    Cancel,
    Nothing,
}

/// What is left to do outside the session after a key.
#[derive(Debug, PartialEq, Eq)]
pub enum Action {
    /// Nothing: wait for the next key.
    Continue,
    /// End the session.
    Quit,
    /// Fetch the releases of the artist with this identifier and the ratings
    /// stored for that artist, and hand both to [`App::show_releases`].
    FetchReleases(String),
    /// Write this rating to storage.
    Store(RatingRecord),
}

/// What an [`Action`] stands for.
pub ghost enum ActionView {
    Continue,
    Quit,
    FetchReleases(Seq<char>),
    Store(RecordView),
}

impl View for Action {
    type V = ActionView;

    open spec fn view(&self) -> ActionView {
        match self {
            Action::Continue => ActionView::Continue,
            Action::Quit => ActionView::Quit,
            Action::FetchReleases(id) => ActionView::FetchReleases(id@),
            Action::Store(record) => ActionView::Store(record@),
        }
    }
}

/// The rating that a digit key stands for: the digits 1 to 9 for themselves
/// and 0 for the rating 10.
pub open spec fn digit_rating(c: char) -> Option<u8> {
    match c {
        '0' => Some(10u8),
        '1' => Some(1u8),
        '2' => Some(2u8),
        '3' => Some(3u8),
        '4' => Some(4u8),
        '5' => Some(5u8),
        '6' => Some(6u8),
        '7' => Some(7u8),
        '8' => Some(8u8),
        '9' => Some(9u8),
        _ => None,
    }
}

/// What `key` asks for: `q` ends the session; the arrows and `h`, `j`, `k`,
/// `l` move; a digit is a rating; Enter and Esc end an edit.
pub open spec fn command_of(key: Key) -> Command {
    match key {
        Key::Char('q') => Command::Quit,
        Key::Char('h') | Key::Left => Command::Left,
        Key::Char('l') | Key::Right => Command::Right,
        Key::Char('j') | Key::Down => Command::Down,
        Key::Char('k') | Key::Up => Command::Up,
        Key::Char(c) => match digit_rating(c) {
            Some(rating) => Command::Rate(rating),
            None => Command::Nothing,
        },
        Key::Enter => Command::Enter,
        Key::Esc => Command::Cancel,
        Key::Other => Command::Nothing,
    }
}

/// The rating that a digit key stands for, and nothing for any other
/// character.
pub fn rating_for_digit(c: char) -> (rating: Option<u8>)
    ensures
        rating == digit_rating(c),
{
    match c {
        '0' => Some(10),
        '1' => Some(1),
        '2' => Some(2),
        '3' => Some(3),
        '4' => Some(4),
        '5' => Some(5),
        '6' => Some(6),
        '7' => Some(7),
        '8' => Some(8),
        '9' => Some(9),
        _ => None,
    }
}

/// What `key` asks for.
pub fn command_for(key: Key) -> (command: Command)
    ensures
        command == command_of(key),
{
    match key {
        Key::Char('q') => Command::Quit,
        Key::Char('h') | Key::Left => Command::Left,
        Key::Char('l') | Key::Right => Command::Right,
        Key::Char('j') | Key::Down => Command::Down,
        Key::Char('k') | Key::Up => Command::Up,
        Key::Char(c) => match rating_for_digit(c) {
            Some(rating) => Command::Rate(rating),
            None => Command::Nothing,
        },
        Key::Enter => Command::Enter,
        Key::Esc => Command::Cancel,
        Key::Other => Command::Nothing,
    }
}

/// A digit key always stands for a rating between 1 and 10.
pub proof fn lemma_digit_ratings_on_scale(c: char)
    ensures
        digit_rating(c) matches Some(rating) ==> 1 <= rating <= 10,
        digit_rating(c) is Some <==> '0' <= c <= '9',
{
}

/// A change to a rating.
pub enum Edit {
    /// The rating becomes the given one.
    Assign(u8),
    /// The rating goes one step up.
    Raise,
    /// The rating goes one step down.
    Lower,
    /// The rating returns to what it was, which may be no rating.
    Restore(Option<u8>),
}

impl Edit {
    /// The rating after the change.
    pub open spec fn applied(self, rating: Option<u8>) -> Option<u8> {
        match self {
            Edit::Assign(r) => Some(r),
            Edit::Raise => increased(rating),
            Edit::Lower => decreased(rating),
            Edit::Restore(previous) => previous,
        }
    }

    /// Makes the change on `item`; nothing but its rating changes.
    pub fn apply<R: Rate>(self, item: &mut R)
        ensures
            *final(item) == old(item).with_rating(self.applied(old(item).current_rating())),
            final(item).current_rating() == self.applied(old(item).current_rating()),
    {
        match self {
            Edit::Assign(r) => item.set_rating(r),
            Edit::Raise => item.increase_rating(),
            Edit::Lower => item.decrease_rating(),
            Edit::Restore(previous) => {
                *item.rating() = previous;
            },
        }
    }
}

impl Session {
    /// The session after `key`. Enter keeps the edit while a rating is
    /// edited, and starts a rating while releases are shown.
    pub open spec fn on_key(self, key: Key) -> Session {
        match command_of(key) {
            Command::Quit => self,
            Command::Left => self.on_left(),
            Command::Right => self.on_right(),
            Command::Down => self.on_down(),
            Command::Up => self.on_up(),
            Command::Rate(rating) => self.set_rating(rating),
            Command::Enter => if self.currently_rating {
                self.confirm_rating()
            } else if self.releases is Some {
                self.start_rating()
            } else {
                self
            },
            Command::Cancel => self.abort_rating(),
            Command::Nothing => self,
        }
    }

    /// What is left to do outside the session after `key`.
    pub open spec fn action(self, key: Key) -> ActionView {
        match command_of(key) {
            Command::Quit => ActionView::Quit,
            Command::Right => match self.wanted_artist() {
                Some(id) => ActionView::FetchReleases(id),
                None => ActionView::Continue,
            },
            Command::Enter => match self.to_store() {
                Some(record) => ActionView::Store(record),
                None => ActionView::Continue,
            },
            _ => ActionView::Continue,
        }
    }

    /// The session after `edit` on what an edit would change; the session
    /// itself where there is nothing to rate under the cursor.
    pub open spec fn edited(self, edit: Edit) -> Session {
        match self.target() {
            Some(rating) => self.with_target(edit.applied(rating)),
            None => self,
        }
    }
}

impl Session {
    /// What holds of every session that the commands can reach: each list has
    /// its cursor in place; either artists or earlier ratings are there,
    /// never both; an artist is selected wherever there are artists;
    /// releases are shown only over artists, they are a list of sections and
    /// the cursor is on a release, never on a header; and while a rating is
    /// edited there is something to rate under the cursor.
    pub open spec fn wf(self) -> bool {
        &&& self.search_results matches Some(list) ==> list.wf() && list.cursor is Some
        &&& self.releases matches Some(list) ==> {
            &&& list.wf()
            &&& is_sectioned(list.items)
            &&& list.selected() is Some ==> list.selected()->0 is Release
            &&& self.search_results is Some
        }
        &&& self.rated_list matches Some(list) ==> list.wf()
        &&& self.search_results is Some <==> self.rated_list is None
        &&& self.currently_rating ==> self.target() is Some
    }
}

/// Both kinds of session start well formed.
pub proof fn lemma_sessions_start_wf(artists: Seq<ArtistView>, entries: Seq<RatedView>)
    ensures
        artists.len() > 0 ==> Session::searching(artists).wf(),
        Session::revisiting(entries).wf(),
{
}

/// A new rating on what an edit would change keeps a session well formed,
/// and leaves the same thing to rate under the cursor.
pub proof fn lemma_with_target_keeps_wf(s: Session, rating: Option<u8>)
    requires
        s.wf(),
    ensures
        s.with_target(rating).wf(),
        s.target() is Some ==> s.with_target(rating).target() == Some(rating),
        s.target() is None ==> s.with_target(rating) == s,
{
    if let Some(release) = s.selected_release() {
        let list = s.releases->0;
        lemma_rating_keeps_sections(list.items, list.cursor->0, rating);
    }
}

/// Moving the cursor keeps a session well formed: among releases the cursor
/// comes to rest on a release.
pub proof fn lemma_moves_keep_wf(s: Session)
    requires
        s.wf(),
    ensures
        s.on_down().wf(),
        s.on_up().wf(),
        s.currently_rating ==> s.on_down() == s && s.on_up() == s,
{
    if !s.currently_rating {
        if let Some(list) = s.releases {
            if let Some(i) = list.cursor {
                lemma_sections_ends(list.items);
                let down = list.next();
                assert(in_place(list.items, down.cursor->0));
                let up = list.previous();
                assert(in_place(list.items, up.cursor->0));
            }
        }
    }
}

/// Starting, changing and ending an edit keep a session well formed, and so
/// does leaving the releases.
pub proof fn lemma_edits_keep_wf(s: Session, rating: u8)
    requires
        s.wf(),
    ensures
        s.on_left().wf(),
        s.on_right().wf(),
        s.start_rating().wf(),
        s.set_rating(rating).wf(),
        s.confirm_rating().wf(),
        s.abort_rating().wf(),
{
    assert(s.start_rating().wf()) by {
        if let Some(current) = s.target() {
            let begun = Session { currently_rating: true, previous_rating: current, ..s };
            lemma_with_target_keeps_wf(begun, Some(1u8));
        }
    }
    assert(s.on_left().wf()) by {
        if let Some(current) = s.target() {
            lemma_with_target_keeps_wf(s, decreased(current));
        }
    }
    assert(s.on_right().wf()) by {
        if let Some(current) = s.target() {
            lemma_with_target_keeps_wf(s, increased(current));
        }
    }
    assert(s.set_rating(rating).wf()) by {
        lemma_with_target_keeps_wf(s, Some(rating));
    }
    assert(s.abort_rating().wf()) by {
        lemma_with_target_keeps_wf(s, s.previous_rating);
    }
}

/// The arrival of the releases that were asked for keeps a session well
/// formed: they come as a list of sections with the cursor on the first
/// release.
pub proof fn lemma_show_releases_keeps_wf(
    s: Session,
    releases: Seq<ReleaseView>,
    ratings: Seq<(Seq<char>, u8)>,
)
    requires
        s.wf(),
    ensures
        s.show_releases(releases, ratings).wf(),
        s.wants_releases() && releases.len() > 0 ==> s.show_releases(
            releases,
            ratings,
        ).selected_release() == Some(merged(releases, ratings)[0]),
{
    let items = with_headers(merged(releases, ratings));
    lemma_with_headers_sectioned(merged(releases, ratings));
    lemma_releases_of_with_headers(merged(releases, ratings));
    if items.len() > 0 {
        lemma_sections_ends(items);
    }
    if releases.len() > 0 {
        lemma_first_release(merged(releases, ratings));
    }
}

/// Every key keeps a session well formed.
pub proof fn lemma_keys_keep_wf(s: Session, key: Key)
    requires
        s.wf(),
    ensures
        s.on_key(key).wf(),
{
    lemma_moves_keep_wf(s);
    match command_of(key) {
        Command::Rate(rating) => {
            lemma_edits_keep_wf(s, rating);
        },
        _ => {
            lemma_edits_keep_wf(s, 1);
        },
    }
}

/// Dropping an edit right after it started leaves everything as it was but
/// the remembered rating: a release that had no rating has none again.
pub proof fn lemma_abort_undoes_start(s: Session)
    requires
        s.wf(),
        !s.currently_rating,
    ensures
        s.start_rating().abort_rating() == match s.target() {
            Some(rating) => Session { previous_rating: rating, ..s },
            None => s,
        },
{
    if let Some(rating) = s.target() {
        if let Some(release) = s.selected_release() {
            let list = s.releases->0;
            let i = list.cursor->0;
            assert(list.items.update(i, list.items[i]) == list.items);
            let one = ItemView::Release(ReleaseView { rating: Some(1u8), ..release });
            assert(list.items.update(i, one).update(i, list.items[i]) == list.items);
        } else {
            let list = s.rated_list->0;
            let i = list.cursor->0;
            let entry = list.items[i];
            assert(list.items.update(i, entry) == list.items);
            let one = RatedView { rating: Some(1u8), ..entry };
            assert(list.items.update(i, one).update(i, entry) == list.items);
        }
    }
}

/// Whatever the keys do to the rating while it is edited, dropping the edit
/// brings back the rating that was there when the edit started.
pub proof fn lemma_abort_restores(s: Session)
    requires
        s.wf(),
        s.currently_rating,
    ensures
        s.abort_rating().target() == Some(s.previous_rating),
        !s.abort_rating().currently_rating,
{
    lemma_with_target_keeps_wf(s, s.previous_rating);
}

/// Keeping an edit stores the rating that is under the cursor, and there is
/// always something to store.
pub proof fn lemma_confirm_stores_target(s: Session)
    requires
        s.wf(),
        s.currently_rating,
    ensures
        s.to_store() matches Some(record) && Some(record.rating) == s.target(),
        !s.confirm_rating().currently_rating,
        s.confirm_rating().target() == s.target(),
{
}

/// One session of browsing and rating.
pub struct App {
    search_results: Option<StatefulList<ArtistSearchResult>>,
    releases: Option<StatefulList<ListItemType>>,
    rated_list: Option<StatefulList<Rated>>,
    currently_rating: bool,
    previous_rating: Option<u8>,
}

impl View for App {
    type V = Session;

    closed spec fn view(&self) -> Session {
        Session {
            search_results: match self.search_results {
                Some(list) => Some(artists_view(list@)),
                None => None,
            },
            releases: match self.releases {
                Some(list) => Some(sections_view(list@)),
                None => None,
            },
            rated_list: match self.rated_list {
                Some(list) => Some(rated_view(list@)),
                None => None,
            },
            currently_rating: self.currently_rating,
            previous_rating: self.previous_rating,
        }
    }
}

impl App {
    /// Starts a session from the artists that a search has found, with the
    /// cursor on the first of them. Without any artist there is no session.
    pub fn search(search_results: Vec<ArtistSearchResult>) -> (app: Option<App>)
        ensures
            app is None <==> search_results@.len() == 0,
            app matches Some(app) ==> app@ == Session::searching(
                search_results@.map_values(|artist: ArtistSearchResult| artist@),
            ) && app@.wf(),
    {
        if search_results.len() == 0 {
            return None;
        }
        let ghost artists = search_results@;
        let list = StatefulList::with_items(search_results);
        proof {
            lemma_map_commutes(list@, |artist: ArtistSearchResult| artist@, artists[0]);
        }
        Some(
            App {
                search_results: Some(list),
                releases: None,
                rated_list: None,
                currently_rating: false,
                previous_rating: None,
            },
        )
    }

    /// Starts a session that goes over the ratings given earlier, with the
    /// cursor on the first of them.
    pub fn list_rated(entries: Vec<Rated>) -> (app: App)
        ensures
            app@ == Session::revisiting(entries@.map_values(|entry: Rated| entry@)),
            app@.wf(),
    {
        let ghost all = entries@;
        let list = StatefulList::with_items(entries);
        proof {
            if all.len() > 0 {
                lemma_map_commutes(list@, |entry: Rated| entry@, all[0]);
            }
        }
        App {
            search_results: None,
            releases: None,
            rated_list: Some(list),
            currently_rating: false,
            previous_rating: None,
        }
    }

    /// The artists that the search has found, in a session that started with
    /// a search.
    pub fn search_results(&self) -> (list: Option<&StatefulList<ArtistSearchResult>>)
        ensures
            match list {
                Some(list) => self@.search_results == Some(artists_view(list@)),
                None => self@.search_results is None,
            },
    {
        self.search_results.as_ref()
    }

    /// The sectioned releases of the selected artist, while they are shown.
    pub fn releases(&self) -> (list: Option<&StatefulList<ListItemType>>)
        ensures
            match list {
                Some(list) => self@.releases == Some(sections_view(list@)),
                None => self@.releases is None,
            },
    {
        self.releases.as_ref()
    }

    /// The ratings given earlier, in a session that goes over them.
    pub fn rated_list(&self) -> (list: Option<&StatefulList<Rated>>)
        ensures
            match list {
                Some(list) => self@.rated_list == Some(rated_view(list@)),
                None => self@.rated_list is None,
            },
    {
        self.rated_list.as_ref()
    }

    /// Whether a rating is being edited.
    pub fn currently_rating(&self) -> (rating: bool)
        ensures
            rating == self@.currently_rating,
    {
        self.currently_rating
    }

    /// The artist under the cursor.
    pub fn get_selected_artist(&self) -> (artist: Option<&ArtistSearchResult>)
        ensures
            match artist {
                Some(artist) => self@.selected_artist() == Some(artist@),
                None => self@.selected_artist() is None,
            },
    {
        match &self.search_results {
            Some(list) => {
                let artist = list.get_selected();
                proof {
                    if let Some(found) = artist {
                        lemma_map_commutes(list@, |artist: ArtistSearchResult| artist@, *found);
                    }
                }
                artist
            },
            None => None,
        }
    }

    /// The release under the cursor; nothing when the cursor is on a header.
    pub fn get_selected_release(&self) -> (release: Option<&Release>)
        ensures
            match release {
                Some(release) => self@.selected_release() == Some(release@),
                None => self@.selected_release() is None,
            },
    {
        match &self.releases {
            Some(list) => {
                let item = list.get_selected();
                proof {
                    if let Some(found) = item {
                        lemma_map_commutes(list@, |item: ListItemType| item@, *found);
                    }
                }
                match item {
                    Some(ListItemType::Release(release)) => Some(release),
                    _ => None,
                }
            },
            None => None,
        }
    }

    /// The earlier rating under the cursor.
    pub fn get_selected_rated(&self) -> (entry: Option<&Rated>)
        ensures
            match entry {
                Some(entry) => self@.selected_rated() == Some(entry@),
                None => self@.selected_rated() is None,
            },
    {
        match &self.rated_list {
            Some(list) => {
                let entry = list.get_selected();
                proof {
                    if let Some(found) = entry {
                        lemma_map_commutes(list@, |entry: Rated| entry@, *found);
                    }
                }
                entry
            },
            None => None,
        }
    }

    /// Moves to the next entry of the list on the screen. Does nothing while
    /// a rating is edited. Among releases the cursor passes over a header.
    pub fn on_down(&mut self)
        ensures
            final(self)@ == old(self)@.on_down(),
            old(self)@.wf() ==> final(self)@.wf(),
    {
        proof {
            if self@.wf() {
                lemma_moves_keep_wf(self@);
            }
        }
        if self.currently_rating {
            return ;
        }
        if let Some(releases) = &mut self.releases {
            let ghost before = releases@;
            releases.next();
            let ghost moved = releases@;
            let header = match releases.get_selected() {
                Some(ListItemType::ReleaseType(_)) => true,
                _ => false,
            };
            if header {
                releases.next();
            }
            proof {
                let f = |item: ListItemType| item@;
                lemma_map_commutes(before, f, arbitrary());
                lemma_map_commutes(moved, f, arbitrary());
            }
        } else if let Some(results) = &mut self.search_results {
            let ghost before = results@;
            results.next();
            proof {
                lemma_map_commutes(before, |artist: ArtistSearchResult| artist@, arbitrary());
            }
        } else if let Some(rated) = &mut self.rated_list {
            let ghost before = rated@;
            rated.next();
            proof {
                lemma_map_commutes(before, |entry: Rated| entry@, arbitrary());
            }
        }
    }

    /// Moves to the previous entry of the list on the screen. Does nothing
    /// while a rating is edited. Among releases the cursor passes over a
    /// header.
    pub fn on_up(&mut self)
        ensures
            final(self)@ == old(self)@.on_up(),
            old(self)@.wf() ==> final(self)@.wf(),
    {
        proof {
            if self@.wf() {
                lemma_moves_keep_wf(self@);
            }
        }
        if self.currently_rating {
            return ;
        }
        if let Some(releases) = &mut self.releases {
            let ghost before = releases@;
            releases.previous();
            let ghost moved = releases@;
            let header = match releases.get_selected() {
                Some(ListItemType::ReleaseType(_)) => true,
                _ => false,
            };
            if header {
                releases.previous();
            }
            proof {
                let f = |item: ListItemType| item@;
                lemma_map_commutes(before, f, arbitrary());
                lemma_map_commutes(moved, f, arbitrary());
            }
        } else if let Some(results) = &mut self.search_results {
            let ghost before = results@;
            results.previous();
            proof {
                lemma_map_commutes(before, |artist: ArtistSearchResult| artist@, arbitrary());
            }
        } else if let Some(rated) = &mut self.rated_list {
            let ghost before = rated@;
            rated.previous();
            proof {
                lemma_map_commutes(before, |entry: Rated| entry@, arbitrary());
            }
        }
    }

    /// The command to the left. While a rating is edited it goes one step
    /// down; otherwise the releases leave the screen and the artists return.
    pub fn on_left(&mut self)
        ensures
            final(self)@ == old(self)@.on_left(),
            old(self)@.wf() ==> final(self)@.wf(),
    {
        proof {
            if self@.wf() {
                lemma_edits_keep_wf(self@, 1);
            }
        }
        if self.currently_rating {
            self.edit_target(Edit::Lower);
        } else if self.releases.is_some() {
            self.releases = None;
        }
    }

    /// The command to the right. While a rating is edited it goes one step
    /// up. With the artists on the screen the releases of the selected artist
    /// are wanted: the session stays as it is and the artist's identifier is
    /// returned, for [`App::show_releases`] to be called once they are there.
    /// Otherwise a rating starts.
    pub fn on_right(&mut self) -> (wanted: Option<String>)
        ensures
            final(self)@ == old(self)@.on_right(),
            old(self)@.wf() ==> final(self)@.wf(),
            match wanted {
                Some(id) => old(self)@.wanted_artist() == Some(id@),
                None => old(self)@.wanted_artist() is None,
            },
    {
        proof {
            if self@.wf() {
                lemma_edits_keep_wf(self@, 1);
            }
        }
        if self.currently_rating {
            self.edit_target(Edit::Raise);
            return None;
        }
        if self.releases.is_none() {
            if let Some(artist) = self.get_selected_artist() {
                return Some(artist.id.clone());
            }
        }
        self.start_rating();
        None
    }

    /// Starts a rating of what is under the cursor: its rating is remembered,
    /// and an absent one becomes 1. Does nothing where there is nothing to
    /// rate under the cursor.
    pub fn start_rating(&mut self)
        ensures
            final(self)@ == old(self)@.start_rating(),
            old(self)@.wf() ==> final(self)@.wf(),
    {
        proof {
            if self@.wf() {
                lemma_edits_keep_wf(self@, 1);
            }
        }
        if let Some(rating) = self.target() {
            self.currently_rating = true;
            self.previous_rating = rating;
            if rating.is_none() {
                self.edit_target(Edit::Assign(1));
            }
        }
    }

    /// Makes `rating` the rating that is edited. Does nothing while no rating
    /// is edited.
    pub fn set_rating(&mut self, rating: u8)
        ensures
            final(self)@ == old(self)@.set_rating(rating),
            old(self)@.wf() ==> final(self)@.wf(),
    {
        proof {
            if self@.wf() {
                lemma_edits_keep_wf(self@, rating);
            }
        }
        if self.currently_rating {
            self.edit_target(Edit::Assign(rating));
        }
    }

    /// Ends the edit and keeps the rating. Returns what has to be written to
    /// storage; nothing while no rating is edited.
    pub fn confirm_rating(&mut self) -> (record: Option<RatingRecord>)
        ensures
            final(self)@ == old(self)@.confirm_rating(),
            old(self)@.wf() ==> final(self)@.wf(),
            match record {
                Some(record) => old(self)@.to_store() == Some(record@),
                None => old(self)@.to_store() is None,
            },
    {
        proof {
            if self@.wf() {
                lemma_edits_keep_wf(self@, 1);
            }
        }
        if !self.currently_rating {
            return None;
        }
        let record = if let Some(artist) = self.get_selected_artist() {
            match self.get_selected_release() {
                Some(release) => Some(
                    RatingRecord {
                        artist_id: artist.id.clone(),
                        artist_name: Some(artist.name.clone()),
                        release_id: release.id.clone(),
                        title: release.title.clone(),
                        rating: release.rating,
                    },
                ),
                None => None,
            }
        } else {
            match self.get_selected_rated() {
                Some(entry) => Some(
                    RatingRecord {
                        artist_id: entry.artist_id.clone(),
                        artist_name: None,
                        release_id: entry.release_id.clone(),
                        title: entry.title.clone(),
                        rating: entry.rating,
                    },
                ),
                None => None,
            }
        };
        self.currently_rating = false;
        record
    }

    /// Ends the edit and drops it: the rating returns to what it was when the
    /// edit started, which may be no rating. Does nothing while no rating is
    /// edited.
    pub fn abort_rating(&mut self)
        ensures
            final(self)@ == old(self)@.abort_rating(),
            old(self)@.wf() ==> final(self)@.wf(),
    {
        proof {
            if self@.wf() {
                lemma_edits_keep_wf(self@, 1);
            }
        }
        if !self.currently_rating {
            return ;
        }
        self.currently_rating = false;
        let previous = self.previous_rating;
        self.edit_target(Edit::Restore(previous));
    }

    /// Takes the releases of the selected artist and the ratings stored for
    /// that artist. The ratings are put on the releases they belong to, the
    /// releases are sectioned, and the cursor goes to the first release.
    /// Does nothing unless the session is waiting for these releases, as
    /// [`App::on_right`] said.
    pub fn show_releases(&mut self, releases: Vec<Release>, ratings: Vec<(String, u8)>)
        ensures
            final(self)@ == old(self)@.show_releases(
                releases_view(releases@),
                ratings_view(ratings@),
            ),
            old(self)@.wf() ==> final(self)@.wf(),
    {
        proof {
            if self@.wf() {
                lemma_show_releases_keeps_wf(
                    self@,
                    releases_view(releases@),
                    ratings_view(ratings@),
                );
            }
        }
        if self.currently_rating || self.releases.is_some() {
            return ;
        }
        if self.get_selected_artist().is_none() {
            return ;
        }
        let items = insert_headers(merge_ratings(releases, &ratings));
        let mut list = StatefulList::with_items(items);
        let ghost started = list@;
        list.next();
        proof {
            lemma_map_commutes(started, |item: ListItemType| item@, arbitrary());
        }
        self.releases = Some(list);
    }

    /// Takes a key: does in the session what the key asks for, and returns
    /// what is left to do outside it.
    pub fn on_key(&mut self, key: Key) -> (action: Action)
        ensures
            final(self)@ == old(self)@.on_key(key),
            old(self)@.wf() ==> final(self)@.wf(),
            action@ == old(self)@.action(key),
    {
        proof {
            if self@.wf() {
                lemma_keys_keep_wf(self@, key);
            }
        }
        match command_for(key) {
            Command::Quit => Action::Quit,
            Command::Left => {
                self.on_left();
                Action::Continue
            },
            Command::Right => match self.on_right() {
                Some(id) => Action::FetchReleases(id),
                None => Action::Continue,
            },
            Command::Down => {
                self.on_down();
                Action::Continue
            },
            Command::Up => {
                self.on_up();
                Action::Continue
            },
            Command::Rate(rating) => {
                self.set_rating(rating);
                Action::Continue
            },
            Command::Enter => {
                if self.currently_rating {
                    match self.confirm_rating() {
                        Some(record) => Action::Store(record),
                        None => Action::Continue,
                    }
                } else {
                    if self.releases.is_some() {
                        self.start_rating();
                    }
                    Action::Continue
                }
            },
            Command::Cancel => {
                self.abort_rating();
                Action::Continue
            },
            Command::Nothing => Action::Continue,
        }
    }

    /// Makes `edit` on what an edit would change: the selected release, or
    /// else the selected earlier rating.
    fn edit_target(&mut self, edit: Edit)
        ensures
            final(self)@ == old(self)@.edited(edit),
    {
        if let Some(releases) = &mut self.releases {
            let ghost before = releases@;
            if let Some(ListItemType::Release(release)) = releases.get_mut_selected() {
                let ghost old_release = *release;
                edit.apply(release);
                proof {
                    let rating = edit.applied(old_release.rating);
                    lemma_map_commutes(
                        before,
                        |item: ListItemType| item@,
                        ListItemType::Release(Release { rating, ..old_release }),
                    );
                    lemma_map_commutes(
                        before,
                        |item: ListItemType| item@,
                        ListItemType::Release(old_release),
                    );
                }
                return ;
            }
            proof {
                lemma_map_commutes(before, |item: ListItemType| item@, arbitrary());
                if let Some(i) = before.cursor {
                    assert(before.items.update(i, before.items[i]) == before.items);
                }
            }
        }
        if let Some(rated) = &mut self.rated_list {
            let ghost before = rated@;
            if let Some(entry) = rated.get_mut_selected() {
                let ghost old_entry = *entry;
                edit.apply(entry);
                proof {
                    let rating = edit.applied(old_entry.rating);
                    lemma_map_commutes(
                        before,
                        |entry: Rated| entry@,
                        Rated { rating, ..old_entry },
                    );
                    lemma_map_commutes(before, |entry: Rated| entry@, old_entry);
                }
            } else {
                proof {
                    lemma_map_commutes(before, |entry: Rated| entry@, arbitrary());
                }
            }
        }
    }

    /// The rating that an edit would change, if there is something to rate
    /// under the cursor.
    fn target(&self) -> (rating: Option<Option<u8>>)
        ensures
            rating == self@.target(),
    {
        match self.get_selected_release() {
            Some(release) => Some(release.rating),
            None => match self.get_selected_rated() {
                Some(entry) => Some(entry.rating),
                None => None,
            },
        }
    }
}

/// Puts the stored ratings on the releases they belong to. Where several
/// ratings are stored under one identifier the last one counts; a release
/// without a stored rating keeps the rating it has.
pub fn merge_ratings(releases: Vec<Release>, ratings: &Vec<(String, u8)>) -> (rated: Vec<Release>)
    ensures
        releases_view(rated@) == merged(releases_view(releases@), ratings_view(ratings@)),
{
    let ghost all = releases_view(releases@);
    let ghost stored = ratings_view(ratings@);
    let mut rated: Vec<Release> = Vec::new();
    for release in it: releases
        invariant
            all == releases_view(it.seq()),
            stored == ratings_view(ratings@),
            releases_view(rated@) == merged(all, stored).take(it.index() as int),
    {
        let ghost n = it.index() as int;
        let ghost before = releases_view(rated@);
        let mut release = release;
        assert(release@ == all[n]);
        let ghost fallback = release.rating;
        let mut j: usize = 0;
        while j < ratings.len()
            invariant
                j <= ratings.len(),
                stored == ratings_view(ratings@),
                release@ == (ReleaseView {
                    rating: stored_rating(stored.take(j as int), all[n].id, fallback),
                    ..all[n]
                }),
            decreases ratings.len() - j,
        {
            assert(stored.take(j + 1).drop_last() == stored.take(j as int));
            assert(stored.take(j + 1).last() == stored[j as int]);
            if ratings[j].0 == release.id {
                release.rating = Some(ratings[j].1);
            }
            j += 1;
        }
        assert(stored.take(j as int) == stored);
        rated.push(release);
        assert(releases_view(rated@) == before.push(merged(all, stored)[n]));
        assert(merged(all, stored).take(n + 1) == merged(all, stored).take(n).push(
            merged(all, stored)[n],
        ));
    }
    assert(merged(all, stored).take(all.len() as int) == merged(all, stored));
    rated
}

} // verus!
