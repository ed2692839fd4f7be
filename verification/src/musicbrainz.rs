//! Artists and releases as the MusicBrainz service describes them.

use crate::rating::Rate;
use crate::text::{decimal, join, joined, texts, to_decimal, trim_matches, trimmed};
use musicbrainz_rs::chrono::{Datelike, NaiveDate};
use musicbrainz_rs::entity::date_string::DateString;
use musicbrainz_rs::entity::release_group::{ReleaseGroupPrimaryType, ReleaseGroupSecondaryType};
use vstd::prelude::*;
use vstd::std_specs::cmp::PartialEqSpecImpl;

verus! {

/// The primary category of a release group.
#[derive(Clone, Copy, Debug, PartialEq, Eq, Structural)]
pub enum PrimaryType {
    Album,
    Single,
    Ep,
    Broadcast,
    Other,
    Unrecognized,
}

/// A secondary category of a release group.
#[derive(Clone, Copy, Debug, PartialEq, Eq, Structural)]
pub enum SecondaryType {
    AudioDrama,
    Audiobook,
    Compilation,
    DjMix,
    Demo,
    Interview,
    Live,
    MixtapeStreet,
    Remix,
    Soundtrack,
    Spokenword,
    Unrecognized,
}

/// The kind of a release group: at most one primary category and the
/// secondary categories in the order in which the service lists them.
#[derive(Debug)]
pub struct ReleaseType {
    primary: Option<PrimaryType>,
    secondary: Vec<SecondaryType>,
}

/// What a [`ReleaseType`] stands for.
pub ghost struct ReleaseTypeView {
    pub primary: Option<PrimaryType>,
    pub secondary: Seq<SecondaryType>,
}

/// The JSON text that `serde_json::to_string` gives for the primary
/// category of the service that `kind` stands for.
pub uninterp spec fn primary_type_json(kind: PrimaryType) -> Seq<char>;

/// The JSON text that `serde_json::to_string` gives for the secondary
/// category of the service that `kind` stands for.
pub uninterp spec fn secondary_type_json(kind: SecondaryType) -> Seq<char>;

/// The year of a release date as the service writes it, where
/// `DateString::into_naive_date` can read the date with 1 for each part that
/// is left out; nothing where it cannot.
pub uninterp spec fn date_year(date: Seq<char>) -> Option<i32>;

/// The year that stands for an unknown release date.
pub const UNKNOWN_YEAR: i32 = 1970;

/// The name of a primary category as the service writes it.
pub open spec fn primary_name(kind: PrimaryType) -> Seq<char> {
    trimmed(primary_type_json(kind), '"')
}

/// The name of a secondary category as the service writes it.
pub open spec fn secondary_name(kind: SecondaryType) -> Seq<char> {
    trimmed(secondary_type_json(kind), '"')
}

/// The year of the release date `date`, and the year for an unknown date
/// where the date is absent or cannot be read.
pub open spec fn year_of(date: Option<Seq<char>>) -> i32 {
    match date {
        Some(text) => match date_year(text) {
            Some(year) => year,
            None => UNKNOWN_YEAR,
        },
        None => UNKNOWN_YEAR,
    }
}

impl ReleaseTypeView {
    /// The names of the categories: the primary one, if any, and then the
    /// secondary ones in their order.
    pub open spec fn names(self) -> Seq<Seq<char>> {
        let secondary = self.secondary.map_values(|kind: SecondaryType| secondary_name(kind));
        match self.primary {
            Some(kind) => seq![primary_name(kind)] + secondary,
            None => secondary,
        }
    }

    /// The kind in words: the names of its categories with ` + ` between
    /// them.
    pub open spec fn label(self) -> Seq<char> {
        joined(self.names(), " + "@)
    }
}

/// Calls `serde_json::to_string` on the primary category of the service that
/// `kind` stands for. The result is the JSON text that it gives; serialising
/// a category cannot fail.
#[verifier::external_body]
fn primary_json(kind: PrimaryType) -> (json: String)
    ensures
        json@ == primary_type_json(kind),
{
    serde_json::to_string(&match kind {
        PrimaryType::Album => ReleaseGroupPrimaryType::Album,
        PrimaryType::Single => ReleaseGroupPrimaryType::Single,
        PrimaryType::Ep => ReleaseGroupPrimaryType::Ep,
        PrimaryType::Broadcast => ReleaseGroupPrimaryType::Broadcast,
        PrimaryType::Other => ReleaseGroupPrimaryType::Other,
        PrimaryType::Unrecognized => ReleaseGroupPrimaryType::UnrecognizedReleaseGroupPrimaryType,
    }).unwrap_or_default()
}

/// Calls `serde_json::to_string` on the secondary category of the service
/// that `kind` stands for. The result is the JSON text that it gives;
/// serialising a category cannot fail.
#[verifier::external_body]
fn secondary_json(kind: SecondaryType) -> (json: String)
    ensures
        json@ == secondary_type_json(kind),
{
    serde_json::to_string(&match kind {
        SecondaryType::AudioDrama => ReleaseGroupSecondaryType::AudioDrama,
        SecondaryType::Audiobook => ReleaseGroupSecondaryType::Audiobook,
        SecondaryType::Compilation => ReleaseGroupSecondaryType::Compilation,
        SecondaryType::DjMix => ReleaseGroupSecondaryType::DjMix,
        SecondaryType::Demo => ReleaseGroupSecondaryType::Demo,
        SecondaryType::Interview => ReleaseGroupSecondaryType::Interview,
        SecondaryType::Live => ReleaseGroupSecondaryType::Live,
        SecondaryType::MixtapeStreet => ReleaseGroupSecondaryType::MixtapeStreet,
        SecondaryType::Remix => ReleaseGroupSecondaryType::Remix,
        SecondaryType::Soundtrack => ReleaseGroupSecondaryType::Soundtrack,
        SecondaryType::Spokenword => ReleaseGroupSecondaryType::Spokenword,
        SecondaryType::Unrecognized => ReleaseGroupSecondaryType::UnrecognizedReleaseGroupSecondaryType,
    }).unwrap_or_default()
}

/// Calls `DateString::into_naive_date` with 1 for each part that the date
/// leaves out, and `Datelike::year` on the date it reads. The result is that
/// year, and nothing where the date cannot be read.
#[verifier::external_body]
fn parse_year(date: &str) -> (year: Option<i32>)
    ensures
        year == date_year(date@),
{
    match DateString::from(date).into_naive_date(1, 1, 1) {
        Ok(parsed) => Some(parsed.year()),
        Err(_) => None,
    }
}

/// Calls `NaiveDate::default` and `Datelike::year` on it: the default date is
/// the first of January 1970.
#[verifier::external_body]
fn default_year() -> (year: i32)
    ensures
        year == UNKNOWN_YEAR,
{
    NaiveDate::default().year()
}

/// The year in which a release came out, from its first release date as the
/// service writes it; the year 1970 where the date is absent or cannot be
/// read.
pub fn release_year(first_release_date: Option<&str>) -> (year: i32)
    ensures
        year == year_of(
            match first_release_date {
                Some(date) => Some(date@),
                None => None,
            },
        ),
{
    match first_release_date {
        Some(date) => year_or_default(parse_year(date)),
        None => default_year(),
    }
}

/// The year that was read, or the year 1970 where none could be read.
pub fn year_or_default(parsed: Option<i32>) -> (year: i32)
    ensures
        year == match parsed {
            Some(year) => year,
            None => UNKNOWN_YEAR,
        },
{
    match parsed {
        Some(year) => year,
        None => default_year(),
    }
}

/// The name of a primary category as the service writes it.
pub fn primary_type_to_string(kind: PrimaryType) -> (name: String)
    ensures
        name@ == primary_name(kind),
{
    let json = primary_json(kind);
    trim_matches(json.as_str(), '"')
}

/// The name of a secondary category as the service writes it.
pub fn secondary_type_to_string(kind: SecondaryType) -> (name: String)
    ensures
        name@ == secondary_name(kind),
{
    let json = secondary_json(kind);
    trim_matches(json.as_str(), '"')
}

impl View for ReleaseType {
    type V = ReleaseTypeView;

    closed spec fn view(&self) -> ReleaseTypeView {
        ReleaseTypeView { primary: self.primary, secondary: self.secondary@ }
    }
}

impl ReleaseType {
    /// The kind with the given primary category and the given secondary
    /// categories, in their order.
    pub fn new(primary: Option<PrimaryType>, secondary: Vec<SecondaryType>) -> (kind: ReleaseType)
        ensures
            kind@ == (ReleaseTypeView { primary, secondary: secondary@ }),
    {
        ReleaseType { primary, secondary }
    }

    /// The primary category.
    pub fn primary(&self) -> (primary: Option<PrimaryType>)
        ensures
            primary == self@.primary,
    {
        self.primary
    }

    /// The secondary categories, in order.
    pub fn secondary(&self) -> (secondary: &Vec<SecondaryType>)
        ensures
            secondary@ == self@.secondary,
    {
        &self.secondary
    }

    /// The kind in words, such as `Album + Live`.
    pub fn label(&self) -> (text: String)
        ensures
            text@ == self@.label(),
    {
        let mut names: Vec<String> = Vec::new();
        if let Some(kind) = self.primary {
            names.push(primary_type_to_string(kind));
        }
        let ghost head = texts(names@);
        let ghost tail = self.secondary@.map_values(|kind: SecondaryType| secondary_name(kind));
        assert(texts(names@) == head + tail.take(0));
        let mut i: usize = 0;
        while i < self.secondary.len()
            invariant
                i <= self.secondary.len(),
                tail == self.secondary@.map_values(|kind: SecondaryType| secondary_name(kind)),
                texts(names@) == head + tail.take(i as int),
            decreases self.secondary.len() - i,
        {
            let ghost before = texts(names@);
            names.push(secondary_type_to_string(self.secondary[i]));
            assert(texts(names@) == before.push(tail[i as int]));
            assert(tail.take(i + 1) == tail.take(i as int).push(tail[i as int]));
            i += 1;
        }
        assert(tail.take(i as int) == tail);
        assert(texts(names@) == self@.names());
        join(&names, " + ")
    }
}

impl Default for ReleaseType {
    /// The kind without any category.
    fn default() -> (kind: ReleaseType)
        ensures
            kind@ == (ReleaseTypeView { primary: None, secondary: Seq::empty() }),
    {
        ReleaseType { primary: None, secondary: Vec::new() }
    }
}

impl Clone for ReleaseType {
    /// A kind with the same categories.
    fn clone(&self) -> (copy: ReleaseType)
        ensures
            copy@ == self@,
    {
        let mut secondary: Vec<SecondaryType> = Vec::new();
        let mut i: usize = 0;
        while i < self.secondary.len()
            invariant
                i <= self.secondary.len(),
                secondary@ == self.secondary@.take(i as int),
            decreases self.secondary.len() - i,
        {
            secondary.push(self.secondary[i]);
            i += 1;
        }
        assert(self.secondary@.take(i as int) == self.secondary@);
        ReleaseType { primary: self.primary, secondary }
    }
}

impl PartialEq for ReleaseType {
    /// Two kinds are equal when they have the same primary category and the
    /// same secondary categories in the same order.
    fn eq(&self, other: &ReleaseType) -> (same: bool) {
        if self.primary != other.primary {
            return false;
        }
        if self.secondary.len() != other.secondary.len() {
            return false;
        }
        let mut i: usize = 0;
        while i < self.secondary.len()
            invariant
                i <= self.secondary.len(),
                self.secondary.len() == other.secondary.len(),
                self.secondary@.take(i as int) == other.secondary@.take(i as int),
            decreases self.secondary.len() - i,
        {
            if self.secondary[i] != other.secondary[i] {
                return false;
            }
            i += 1;
            assert(self.secondary@.take(i as int) == self.secondary@.take(i - 1).push(
                self.secondary@[i - 1],
            ));
            assert(other.secondary@.take(i as int) == other.secondary@.take(i - 1).push(
                other.secondary@[i - 1],
            ));
        }
        assert(self.secondary@.take(i as int) == self.secondary@);
        assert(other.secondary@.take(i as int) == other.secondary@);
        true
    }
}

impl PartialEqSpecImpl for ReleaseType {
    open spec fn obeys_eq_spec() -> bool {
        true
    }

    open spec fn eq_spec(&self, other: &ReleaseType) -> bool {
        self@ == other@
    }
}

impl Eq for ReleaseType {

}

/// An artist found by a search.
#[derive(Debug, PartialEq, Eq)]
pub struct ArtistSearchResult {
    pub id: String,
    pub name: String,
    pub disambiguation: String,
}

/// What an [`ArtistSearchResult`] stands for.
pub ghost struct ArtistView {
    pub id: Seq<char>,
    pub name: Seq<char>,
    pub disambiguation: Seq<char>,
}

impl View for ArtistSearchResult {
    type V = ArtistView;

    open spec fn view(&self) -> ArtistView {
        ArtistView { id: self.id@, name: self.name@, disambiguation: self.disambiguation@ }
    }
}

impl ArtistView {
    /// The artist in words: the name, and in brackets what tells this artist
    /// from others of that name.
    pub open spec fn label(self) -> Seq<char> {
        self.name + " ("@ + self.disambiguation + ")"@
    }
}

impl ArtistSearchResult {
    /// The artist in words: the name, and in brackets what tells this artist
    /// from others of that name.
    pub fn label(&self) -> (text: String)
        ensures
            text@ == self@.label(),
    {
        let mut text = self.name.clone();
        text.append(" (");
        text.append(self.disambiguation.as_str());
        text.append(")");
        text
    }
}

/// A release group of an artist, with the rating the user gave it, if any.
#[derive(Debug, PartialEq, Eq)]
pub struct Release {
    pub id: String,
    pub title: String,
    pub year: i32,
    pub group_type: ReleaseType,
    pub rating: Option<u8>,
}

/// What a [`Release`] stands for.
pub ghost struct ReleaseView {
    pub id: Seq<char>,
    pub title: Seq<char>,
    pub year: i32,
    pub group_type: ReleaseTypeView,
    pub rating: Option<u8>,
}

impl View for Release {
    type V = ReleaseView;

    open spec fn view(&self) -> ReleaseView {
        ReleaseView {
            id: self.id@,
            title: self.title@,
            year: self.year,
            group_type: self.group_type@,
            rating: self.rating,
        }
    }
}

impl ReleaseView {
    /// The release in words: the year in brackets, then the title.
    pub open spec fn label(self) -> Seq<char> {
        "("@ + decimal(self.year as int) + ") "@ + self.title
    }
}

impl Release {
    /// The release in words: the year in brackets, then the title.
    pub fn label(&self) -> (text: String)
        ensures
            text@ == self@.label(),
    {
        let mut text = String::from_str("(");
        text.append(to_decimal(self.year).as_str());
        text.append(") ");
        text.append(self.title.as_str());
        text
    }
}

impl Rate for Release {
    open spec fn current_rating(&self) -> Option<u8> {
        self.rating
    }

    open spec fn with_rating(self, rating: Option<u8>) -> Self {
        Release { rating, ..self }
    }

    fn rating(&mut self) -> (slot: &mut Option<u8>) {
        &mut self.rating
    }
}

impl Default for Release {
    /// A release without a name, a kind or a rating, from the year 0.
    fn default() -> (release: Release)
        ensures
            release@ == (ReleaseView {
                id: Seq::empty(),
                title: Seq::empty(),
                year: 0,
                group_type: ReleaseTypeView { primary: None, secondary: Seq::empty() },
                rating: None,
            }),
    {
        Release {
            id: String::new(),
            title: String::new(),
            year: 0,
            group_type: ReleaseType::default(),
            rating: None,
        }
    }
}

} // verus!
