//! Ratings from 1 to 10, how they move one step at a time, and what can
//! carry one.

use vstd::prelude::*;

verus! {

/// The highest rating.
pub const MAX_RATING: u8 = 10;

/// The lowest rating.
pub const MIN_RATING: u8 = 1;

/// One step up: a rating below the highest grows by one; the highest, any
/// value above it and an absent rating are kept.
pub open spec fn increased(rating: Option<u8>) -> Option<u8> {
    match rating {
        Some(r) if r < MAX_RATING => Some((r + 1) as u8),
        _ => rating,
    }
}

/// One step down: a rating above the lowest shrinks by one; the lowest, zero
/// and an absent rating are kept.
pub open spec fn decreased(rating: Option<u8>) -> Option<u8> {
    match rating {
        Some(r) if r > MIN_RATING => Some((r - 1) as u8),
        _ => rating,
    }
}

/// The steps never create a rating, stop at the two ends of the scale and
/// move by exactly one in between.
pub proof fn lemma_steps(r: u8)
    ensures
        increased(None) is None,
        decreased(None) is None,
        1 <= r <= 9 ==> increased(Some(r)) == Some((r + 1) as u8),
        2 <= r <= 10 ==> decreased(Some(r)) == Some((r - 1) as u8),
        increased(Some(MAX_RATING)) == Some(MAX_RATING),
        decreased(Some(MIN_RATING)) == Some(MIN_RATING),
        1 <= r <= 9 ==> decreased(increased(Some(r))) == Some(r),
        2 <= r <= 10 ==> increased(decreased(Some(r))) == Some(r),
{
}

/// Both steps keep a rating that lies on the scale on the scale.
pub proof fn lemma_steps_stay_on_scale(r: u8)
    requires
        MIN_RATING <= r <= MAX_RATING,
    ensures
        increased(Some(r)) matches Some(up) && MIN_RATING <= up <= MAX_RATING,
        decreased(Some(r)) matches Some(down) && MIN_RATING <= down <= MAX_RATING,
{
}

/// Something that carries an optional rating and lets it be adjusted.
pub trait Rate: Sized {
    /// The rating this value carries.
    spec fn current_rating(&self) -> Option<u8>;

    /// This value with its rating replaced and everything else kept.
    spec fn with_rating(self, rating: Option<u8>) -> Self;

    /// The place where the rating is kept. What is written there becomes the
    /// rating; nothing else of the value changes.
    fn rating(&mut self) -> (slot: &mut Option<u8>)
        ensures
            *slot == old(self).current_rating(),
            *final(self) == old(self).with_rating(*final(slot)),
            final(self).current_rating() == *final(slot),
    ;

    /// Makes `rating` the rating, whatever it was before.
    fn set_rating(&mut self, rating: u8)
        ensures
            *final(self) == old(self).with_rating(Some(rating)),
            final(self).current_rating() == Some(rating),
    {
        *self.rating() = Some(rating);
    }

    /// Raises a present rating below the highest by one and leaves every
    /// other rating, an absent one too, as it is.
    fn increase_rating(&mut self)
        ensures
            *final(self) == old(self).with_rating(increased(old(self).current_rating())),
            final(self).current_rating() == increased(old(self).current_rating()),
    {
        let slot = self.rating();
        if let Some(r) = *slot {
            if r < MAX_RATING {
                *slot = Some(r + 1);
            }
        }
    }

    /// Lowers a present rating above the lowest by one and leaves every
    /// other rating, an absent one too, as it is.
    fn decrease_rating(&mut self)
        ensures
            *final(self) == old(self).with_rating(decreased(old(self).current_rating())),
            final(self).current_rating() == decreased(old(self).current_rating()),
    {
        let slot = self.rating();
        if let Some(r) = *slot {
            if r > MIN_RATING {
                *slot = Some(r - 1);
            }
        }
    }
}

/// A rating read back from storage, with the names it was stored under.
#[derive(Debug, PartialEq, Eq)]
pub struct Rated {
    pub artist_id: String,
    pub artist_name: String,
    pub release_id: String,
    pub title: String,
    pub rating: Option<u8>,
}

/// What a [`Rated`] entry stands for.
pub ghost struct RatedView {
    pub artist_id: Seq<char>,
    pub artist_name: Seq<char>,
    pub release_id: Seq<char>,
    pub title: Seq<char>,
    pub rating: Option<u8>,
}

impl View for Rated {
    type V = RatedView;

    open spec fn view(&self) -> RatedView {
        RatedView {
            artist_id: self.artist_id@,
            artist_name: self.artist_name@,
            release_id: self.release_id@,
            title: self.title@,
            rating: self.rating,
        }
    }
}

impl RatedView {
    /// The entry in words: the artist, a dash, the title.
    pub open spec fn label(self) -> Seq<char> {
        self.artist_name + " - "@ + self.title
    }
}

impl Rated {
    /// The entry in words: the artist, a dash, the title.
    pub fn label(&self) -> (text: String)
        ensures
            text@ == self@.label(),
    {
        let mut text = self.artist_name.clone();
        text.append(" - ");
        text.append(self.title.as_str());
        text
    }
}

impl Rate for Rated {
    open spec fn current_rating(&self) -> Option<u8> {
        self.rating
    }

    open spec fn with_rating(self, rating: Option<u8>) -> Self {
        Rated { rating, ..self }
    }

    fn rating(&mut self) -> (slot: &mut Option<u8>) {
        &mut self.rating
    }
}

} // verus!
