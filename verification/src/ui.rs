//! A list with a cursor that wraps around at both ends, and the lines that
//! show a rating.

use crate::rating::MAX_RATING;
use crate::text::{repeat, repeated};
use vstd::prelude::*;

verus! {

/// What a [`StatefulList`] stands for: its items in order and the position
/// of the cursor, if it is set.
pub ghost struct Selection<T> {
    pub items: Seq<T>,
    pub cursor: Option<int>,
}

impl<T> Selection<T> {
    /// The cursor is unset exactly when there are no items, and otherwise it
    /// points at one of them.
    pub open spec fn wf(self) -> bool {
        match self.cursor {
            None => self.items.len() == 0,
            Some(i) => 0 <= i < self.items.len(),
        }
    }

    /// The selection a list starts with: the cursor on the first item, or
    /// unset when there is none.
    pub open spec fn start(items: Seq<T>) -> Self {
        Selection { items, cursor: if items.len() == 0 { None } else { Some(0) } }
    }

    /// The item under the cursor.
    pub open spec fn selected(self) -> Option<T> {
        match self.cursor {
            None => None,
            Some(i) => Some(self.items[i]),
        }
    }

    /// The cursor moved one item forward, from the last item to the first.
    pub open spec fn next(self) -> Self {
        match self.cursor {
            None => self,
            Some(i) => Selection {
                cursor: Some(if i + 1 >= self.items.len() { 0 } else { i + 1 }),
                ..self
            },
        }
    }

    /// The cursor moved one item back, from the first item to the last.
    pub open spec fn previous(self) -> Self {
        match self.cursor {
            None => self,
            Some(i) => Selection { cursor: Some(if i <= 0 { self.items.len() - 1 } else { i - 1 }), ..self },
        }
    }

    /// The cursor moved forward `steps` times.
    pub open spec fn next_by(self, steps: nat) -> Self
        decreases steps,
    {
        if steps == 0 {
            self
        } else {
            self.next_by((steps - 1) as nat).next()
        }
    }

    /// The cursor moved back `steps` times.
    pub open spec fn previous_by(self, steps: nat) -> Self
        decreases steps,
    {
        if steps == 0 {
            self
        } else {
            self.previous_by((steps - 1) as nat).previous()
        }
    }

    /// The item under the cursor replaced by `item`; nothing changes when the
    /// cursor is unset.
    pub open spec fn with_selected(self, item: T) -> Self {
        match self.cursor {
            None => self,
            Some(i) => Selection { items: self.items.update(i, item), ..self },
        }
    }

    /// The same selection over the images of the items under `f`.
    pub open spec fn map<U>(self, f: spec_fn(T) -> U) -> Selection<U> {
        Selection { items: self.items.map_values(f), cursor: self.cursor }
    }
}

/// An ordered sequence of items together with a cursor. The cursor is unset
/// while the sequence is empty and otherwise always rests on one of the items.
pub struct StatefulList<T> {
    selected: Option<usize>,
    items: Vec<T>,
}

impl<T> View for StatefulList<T> {
    type V = Selection<T>;

    closed spec fn view(&self) -> Selection<T> {
        Selection {
            items: self.items@,
            cursor: match self.selected {
                None => None,
                Some(i) => Some(i as int),
            },
        }
    }
}

impl<T> StatefulList<T> {
    /// The cursor is in place, in every list that exists.
    #[verifier::type_invariant]
    spec fn inv(self) -> bool {
        self@.wf()
    }

    /// Takes over `items` and puts the cursor on the first of them.
    pub fn with_items(items: Vec<T>) -> (list: StatefulList<T>)
        ensures
            list@ == Selection::start(items@),
            list@.wf(),
    {
        let selected = if items.len() == 0 {
            None
        } else {
            Some(0)
        };
        StatefulList { selected, items }
    }

    /// Moves the cursor to the following item, and from the last item to the
    /// first. Does nothing on an empty list.
    pub fn next(&mut self)
        ensures
            old(self)@.wf(),
            final(self)@ == old(self)@.next(),
            final(self)@.wf(),
    {
        proof {
            use_type_invariant(&*self);
        }
        if let Some(i) = self.selected {
            let len = self.items.len();
            let following: usize = if i + 1 >= len {
                0
            } else {
                i + 1
            };
            self.selected = Some(following);
        }
    }

    /// Moves the cursor to the preceding item, and from the first item to the
    /// last. Does nothing on an empty list.
    pub fn previous(&mut self)
        ensures
            old(self)@.wf(),
            final(self)@ == old(self)@.previous(),
            final(self)@.wf(),
    {
        proof {
            use_type_invariant(&*self);
        }
        if let Some(i) = self.selected {
            let preceding: usize = if i == 0 {
                self.items.len() - 1
            } else {
                i - 1
            };
            self.selected = Some(preceding);
        }
    }

    /// The item under the cursor, or nothing on an empty list.
    pub fn get_selected(&self) -> (item: Option<&T>)
        ensures
            self@.wf(),
            match item {
                Some(r) => self@.selected() == Some(*r),
                None => self@.selected() is None,
            },
    {
        proof {
            use_type_invariant(self);
        }
        match self.selected {
            Some(i) => Some(&self.items[i]),
            None => None,
        }
    }

    /// The item under the cursor, open to change, or nothing on an empty
    /// list. Whatever is written through the reference replaces that item;
    /// the cursor and the other items stay.
    pub fn get_mut_selected(&mut self) -> (item: Option<&mut T>)
        ensures
            old(self)@.wf(),
            match item {
                Some(r) => old(self)@.selected() == Some(*r) && final(self)@ == old(
                    self,
                )@.with_selected(*final(r)),
                None => old(self)@.selected() is None && final(self)@ == old(self)@,
            },
    {
        proof {
            use_type_invariant(&*self);
        }
        match self.selected {
            Some(i) => Some(&mut self.items[i]),
            None => None,
        }
    }

    /// All items, in order.
    pub fn items(&self) -> (items: &Vec<T>)
        ensures
            items@ == self@.items,
            self@.wf(),
    {
        proof {
            use_type_invariant(self);
        }
        &self.items
    }

    /// The position of the cursor.
    pub fn selected_index(&self) -> (index: Option<usize>)
        ensures
            self@.wf(),
            match index {
                Some(i) => self@.cursor == Some(i as int),
                None => self@.cursor is None,
            },
    {
        proof {
            use_type_invariant(self);
        }
        self.selected
    }
}

/// Where the cursor stands after `steps` moves forward from `from` in a list
/// of `len` items, for at most `len` moves.
pub open spec fn wrapped_forward(from: int, steps: int, len: int) -> int {
    if from + steps < len {
        from + steps
    } else {
        from + steps - len
    }
}

/// Where the cursor stands after `steps` moves back from `from` in a list of
/// `len` items, for at most `len` moves.
pub open spec fn wrapped_back(from: int, steps: int, len: int) -> int {
    if from - steps >= 0 {
        from - steps
    } else {
        from - steps + len
    }
}

/// Moving forward keeps a selection well formed and its items in place.
pub proof fn lemma_next_by_keeps<T>(s: Selection<T>, steps: nat)
    requires
        s.wf(),
    ensures
        s.next_by(steps).wf(),
        s.next_by(steps).items == s.items,
    decreases steps,
{
    if steps > 0 {
        lemma_next_by_keeps(s, (steps - 1) as nat);
    }
}

/// Moving back keeps a selection well formed and its items in place.
pub proof fn lemma_previous_by_keeps<T>(s: Selection<T>, steps: nat)
    requires
        s.wf(),
    ensures
        s.previous_by(steps).wf(),
        s.previous_by(steps).items == s.items,
    decreases steps,
{
    if steps > 0 {
        lemma_previous_by_keeps(s, (steps - 1) as nat);
    }
}

/// After at most as many moves forward as there are items, the cursor has
/// advanced by that many places, wrapping once past the end.
pub proof fn lemma_next_by_position<T>(s: Selection<T>, steps: nat)
    requires
        s.wf(),
        steps <= s.items.len(),
    ensures
        s.cursor matches Some(i) ==> s.next_by(steps).cursor == Some(
            wrapped_forward(i, steps as int, s.items.len() as int),
        ),
        s.cursor is None ==> s.next_by(steps) == s,
    decreases steps,
{
    if steps > 0 {
        lemma_next_by_position(s, (steps - 1) as nat);
        lemma_next_by_keeps(s, (steps - 1) as nat);
    }
}

/// After at most as many moves back as there are items, the cursor has gone
/// back by that many places, wrapping once past the start.
pub proof fn lemma_previous_by_position<T>(s: Selection<T>, steps: nat)
    requires
        s.wf(),
        steps <= s.items.len(),
    ensures
        s.cursor matches Some(i) ==> s.previous_by(steps).cursor == Some(
            wrapped_back(i, steps as int, s.items.len() as int),
        ),
        s.cursor is None ==> s.previous_by(steps) == s,
    decreases steps,
{
    if steps > 0 {
        lemma_previous_by_position(s, (steps - 1) as nat);
        lemma_previous_by_keeps(s, (steps - 1) as nat);
    }
}

/// Moving forward once for every item of the list brings the cursor back to
/// where it started.
pub proof fn lemma_next_cycle<T>(s: Selection<T>)
    requires
        s.wf(),
    ensures
        s.next_by(s.items.len()) == s,
{
    lemma_next_by_position(s, s.items.len());
    lemma_next_by_keeps(s, s.items.len());
}

/// Moving back once for every item of the list brings the cursor back to
/// where it started.
pub proof fn lemma_previous_cycle<T>(s: Selection<T>)
    requires
        s.wf(),
    ensures
        s.previous_by(s.items.len()) == s,
{
    lemma_previous_by_position(s, s.items.len());
    lemma_previous_by_keeps(s, s.items.len());
}

/// One move forward takes the cursor from `i` to `(i + 1) mod len`, one move
/// back to `(i - 1) mod len`.
pub proof fn lemma_moves_are_modular<T>(s: Selection<T>)
    requires
        s.wf(),
    ensures
        s.cursor matches Some(i) ==> {
            &&& s.next().cursor == Some((i + 1) % (s.items.len() as int))
            &&& s.previous().cursor == Some((i + s.items.len() - 1) % (s.items.len() as int))
        },
{
    if let Some(i) = s.cursor {
        let len = s.items.len() as int;
        assert((i + 1) % len == if i + 1 >= len { 0 } else { i + 1 }) by (nonlinear_arith)
            requires
                0 <= i < len,
        ;
        assert((i + len - 1) % len == if i <= 0 { len - 1 } else { i - 1 }) by (nonlinear_arith)
            requires
                0 <= i < len,
        ;
    }
}

/// A move forward undoes a move back, and a move back undoes a move forward.
pub proof fn lemma_next_previous_cancel<T>(s: Selection<T>)
    requires
        s.wf(),
    ensures
        s.next().previous() == s,
        s.previous().next() == s,
{
}

/// Moving the cursor and replacing the selected item commute with taking
/// the image of every item.
pub proof fn lemma_map_commutes<T, U>(s: Selection<T>, f: spec_fn(T) -> U, item: T)
    requires
        s.wf(),
    ensures
        s.map(f).wf(),
        s.map(f).next() == s.next().map(f),
        s.map(f).previous() == s.previous().map(f),
        s.map(f).selected() == match s.selected() {
            Some(selected) => Some(f(selected)),
            None => None,
        },
        s.map(f).with_selected(f(item)) == s.with_selected(item).map(f),
        Selection::start(s.items).map(f) == Selection::start(s.items.map_values(f)),
{
    if let Some(i) = s.cursor {
        assert(s.items.map_values(f).update(i, f(item)) == s.items.update(i, item).map_values(f));
    }
}

/// How the text of a line stands out.
#[derive(Clone, Copy, Debug, PartialEq, Eq, Structural)]
pub enum Highlight {
    /// The line is not under the cursor.
    Plain,
    /// The line is under the cursor.
    Selected,
    /// The line is under the cursor and its rating is being edited.
    Rating,
}

/// One line of a list of things that can be rated: a marker and the text,
/// the stars of the rating, and the stars that are missing to the full
/// rating.
#[derive(Debug, PartialEq, Eq)]
pub struct RatingLine {
    pub text: String,
    pub highlight: Highlight,
    pub stars: String,
    pub missing: String,
}

/// What a [`RatingLine`] stands for.
pub ghost struct LineView {
    pub text: Seq<char>,
    pub highlight: Highlight,
    pub stars: Seq<char>,
    pub missing: Seq<char>,
}

impl View for RatingLine {
    type V = LineView;

    open spec fn view(&self) -> LineView {
        LineView {
            text: self.text@,
            highlight: self.highlight,
            stars: self.stars@,
            missing: self.missing@,
        }
    }
}

/// A whole star.
pub const STAR: &'static str = "★ ";

/// The left half of a star.
pub const HALF_STAR: &'static str = "⯨";

/// The right half of a star.
pub const OTHER_HALF: &'static str = "⯩";

/// The stars of a rating: a whole star for every two points and half a star
/// for an odd point. No rating has no stars.
pub open spec fn stars_of(rating: Option<u8>) -> Seq<char> {
    match rating {
        Some(r) => repeated(STAR@, (r / 2) as nat) + repeated(HALF_STAR@, (r % 2) as nat),
        None => Seq::empty(),
    }
}

/// The stars that a rating lacks to the highest rating: the other half of a
/// half star and a whole star for every two points that are missing. No
/// rating, and a rating above the highest, lack nothing.
pub open spec fn missing_stars_of(rating: Option<u8>) -> Seq<char> {
    match rating {
        Some(r) => repeated(OTHER_HALF@, (r % 2) as nat) + repeated(
            STAR@,
            if r <= MAX_RATING {
                ((MAX_RATING - r) / 2) as nat
            } else {
                0
            },
        ),
        None => Seq::empty(),
    }
}

/// How the text of a line stands out.
pub open spec fn highlight_of(selected: bool, currently_rating: bool) -> Highlight {
    if !selected {
        Highlight::Plain
    } else if currently_rating {
        Highlight::Rating
    } else {
        Highlight::Selected
    }
}

/// The line for `line` with its rating.
pub open spec fn rating_line_of(
    line: Seq<char>,
    rating: Option<u8>,
    selected: bool,
    currently_rating: bool,
) -> LineView {
    LineView {
        text: (if selected {
            ">"@
        } else {
            " "@
        }) + " "@ + line + " "@,
        highlight: highlight_of(selected, currently_rating),
        stars: stars_of(rating),
        missing: missing_stars_of(rating),
    }
}

/// Lays out one line of a list of things that can be rated: `>` before the
/// text of the line under the cursor, the stars of the rating, and the stars
/// that are missing to the highest rating.
pub fn rating_line(line: &str, rating: Option<u8>, selected: bool, currently_rating: bool) -> (shown:
    RatingLine)
    ensures
        shown@ == rating_line_of(line@, rating, selected, currently_rating),
{
    let mut stars = String::new();
    let mut missing = String::new();
    if let Some(r) = rating {
        let halves: usize = (r % 2) as usize;
        stars = repeat(STAR, (r / 2) as usize);
        stars.append(repeat(HALF_STAR, halves).as_str());
        missing = repeat(OTHER_HALF, halves);
        let lacking: usize = if r <= MAX_RATING {
            ((MAX_RATING - r) / 2) as usize
        } else {
            0
        };
        missing.append(repeat(STAR, lacking).as_str());
    }
    let mut text = String::from_str(
        if selected {
            ">"
        } else {
            " "
        },
    );
    text.append(" ");
    text.append(line);
    text.append(" ");
    let highlight = if !selected {
        Highlight::Plain
    } else if currently_rating {
        Highlight::Rating
    } else {
        Highlight::Selected
    };
    RatingLine { text, highlight, stars, missing }
}

} // verus!
