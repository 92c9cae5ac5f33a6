//! Color palettes.
//!
//! The main type is [`Palette`].
use crate::color::Color;
use vstd::prelude::*;
use vstd::std_specs::cmp::PartialEqSpecImpl;
use vstd::std_specs::convert::FromSpecImpl;

pub mod codec;

verus! {

/// A color palette: the colors an image is mapped onto, in the order in
/// which they were added.
///
/// A palette may be empty and may hold a color more than once. The order
/// matters only where two entries are equally close to a color: the earlier
/// one wins.
#[derive(Debug)]
pub struct Palette {
    colors: Vec<Color>,
}

impl View for Palette {
    type V = Seq<Color>;

    closed spec fn view(&self) -> Seq<Color> {
        self.colors@
    }
}

impl Palette {
    /// A palette without colors.
    pub fn new() -> (palette: Palette)
        ensures
            palette@ == Seq::<Color>::empty(),
    {
        Palette { colors: Vec::new() }
    }

    /// Adds a color after those already there.
    pub fn add_color(&mut self, col: Color)
        ensures
            final(self)@ == old(self)@.push(col),
    {
        self.colors.push(col);
    }

    /// Returns the number of entries in the palette.
    pub fn len(&self) -> (n: usize)
        ensures
            n == self@.len(),
    {
        self.colors.len()
    }

    /// Returns true if the palette holds no entries.
    pub fn is_empty(&self) -> (empty: bool)
        ensures
            empty == (self@.len() == 0),
    {
        self.colors.len() == 0
    }

    /// Returns an iterator over the palette.
    ///
    /// The iterator yields all colors in the palette from start to end.
    pub fn iter(&self) -> (iter: Iter<'_>)
        ensures
            iter.remaining() == self@,
    {
        Iter { colors: &self.colors, position: 0 }
    }

    /// Turns the palette into an iterator that hands its colors out, from
    /// start to end.
    pub fn into_iter(self) -> (iter: IntoIter)
        ensures
            iter.remaining() == self@,
    {
        IntoIter { colors: self.colors, position: 0 }
    }

    /// The entry at `index`, if there is one.
    pub fn get(&self, index: usize) -> (entry: Option<&Color>)
        ensures
            index < self@.len() ==> entry == Some(&self@[index as int]),
            index >= self@.len() ==> entry is None,
    {
        if index < self.colors.len() {
            Some(&self.colors[index])
        } else {
            None
        }
    }
}

/// Immutable [`Palette`] iterator.
pub struct Iter<'a> {
    /// The colors of the palette that is walked.
    colors: &'a Vec<Color>,
    /// How many of them were yielded.
    position: usize,
}

impl<'a> Iter<'a> {
    /// The colors still to come, next first.
    pub closed spec fn remaining(&self) -> Seq<Color> {
        if self.position <= self.colors@.len() {
            self.colors@.skip(self.position as int)
        } else {
            Seq::empty()
        }
    }

    /// Yields the next color, or `None` once all were yielded.
    pub fn next(&mut self) -> (item: Option<&'a Color>)
        ensures
            old(self).remaining().len() > 0 ==> item == Some(&old(self).remaining()[0])
                && final(self).remaining() == old(self).remaining().drop_first(),
            old(self).remaining().len() == 0 ==> item is None && final(self).remaining() == old(
                self,
            ).remaining(),
    {
        if self.position < self.colors.len() {
            let item = &self.colors[self.position];
            self.position += 1;
            Some(item)
        } else {
            None
        }
    }
}

/// An iterator that moves the colors out of a [`Palette`].
///
/// This struct is created by [`Palette::into_iter`].
pub struct IntoIter {
    /// The colors of the palette that is walked.
    colors: Vec<Color>,
    /// How many of them were yielded.
    position: usize,
}

impl IntoIter {
    /// The colors still to come, next first.
    pub closed spec fn remaining(&self) -> Seq<Color> {
        if self.position <= self.colors@.len() {
            self.colors@.skip(self.position as int)
        } else {
            Seq::empty()
        }
    }

    /// Yields the next color, or `None` once all were yielded.
    pub fn next(&mut self) -> (item: Option<Color>)
        ensures
            old(self).remaining().len() > 0 ==> item == Some(old(self).remaining()[0])
                && final(self).remaining() == old(self).remaining().drop_first(),
            old(self).remaining().len() == 0 ==> item is None && final(self).remaining() == old(
                self,
            ).remaining(),
    {
        if self.position < self.colors.len() {
            let item = self.colors[self.position];
            self.position += 1;
            Some(item)
        } else {
            None
        }
    }
}

impl Default for Palette {
    fn default() -> (palette: Palette)
        ensures
            palette@ == Seq::<Color>::empty(),
    {
        Palette { colors: Vec::new() }
    }
}

impl Clone for Palette {
    fn clone(&self) -> (copy: Palette)
        ensures
            copy@ == self@,
    {
        let mut colors: Vec<Color> = Vec::new();
        let mut i: usize = 0;
        while i < self.colors.len()
            invariant
                i <= self.colors.len(),
                colors@ == self.colors@.take(i as int),
            decreases self.colors.len() - i,
        {
            colors.push(self.colors[i]);
            i += 1;
        }
        Palette { colors }
    }
}

impl From<Vec<Color>> for Palette {
    fn from(value: Vec<Color>) -> (palette: Palette)
        ensures
            palette@ == value@,
    {
        Palette { colors: value }
    }
}

impl FromSpecImpl<Vec<Color>> for Palette {
    open spec fn obeys_from_spec() -> bool {
        true
    }

    closed spec fn from_spec(value: Vec<Color>) -> Palette {
        Palette { colors: value }
    }
}

impl PartialEq for Palette {
    fn eq(&self, other: &Self) -> (r: bool) {
        if self.colors.len() != other.colors.len() {
            return false;
        }
        let mut i: usize = 0;
        while i < self.colors.len()
            invariant
                i <= self.colors.len(),
                self.colors.len() == other.colors.len(),
                self.colors@.take(i as int) == other.colors@.take(i as int),
            decreases self.colors.len() - i,
        {
            if self.colors[i] != other.colors[i] {
                return false;
            }
            i += 1;
        }
        assert(self.colors@ == self.colors@.take(i as int));
        assert(other.colors@ == other.colors@.take(i as int));
        true
    }
}

impl PartialEqSpecImpl for Palette {
    open spec fn obeys_eq_spec() -> bool {
        true
    }

    open spec fn eq_spec(&self, other: &Self) -> bool {
        self@ == other@
    }
}

impl Eq for Palette {

}

} // verus!
