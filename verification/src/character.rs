//! A single terminal cell: a glyph, a set of text decorations, and a
//! foreground colour. Cells are plain values; the diff step of the render
//! loop compares them with exact equality.
use vstd::prelude::*;

use crate::colours::Colour;
use crate::rng;

verus! {

/// One text decoration from the fixed set a cell can carry.
#[derive(Clone, Copy, PartialEq, Eq, Structural, Debug)]
pub enum Attribute {
    Bold,
    Dim,
    Underline,
    Reverse,
}

/// The decorations on one cell: one independent flag per attribute.
#[derive(Clone, Copy, PartialEq, Eq, Structural, Debug)]
pub struct Attributes {
    pub bold: bool,
    pub dim: bool,
    pub underline: bool,
    pub reverse: bool,
}

/// The attribute set with no decoration switched on.
pub open spec fn empty_attrs() -> Attributes {
    Attributes { bold: false, dim: false, underline: false, reverse: false }
}

/// An attribute set with every decoration switched off.
pub fn empty_attr_set() -> (a: Attributes)
    ensures
        a == empty_attrs(),
{
    Attributes { bold: false, dim: false, underline: false, reverse: false }
}

impl Attributes {
    /// Whether `attr` is a member of this set.
    pub open spec fn spec_has(self, attr: Attribute) -> bool {
        match attr {
            Attribute::Bold => self.bold,
            Attribute::Dim => self.dim,
            Attribute::Underline => self.underline,
            Attribute::Reverse => self.reverse,
        }
    }

    /// This set with the membership of `attr` flipped.
    pub open spec fn spec_toggle(self, attr: Attribute) -> Attributes {
        match attr {
            Attribute::Bold => Attributes { bold: !self.bold, ..self },
            Attribute::Dim => Attributes { dim: !self.dim, ..self },
            Attribute::Underline => Attributes { underline: !self.underline, ..self },
            Attribute::Reverse => Attributes { reverse: !self.reverse, ..self },
        }
    }

    pub fn has(&self, attr: Attribute) -> (r: bool)
        ensures
            r == self.spec_has(attr),
    {
        match attr {
            Attribute::Bold => self.bold,
            Attribute::Dim => self.dim,
            Attribute::Underline => self.underline,
            Attribute::Reverse => self.reverse,
        }
    }

    /// Flips the membership of `attr` in the set.
    pub fn toggle(&mut self, attr: Attribute)
        ensures
            *final(self) == old(self).spec_toggle(attr),
    {
        match attr {
            Attribute::Bold => {
                self.bold = !self.bold;
            },
            Attribute::Dim => {
                self.dim = !self.dim;
            },
            Attribute::Underline => {
                self.underline = !self.underline;
            },
            Attribute::Reverse => {
                self.reverse = !self.reverse;
            },
        }
    }
}

/// A single terminal cell. Two cells are equal exactly when glyph,
/// attribute set and colour all agree; the render loop's diff relies on
/// this being precise.
#[derive(Clone, Copy, PartialEq, Eq, Structural, Debug)]
pub struct Character {
    pub c: char,
    pub attributes: Attributes,
    pub colour: Colour,
}

impl Character {
    /// The blank cell: a space glyph, no decorations, the default grey.
    pub open spec fn blank_spec() -> Character {
        Character {
            c: ' ',
            attributes: empty_attrs(),
            colour: Colour { r: 100, g: 100, b: 100 },
        }
    }

    /// The cell holding glyph `c` with no decorations and the default grey.
    pub open spec fn from_char_spec(c: char) -> Character {
        Character { c, attributes: empty_attrs(), colour: Colour { r: 100, g: 100, b: 100 } }
    }

    /// The cell holding glyph `c` with the given colour and attribute
    /// set.
    pub open spec fn with_style(c: char, colour: Colour, attributes: Attributes) -> Character {
        Character { c, attributes, colour }
    }

    /// The cell holding glyph `c` with the given colour and attributes,
    /// falling back to the defaults where none is given.
    pub open spec fn styled_spec(c: char, colour: Option<Colour>, attributes: Option<
        Attributes,
    >) -> Character {
        Character {
            c,
            attributes: match attributes {
                Option::Some(a) => a,
                Option::None => empty_attrs(),
            },
            colour: match colour {
                Option::Some(k) => k,
                Option::None => Colour { r: 100, g: 100, b: 100 },
            },
        }
    }

    pub fn blank() -> (r: Character)
        ensures
            r == Self::blank_spec(),
    {
        Character {
            c: ' ',
            attributes: empty_attr_set(),
            colour: crate::colours::grey(),
        }
    }

    pub fn from_char(c: char) -> (r: Character)
        ensures
            r == Self::from_char_spec(c),
    {
        Character { c, attributes: empty_attr_set(), colour: crate::colours::grey() }
    }

    /// How many decorations an attribute set switches on.
    pub open spec fn attr_count(a: Attributes) -> int {
        (if a.bold {
            1int
        } else {
            0int
        }) + (if a.dim {
            1int
        } else {
            0int
        }) + (if a.underline {
            1int
        } else {
            0int
        }) + (if a.reverse {
            1int
        } else {
            0int
        })
    }

    /// What holds of every cell `random` can return: a printable ASCII
    /// glyph, the blank cell when that glyph is a space, and exactly
    /// one decoration otherwise.
    pub open spec fn random_outcome(r: Character) -> bool {
        &&& ' ' <= r.c <= '~'
        &&& r.c == ' ' ==> r == Self::blank_spec()
        &&& r.c != ' ' ==> Self::attr_count(r.attributes) == 1
    }

    /// A randomly decorated cell for the dashboard's background noise.
    /// The glyph is always printable ASCII; a drawn space collapses to the
    /// blank cell, and any other glyph carries exactly one random
    /// decoration and a random colour.
    pub fn random() -> (r: Character)
        ensures
            Self::random_outcome(r),
    {
        let code: u64 = rng::random_in(32, 126);
        if code == 32 {
            return Character::blank();
        }
        let glyph: char = (code as u8) as char;
        let r_component: u64 = rng::random_in(0, 255);
        let g_component: u64 = rng::random_in(0, 255);
        let b_component: u64 = rng::random_in(0, 255);
        let colour = Colour { r: r_component as u8, g: g_component as u8, b: b_component as u8 };
        let attr_index: u64 = rng::random_in(0, 3);
        let attr = match attr_index {
            0 => Attribute::Bold,
            1 => Attribute::Dim,
            2 => Attribute::Underline,
            _ => Attribute::Reverse,
        };
        let mut attrs = empty_attr_set();
        attrs.toggle(attr);
        Character { c: glyph, attributes: attrs, colour }
    }

    /// One cell per code point of `string`, in order, each carrying the
    /// given optional colour and attributes or the defaults.
    pub fn vec_from_string(string: &String, colour: Option<Colour>, attributes: Option<
        Attributes,
    >) -> (v: Vec<Character>)
        ensures
            v@.len() == string@.len(),
            forall|i: int|
                0 <= i < v@.len() ==> v@[i] == Self::styled_spec(string@[i], colour, attributes),
    {
        let mut v: Vec<Character> = Vec::new();
        let s: &str = string.as_str();
        let n: usize = s.unicode_len();
        for i in 0..n
            invariant
                n == string@.len(),
                s@ == string@,
                v@.len() == i,
                forall|j: int|
                    0 <= j < i ==> v@[j] == Self::styled_spec(string@[j], colour, attributes),
        {
            let c: char = s.get_char(i);
            let attrs = match attributes {
                Option::Some(a) => a,
                Option::None => empty_attr_set(),
            };
            let col = match colour {
                Option::Some(k) => k,
                Option::None => crate::colours::grey(),
            };
            v.push(Character { c, attributes: attrs, colour: col });
        }
        v
    }

    /// Flips the membership of `attr` in this cell's attribute set,
    /// leaving glyph and colour as they are.
    pub fn toggle_attribute(&mut self, attr: Attribute)
        ensures
            *final(self) == (Character {
                attributes: old(self).attributes.spec_toggle(attr),
                ..*old(self)
            }),
    {
        self.attributes.toggle(attr);
    }

    /// Flips reverse video, the decoration the host uses to mark the
    /// active widget's title.
    pub fn highlight(&mut self)
        ensures
            *final(self) == (Character {
                attributes: old(self).attributes.spec_toggle(Attribute::Reverse),
                ..*old(self)
            }),
    {
        self.attributes.toggle(Attribute::Reverse);
    }

    /// Replaces the foreground colour, leaving glyph and attributes as
    /// they are.
    pub fn set_fg_colour(&mut self, colour: Colour)
        ensures
            *final(self) == (Character { colour, ..*old(self) }),
    {
        self.colour = colour;
    }
}

} // verus!
