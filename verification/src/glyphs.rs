//! A printable icon with a fixed position on the terminal grid. The
//! host program owns the actual tables of icons; this type only carries
//! an icon and its coordinates and can blank itself for erasing.

use vstd::prelude::*;

verus! {

/// An icon at a fixed column/row position.
#[derive(Debug, Clone, Copy)]
pub struct Glyph {
    icon: &'static str,
    pos: (u16, u16),
}

impl Glyph {
    /// The characters of the icon.
    pub closed spec fn icon_view(self) -> Seq<char> {
        self.icon@
    }

    /// The column/row position of the icon.
    pub closed spec fn position(self) -> (u16, u16) {
        self.pos
    }

    /// Builds a glyph from an icon and its position.
    pub fn new(icon: &'static str, pos: (u16, u16)) -> (g: Glyph)
        ensures
            g.icon_view() == icon@,
            g.position() == pos,
    {
        Glyph { icon, pos }
    }

    /// Returns the icon.
    pub fn icon(&self) -> (r: &str)
        ensures
            r@ == self.icon_view(),
    {
        self.icon
    }

    /// Returns the position.
    pub fn pos(&self) -> (r: (u16, u16))
        ensures
            r == self.position(),
    {
        self.pos
    }

    /// The same position with the icon replaced by a blank, for erasing
    /// the glyph from the screen.
    pub fn blanked(&self) -> (g: Glyph)
        ensures
            g.icon_view() == " "@,
            g.position() == self.position(),
    {
        Glyph { icon: " ", ..*self }
    }
}

} // verus!
