use termagotchi::glyphs::Glyph;

#[test]
fn glyph_keeps_icon_and_position() {
    let glyph = Glyph::new("X", (3, 7));
    assert_eq!(glyph.icon(), "X");
    assert_eq!(glyph.pos(), (3, 7));
}

#[test]
fn blanked_glyph_erases_the_icon_in_place() {
    let glyph = Glyph::new("P", (9, 9));
    let blank = glyph.blanked();
    assert_eq!(blank.icon(), " ");
    assert_eq!(blank.pos(), (9, 9));
}
