use termod::character;
use termod::character::Attribute;
use termod::character::Character;
use termod::colours;

#[test]
fn vec_from_string() {
    let starting_string = "Hello World".to_string();
    let starting_string_chars: Vec<char> = starting_string.chars().collect();
    let result = Character::vec_from_string(&starting_string, None, None);
    for i in 0..starting_string.len() {
        let character: &Character = &result[i];
        assert_eq!(character.c, starting_string_chars[i]);
    }
}

#[test]
fn vec_from_empty_string_is_empty() {
    let result = Character::vec_from_string(&"".to_string(), None, None);
    assert!(result.is_empty());
}

#[test]
fn vec_from_two_chars_keeps_order() {
    let result = Character::vec_from_string(&"ab".to_string(), None, None);
    assert_eq!(result.len(), 2);
    assert_eq!(result[0].c, 'a');
    assert_eq!(result[1].c, 'b');
}

#[test]
fn vec_from_string_carries_colour_and_attributes() {
    let mut attrs = character::empty_attr_set();
    attrs.toggle(Attribute::Reverse);
    let result = Character::vec_from_string(&"hi".to_string(), Some(colours::orange()), Some(attrs));
    assert_eq!(result[0].colour, colours::orange());
    assert!(result[0].attributes.reverse);
    assert!(!result[1].attributes.bold);
    // defaults apply when nothing is given
    let plain = Character::vec_from_string(&"hi".to_string(), None, None);
    assert_eq!(plain[1].colour, colours::grey());
    assert_eq!(plain[1].attributes, character::empty_attr_set());
}

#[test]
fn blank_is_a_grey_space_without_decorations() {
    let b = Character::blank();
    assert_eq!(b.c, ' ');
    assert_eq!(b.colour, colours::grey());
    assert_eq!(b.attributes, character::empty_attr_set());
}

#[test]
fn equality_is_exact_on_glyph_attributes_and_colour() {
    let a = Character::blank();
    let mut b = Character::blank();
    assert_eq!(a, b);
    b.set_fg_colour(colours::light_blue());
    assert_ne!(a, b);
    let mut c = Character::blank();
    c.toggle_attribute(Attribute::Dim);
    assert_ne!(a, c);
    let d = Character::from_char('x');
    assert_ne!(a, d);
}

#[test]
fn toggle_attribute_flips_membership_both_ways() {
    let mut ch = Character::blank();
    assert!(!ch.attributes.has(Attribute::Underline));
    ch.toggle_attribute(Attribute::Underline);
    assert!(ch.attributes.has(Attribute::Underline));
    ch.toggle_attribute(Attribute::Underline);
    assert!(!ch.attributes.has(Attribute::Underline));
}

#[test]
fn highlight_toggles_reverse_video_only() {
    let mut ch = Character::from_char('t');
    ch.highlight();
    assert!(ch.attributes.reverse);
    assert!(!ch.attributes.bold);
    assert_eq!(ch.c, 't');
    ch.highlight();
    assert!(!ch.attributes.reverse);
}

#[test]
fn random_always_yields_a_printable_glyph() {
    // the randomness wrapper must be constrained to the printable range;
    // an unconstrained value would escape it almost surely over 200 draws
    for _ in 0..200 {
        let ch = Character::random();
        assert!(' ' <= ch.c && ch.c <= '~');
        if ch.c == ' ' {
            assert_eq!(ch, Character::blank());
        }
    }
}

#[test]
fn palette_holds_the_expected_rgb_values() {
    assert_eq!((colours::grey().r, colours::grey().g, colours::grey().b), (100, 100, 100));
    assert_eq!(
        (colours::light_grey().r, colours::light_grey().g, colours::light_grey().b),
        (200, 200, 200)
    );
    assert_eq!((colours::orange().r, colours::orange().g, colours::orange().b), (245, 158, 66));
    assert_eq!(
        (colours::light_blue().r, colours::light_blue().g, colours::light_blue().b),
        (66, 152, 245)
    );
}
