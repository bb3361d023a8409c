use termod::buffer::Buffer;
use termod::character;
use termod::character::Character;
use termod::colours;

fn dash() -> Character {
    Character { c: '-', colour: colours::grey(), attributes: character::empty_attr_set() }
}

#[test]
fn inserts_the_chars_at_the_expected_places() {
    let mut buffer_one = Buffer::new(6, 3);
    let string_chars = Character::vec_from_string(&"----".to_string(), None, None);

    buffer_one.insert_char_slice(7, &string_chars);
    let expected_res = [
        ' ', ' ', ' ', ' ', ' ', ' ',
        ' ', '-', '-', '-', '-', ' ',
        ' ', ' ', ' ', ' ', ' ', ' ',
    ];
    let result: Vec<char> = buffer_one.characters.into_iter().map(|x| x.c).collect();
    for i in 0..result.len() {
        assert_eq!(result[i], expected_res[i], "Incorrect at position {}", i);
    }
}

#[test]
fn buffer_merge_returns_buffer() {
    let buffer_one = Buffer::new(6, 3);
    let mut buffer_two = Buffer::new(4, 1);
    for i in 0..buffer_two.len() {
        buffer_two.set(i, dash());
    }

    let response: Buffer = buffer_one.merge(0, &buffer_two).unwrap();
    assert_eq!(response.width, 6);
    assert_eq!(response.height, 3);
}

#[test]
fn buffer_merge_returns_expected_buffer() {
    let buffer_one = Buffer::new(6, 3);
    let mut buffer_two = Buffer::new(4, 1);
    for i in 0..buffer_two.len() {
        buffer_two.set(i, dash());
    }

    let response = buffer_one.merge(7, &buffer_two).unwrap();
    let expected_res = [
        ' ', ' ', ' ', ' ', ' ', ' ',
        ' ', '-', '-', '-', '-', ' ',
        ' ', ' ', ' ', ' ', ' ', ' ',
    ];
    let result: Vec<char> = response.characters.into_iter().map(|x| x.c).collect();
    for i in 0..result.len() {
        assert_eq!(result[i], expected_res[i], "Incorrect at position {}", i);
    }
}

#[test]
fn buffer_merge_doesnt_mutate_original_buffers() {
    let buffer_one = Buffer::new(6, 3);
    let mut buffer_two = Buffer::new(4, 1);
    let attrs = character::empty_attr_set();
    for i in 0..buffer_two.len() {
        buffer_two.set(i, Character { c: '-', colour: colours::grey(), attributes: attrs });
    }

    let _ = buffer_one.merge(7, &buffer_two).unwrap();
    let expected_res = [
        ' ', ' ', ' ', ' ', ' ', ' ',
        ' ', ' ', ' ', ' ', ' ', ' ',
        ' ', ' ', ' ', ' ', ' ', ' ',
    ];
    let result: Vec<char> = buffer_one.characters.into_iter().map(|x| x.c).collect();
    for i in 0..result.len() {
        assert_eq!(result[i], expected_res[i], "Incorrect at position {}", i);
    }

    let expected_res = ['-', '-', '-', '-'];
    let result: Vec<char> = buffer_two.characters.into_iter().map(|x| x.c).collect();
    for i in 0..result.len() {
        assert_eq!(result[i], expected_res[i], "Incorrect at position {}", i);
    }
}

#[test]
fn merge_succeeds_exactly_at_the_edge() {
    // a 4-wide sub-buffer at column 2 of a 6-wide target: 2 + 4 == 6 fits
    let base = Buffer::new(6, 3);
    let sub = Buffer::new(4, 1);
    assert!(base.merge(2, &sub).is_ok());
}

#[test]
fn merge_fails_one_past_the_edge() {
    // a 4-wide sub-buffer at column 3 of a 6-wide target: 3 + 4 == 7 > 6
    let base = Buffer::new(6, 3);
    let sub = Buffer::new(4, 1);
    assert!(base.merge(3, &sub).is_err());
}

#[test]
fn merge_fails_when_too_tall() {
    let base = Buffer::new(6, 3);
    let sub = Buffer::new(2, 3);
    // row offset 1 leaves only two rows of room for three
    assert!(base.merge(6, &sub).is_err());
    // row offset 0 fits exactly
    assert!(base.merge(0, &sub).is_ok());
}

#[test]
fn push_succeeds_exactly_at_the_edge_and_fails_past_it() {
    let mut base = Buffer::new(6, 3);
    let mut sub = Buffer::new(4, 1);
    for i in 0..sub.len() {
        sub.set(i, dash());
    }
    sub.move_to(2, 2);
    assert!(base.push(&sub));
    assert_eq!(base.get(14).c, '-');
    assert_eq!(base.get(13).c, ' ');

    let mut base2 = Buffer::new(6, 3);
    sub.move_to(3, 2);
    assert!(!base2.push(&sub));
    for i in 0..base2.len() {
        assert_eq!(base2.get(i).c, ' ');
    }
}

#[test]
fn six_by_three_merged_with_dashes_at_seven() {
    // row 1, column 1 of a 6x3 grid; rows 0 and 2 stay blank
    let base = Buffer::new(6, 3);
    let mut dashes = Buffer::new(4, 1);
    for i in 0..dashes.len() {
        dashes.set(i, dash());
    }
    let merged = base.merge(7, &dashes).unwrap();
    let row1: Vec<char> = (6..12).map(|i| merged.get(i).c).collect();
    assert_eq!(row1, vec![' ', '-', '-', '-', '-', ' ']);
    for i in 0..6 {
        assert_eq!(merged.get(i), Character::blank());
    }
    for i in 12..18 {
        assert_eq!(merged.get(i), Character::blank());
    }
}

#[test]
fn set_then_get_round_trips_exactly() {
    let mut b = Buffer::new(5, 4);
    let cell = Character {
        c: 'x',
        colour: colours::orange(),
        attributes: character::empty_attr_set(),
    };
    b.set(13, cell);
    assert_eq!(b.get(13), cell);
    assert_eq!(b.get(12), Character::blank());
}

#[test]
fn new_buffer_is_blank_with_given_dimensions() {
    let b = Buffer::new(4, 2);
    assert_eq!(b.width, 4);
    assert_eq!(b.height, 2);
    assert_eq!(b.len(), 8);
    for i in 0..b.len() {
        assert_eq!(b.get(i), Character::blank());
    }
    let empty = Buffer::new(0, 5);
    assert_eq!(empty.len(), 0);
}

#[test]
fn clear_resets_every_cell() {
    let mut b = Buffer::new(3, 2);
    b.set(0, dash());
    b.set(5, dash());
    b.clear();
    for i in 0..b.len() {
        assert_eq!(b.get(i), Character::blank());
    }
}

#[test]
fn clipped_insert_drops_what_falls_off_the_end() {
    let mut b = Buffer::new(3, 2);
    let chars = vec![dash(), dash(), dash(), dash()];
    b.insert_char_slice_clipped(4, &chars);
    assert_eq!(b.get(3).c, ' ');
    assert_eq!(b.get(4).c, '-');
    assert_eq!(b.get(5).c, '-');
}
