use termod::buffer::Buffer;
use termod::character::Character;
use termod::colours;
use termod::dashboard_widget;
use termod::git_widget;
use termod::todo_widget;
use termod::utils;
use termod::widget;
use termod::widget::Event;
use termod::widget::KeyCode;
use termod::widget::Widget;
use termod::widget::WidgetTrait;

#[test]
fn border_draws_the_ring_and_leaves_the_interior() {
    let mut b = Buffer::new(4, 3);
    widget::add_buffer_border(&mut b, colours::light_blue());
    let glyphs: Vec<char> = (0..b.len()).map(|i| b.get(i).c).collect();
    assert_eq!(glyphs, vec![
        ' ', '-', '-', ' ',
        '|', ' ', ' ', '|',
        ' ', '-', '-', ' ',
    ]);
    assert_eq!(b.get(4).colour, colours::light_blue());
    assert_eq!(b.get(1).colour, colours::grey());
    assert_eq!(b.get(5), Character::blank());
}

#[test]
fn git_widget_is_a_blank_placeholder() {
    let mut w = git_widget::new(10, 10, 0, 0);
    w.init();
    w.update();
    w.draw();
    let b = w.generate_buffer();
    assert_eq!(b.width, 7);
    assert_eq!(b.height, 7);
    for i in 0..b.len() {
        assert_eq!(b.get(i), Character::blank());
    }
    assert_eq!(w.get_title(), "GIT");
}

#[test]
fn dashboard_draw_prints_the_frame_count_in_the_debug_box() {
    let mut w = dashboard_widget::new(40, 20, 0, 0);
    w.update();
    w.draw();
    let expected: Vec<char> = "Frame Count: 1".chars().collect();
    let written: Vec<char> =
        (0..expected.len()).map(|i| w.state.debug_buffer.get(i).c).collect();
    assert_eq!(written, expected);
}

#[test]
fn dashboard_arrows_move_the_debug_box_inside_the_region() {
    let mut w = dashboard_widget::new(40, 20, 0, 0);
    w.handle_event(&Event::Key(KeyCode::Left));
    assert_eq!(w.state.debug_x, 0);
    w.handle_event(&Event::Key(KeyCode::Right));
    assert_eq!(w.state.debug_x, 1);
    w.handle_event(&Event::Key(KeyCode::Down));
    assert_eq!(w.state.debug_y, 1);
    w.handle_event(&Event::Key(KeyCode::Up));
    w.handle_event(&Event::Key(KeyCode::Up));
    assert_eq!(w.state.debug_y, 0);
    // the readout is 20 wide in a 40-wide region: 20 steps right is the wall
    for _ in 0..30 {
        w.handle_event(&Event::Key(KeyCode::Right));
    }
    assert_eq!(w.state.debug_x, 20);
}

#[test]
fn dashboard_buffer_overlays_the_debug_box_on_the_background() {
    let mut w = dashboard_widget::new(40, 20, 3, 2);
    let b = w.generate_buffer();
    assert_eq!(b.width, 40);
    assert_eq!(b.height, 20);
    // the debug box's top border row sits at rows 2..12, columns 3..23
    assert_eq!(b.get(2 * 40 + 3 + 1).c, '-');
    assert_eq!(b.get(3 * 40 + 3).c, '|');
    // outside the box the background is blank
    assert_eq!(b.get(0).c, ' ');
}

#[test]
fn todo_widget_draws_rows_separator_and_done_items() {
    let mut w = todo_widget::new(30, 12, 0, 0);
    // separator starts ten rows above the bottom
    assert_eq!(w.state.item_seperator_height, 2);
    w.state.items = todo_widget::TodoItems::new(vec![
        todo_widget::TodoItem {
            title: "Task".to_string(),
            completed_at: None,
            added_at: i64::MAX,
            working: false,
        },
        todo_widget::TodoItem {
            title: "Done".to_string(),
            completed_at: Some(500),
            added_at: 500,
            working: false,
        },
    ]);
    w.state.update_main_buffer = true;
    w.draw();
    let b = w.generate_buffer();
    let row0: String = (0..19).map(|i| b.get(i).c).collect();
    assert_eq!(row0, "000:00:00:00 - Task");
    let row2: String = (2 * 30..2 * 30 + 30).map(|i| b.get(i).c).collect();
    assert_eq!(row2, "-".repeat(30));
    let row3: String = (3 * 30..3 * 30 + 19).map(|i| b.get(i).c).collect();
    assert_eq!(row3, "000:00:00:00 - Done");
    // the highlighted open item's title is shown in reverse video
    assert!(b.get(15).attributes.reverse);
    assert!(!b.get(0).attributes.reverse);
    // the age prefix is grey, a worked-on title would be orange
    assert_eq!(b.get(0).colour, colours::grey());
}

#[test]
fn todo_widget_age_prefix_counts_days_hours_minutes_seconds() {
    let mut w = todo_widget::new(40, 12, 0, 0);
    w.state.items = todo_widget::TodoItems::new(vec![todo_widget::TodoItem {
        title: "Old".to_string(),
        completed_at: Some(1000 + 2 * 86400 + 3 * 3600 + 4 * 60 + 5),
        added_at: 1000,
        working: false,
    }]);
    w.state.update_main_buffer = true;
    w.draw();
    let b = w.generate_buffer();
    let sep = w.state.item_seperator_height;
    let start = (sep + 1) * 40;
    let row: String = (start..start + 18).map(|i| b.get(i).c).collect();
    assert_eq!(row, "002:03:04:05 - Old");
}

#[test]
fn todo_widget_ignores_tab_and_escape() {
    let mut w = todo_widget::new(30, 12, 0, 0);
    w.init();
    let before_len = w.state.items.todo_items.len();
    let before_first = w.state.items.todo_items[0].title.clone();
    w.handle_event(&Event::Key(KeyCode::Tab));
    w.handle_event(&Event::Key(KeyCode::Esc));
    assert_eq!(w.state.items.todo_items.len(), before_len);
    assert_eq!(w.state.items.todo_items[0].title, before_first);
}

#[test]
fn todo_widget_keys_drive_the_list() {
    let mut w = todo_widget::new(30, 12, 0, 0);
    w.init();
    assert_eq!(w.state.items.todo_items.len(), 2);
    assert_eq!(w.state.items.done_items.len(), 2);
    w.handle_event(&Event::Key(KeyCode::Down));
    assert_eq!(w.state.items.highlighted_todo_item, 1);
    w.handle_event(&Event::Key(KeyCode::Up));
    assert_eq!(w.state.items.highlighted_todo_item, 0);
    w.handle_event(&Event::Key(KeyCode::Char('d')));
    assert_eq!(w.state.items.todo_items.len(), 1);
    w.handle_event(&Event::Key(KeyCode::Char('u')));
    assert_eq!(w.state.items.todo_items.len(), 2);
    let sep_before = w.state.item_seperator_height;
    w.handle_event(&Event::Key(KeyCode::Left));
    assert_eq!(w.state.item_seperator_height, 12 - sep_before);
    assert!(matches!(w.state.items.active_section, todo_widget::Section::DONE));
}

#[test]
fn widgets_of_different_kinds_share_one_collection() {
    let mut widgets: Vec<Widget> = vec![
        Widget::Git(git_widget::new(10, 10, 0, 0)),
        Widget::Todo(todo_widget::new(30, 12, 0, 0)),
    ];
    widgets[0].init();
    widgets[1].init();
    assert_eq!(widgets[0].get_title(), "GIT");
    assert_eq!(widgets[1].get_title(), "Todo");
    for w in widgets.iter_mut() {
        w.update();
        w.draw();
        let _ = w.generate_buffer();
    }
}

#[test]
fn linear_position_maps_column_and_row() {
    assert_eq!(utils::linear_pos_from_x_y(2, 3, 10), 32);
    assert_eq!(utils::linear_pos_from_x_y(0, 0, 10), 0);
    assert_eq!(utils::linear_pos_from_x_y(5, 0, 7), 5);
}

#[test]
fn decimal_text_pads_but_never_truncates() {
    assert_eq!(termod::utils::u64_dec_chars(0), vec!['0']);
    assert_eq!(termod::utils::u64_dec_chars(907), vec!['9', '0', '7']);
    assert_eq!(termod::utils::u64_dec_chars_padded(7, 3), vec!['0', '0', '7']);
    assert_eq!(termod::utils::u64_dec_chars_padded(0, 2), vec!['0', '0']);
    assert_eq!(termod::utils::u64_dec_chars_padded(1234, 3), vec!['1', '2', '3', '4']);
}

#[test]
fn char_vec_from_string_styles_every_glyph_plainly() {
    let v = utils::char_vec_from_string("ok".to_string());
    assert_eq!(v.len(), 2);
    assert_eq!(v[0].c, 'o');
    assert_eq!(v[1].c, 'k');
    assert_eq!(v[0], Character::from_char('o'));
}
