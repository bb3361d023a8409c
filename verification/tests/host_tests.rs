use termod::buffer::Buffer;
use termod::character::Character;
use termod::colours;
use termod::host;
use termod::host::Host;
use termod::widget::Event;
use termod::widget::KeyCode;
use termod::widget::Widget;

fn changed_cell() -> Character {
    Character {
        c: '#',
        colour: colours::orange(),
        attributes: termod::character::empty_attr_set(),
    }
}

#[test]
fn diff_of_identical_buffers_emits_nothing() {
    let mut b = Buffer::new(6, 4);
    b.set(5, changed_cell());
    let again = b.clone();
    let cmds = host::diff(&b, &again);
    assert!(cmds.is_empty());
}

#[test]
fn diff_emits_one_command_per_changed_cell_with_its_coordinates() {
    let prev = Buffer::new(6, 4);
    let mut new = Buffer::new(6, 4);
    new.set(7, changed_cell());
    new.set(13, changed_cell());
    let cmds = host::diff(&new, &prev);
    assert_eq!(cmds.len(), 2);
    assert_eq!((cmds[0].x, cmds[0].y), (1, 1));
    assert_eq!(cmds[0].character, changed_cell());
    assert_eq!((cmds[1].x, cmds[1].y), (1, 2));
}

#[test]
fn rendering_the_same_composite_twice_emits_nothing_the_second_time() {
    let mut h = Host::new(40, 20);
    let first = h.frame();
    assert!(!first.is_empty());
    let second = h.frame();
    assert!(second.is_empty());
}

#[test]
fn escape_quits_and_tab_does_not() {
    let mut h = Host::new(40, 20);
    assert!(!h.handle_event(&Event::Key(KeyCode::Tab)));
    assert!(!h.handle_event(&Event::Key(KeyCode::Down)));
    assert!(h.handle_event(&Event::Key(KeyCode::Esc)));
}

#[test]
fn tab_cycles_the_active_widget_modulo_the_collection_size() {
    let mut h = Host::new(40, 20);
    assert_eq!(h.active_widget_index, 0);
    h.handle_event(&Event::Key(KeyCode::Tab));
    assert_eq!(h.active_widget_index, 1);
    h.handle_event(&Event::Key(KeyCode::Tab));
    assert_eq!(h.active_widget_index, 0);
}

#[test]
fn switching_away_and_back_preserves_widget_state() {
    let mut h = Host::new(40, 20);
    // make the dashboard active and walk its debug box two cells right
    h.handle_event(&Event::Key(KeyCode::Tab));
    h.handle_event(&Event::Key(KeyCode::Right));
    h.handle_event(&Event::Key(KeyCode::Right));
    // move the todo highlight too, then come back round
    h.handle_event(&Event::Key(KeyCode::Tab));
    h.handle_event(&Event::Key(KeyCode::Down));
    h.handle_event(&Event::Key(KeyCode::Tab));
    match &h.widgets[1] {
        Widget::Dashboard(d) => assert_eq!(d.state.debug_x, 2),
        _ => panic!("expected the dashboard at index 1"),
    }
    match &h.widgets[0] {
        Widget::Todo(t) => assert_eq!(t.state.items.highlighted_todo_item, 1),
        _ => panic!("expected the todo list at index 0"),
    }
}

#[test]
fn new_host_starts_with_a_bordered_blank_composite() {
    let h = Host::new(24, 14);
    // top border dashes, untouched corner, side bars
    assert_eq!(h.main_buffer.get(0).c, ' ');
    assert_eq!(h.main_buffer.get(1).c, '-');
    assert_eq!(h.main_buffer.get(24).c, '|');
    assert_eq!(h.main_buffer.get(24).colour, colours::light_grey());
    // interior blank; previous frame all blank
    assert_eq!(h.main_buffer.get(25), Character::blank());
    for i in 0..h.prev_buffer.len() {
        assert_eq!(h.prev_buffer.get(i), Character::blank());
    }
}

#[test]
fn first_frame_writes_the_selector_strip_with_the_active_title_reversed() {
    let mut h = Host::new(40, 20);
    let _ = h.frame();
    let strip: String = (2..6).map(|i| h.main_buffer.get(i).c).collect();
    assert_eq!(strip, "Todo");
    let strip2: String = (7..16).map(|i| h.main_buffer.get(i).c).collect();
    assert_eq!(strip2, "Dashboard");
    assert!(h.main_buffer.get(2).attributes.reverse);
    assert!(!h.main_buffer.get(7).attributes.reverse);
}

#[test]
fn events_other_than_the_reserved_keys_reach_the_active_widget() {
    let mut h = Host::new(40, 20);
    h.handle_event(&Event::Key(KeyCode::Down));
    match &h.widgets[0] {
        Widget::Todo(t) => assert_eq!(t.state.items.highlighted_todo_item, 1),
        _ => panic!("expected the todo list at index 0"),
    }
}

#[test]
fn host_accepts_the_smallest_screen() {
    // 22 columns fit the dashboard's readout, 12 rows its height and
    // the todo separator; a frame on this screen still renders
    let mut h = Host::new(22, 12);
    let first = h.frame();
    assert!(!first.is_empty());
    assert!(h.frame().is_empty());
}
