//! The todo-list widget: two sections of items (open and done) with a
//! movable highlight, item aging shown per row, and a separator the
//! active section swaps around.
use vstd::prelude::*;

use crate::buffer::Buffer;
use crate::buffer::write_clipped;
use crate::character::Attributes;
use crate::character::Character;
use crate::character::empty_attrs;
use crate::clock;
use crate::clock::spec_seconds_between;
use crate::colours;
use crate::colours::Colour;
use crate::utils;
use crate::widget::Event;
use crate::widget::KeyCode;
use crate::widget::WidgetTrait;

verus! {

/// The two sections of the list.
#[derive(Clone, Copy, PartialEq, Eq, Structural, Debug)]
pub enum Section {
    TODO,
    DONE,
}

/// One entry: a title, when it was added, when it was completed (if it
/// has been), and whether it is currently being worked on. Times are
/// whole seconds since the Unix epoch.
pub struct TodoItem {
    pub title: String,
    pub completed_at: Option<i64>,
    pub added_at: i64,
    pub working: bool,
}

impl TodoItem {
    /// Whole seconds this item has been open as of `now`; a clock that
    /// reads before the item was added counts as no age.
    pub fn calculate_age_at(&self, now: i64) -> (age: u64)
        ensures
            age == spec_seconds_between(self.added_at as int, now as int),
    {
        clock::seconds_between(self.added_at, now)
    }

    /// Whole seconds this item has been open, read from the clock.
    /// The value depends on the machine's clock; nothing more is
    /// promised of it.
    pub fn calculate_age(&self) -> u64 {
        self.calculate_age_at(clock::now_unix_seconds())
    }
}

/// The list state: the items of each section, what was removed (for
/// undo), which section is active, and each section's highlight.
pub struct TodoItems {
    pub active_section: Section,
    pub todo_items: Vec<TodoItem>,
    pub done_items: Vec<TodoItem>,
    pub removed_items: Vec<TodoItem>,
    pub highlighted_todo_item: usize,
    pub highlighted_done_item: usize,
}

impl TodoItems {
    /// Each highlight points at an item of its section, or sits at
    /// zero while the section is empty; open items are never
    /// completed, and done items always are.
    pub open spec fn wf(&self) -> bool {
        &&& self.highlighted_todo_item < self.todo_items@.len() || (self.todo_items@.len() == 0
            && self.highlighted_todo_item == 0)
        &&& self.highlighted_done_item < self.done_items@.len() || (self.done_items@.len() == 0
            && self.highlighted_done_item == 0)
        &&& forall|i: int|
            0 <= i < self.todo_items@.len() ==> (#[trigger] self.todo_items@[i].completed_at)
                is None
        &&& forall|i: int|
            0 <= i < self.done_items@.len() ==> (#[trigger] self.done_items@[i].completed_at)
                is Some
    }

    /// How many items the state holds over all three lists.
    pub open spec fn total_items(&self) -> int {
        self.todo_items@.len() + self.done_items@.len() + self.removed_items@.len() as int
    }

    /// The state with the highlight of the active section moved one
    /// item down, where there is one.
    pub open spec fn spec_next_item(self) -> TodoItems {
        if self.active_section is TODO {
            if self.todo_items@.len() > 0 && self.highlighted_todo_item < self.todo_items@.len()
                - 1 {
                TodoItems {
                    highlighted_todo_item: (self.highlighted_todo_item + 1) as usize,
                    ..self
                }
            } else {
                self
            }
        } else {
            if self.done_items@.len() > 0 && self.highlighted_done_item < self.done_items@.len()
                - 1 {
                TodoItems {
                    highlighted_done_item: (self.highlighted_done_item + 1) as usize,
                    ..self
                }
            } else {
                self
            }
        }
    }

    /// The state with the highlight of the active section moved one
    /// item up, where there is one.
    pub open spec fn spec_prev_item(self) -> TodoItems {
        if self.active_section is TODO {
            if self.highlighted_todo_item > 0 {
                TodoItems {
                    highlighted_todo_item: (self.highlighted_todo_item - 1) as usize,
                    ..self
                }
            } else {
                self
            }
        } else {
            if self.highlighted_done_item > 0 {
                TodoItems {
                    highlighted_done_item: (self.highlighted_done_item - 1) as usize,
                    ..self
                }
            } else {
                self
            }
        }
    }

    /// The state with the other section active.
    pub open spec fn spec_toggle_section(self) -> TodoItems {
        TodoItems {
            active_section: if self.active_section is TODO {
                Section::DONE
            } else {
                Section::TODO
            },
            ..self
        }
    }

    /// How `remove_selected_item` changes the state: the highlighted
    /// item of the active section moves to the removed list (an item
    /// leaving the open section stops being worked on), and the
    /// highlight steps back if it fell off the end.
    pub open spec fn remove_rel(a: TodoItems, b: TodoItems) -> bool {
        if a.active_section is TODO && a.todo_items@.len() > 0 {
            let hi = a.highlighted_todo_item as int;
            let new_len = a.todo_items@.len() - 1;
            &&& b.todo_items@ == a.todo_items@.remove(hi)
            &&& b.removed_items@ == a.removed_items@.push(
                TodoItem { working: false, ..a.todo_items@[hi] },
            )
            &&& b.done_items == a.done_items
            &&& b.active_section == a.active_section
            &&& b.highlighted_done_item == a.highlighted_done_item
            &&& b.highlighted_todo_item as int == (if new_len > 0 && hi > new_len - 1 {
                hi - 1
            } else {
                hi
            })
        } else if a.active_section is DONE && a.done_items@.len() > 0 {
            let hi = a.highlighted_done_item as int;
            let new_len = a.done_items@.len() - 1;
            &&& b.done_items@ == a.done_items@.remove(hi)
            &&& b.removed_items@ == a.removed_items@.push(a.done_items@[hi])
            &&& b.todo_items == a.todo_items
            &&& b.active_section == a.active_section
            &&& b.highlighted_todo_item == a.highlighted_todo_item
            &&& b.highlighted_done_item as int == (if new_len > 0 && hi > new_len - 1 {
                hi - 1
            } else {
                hi
            })
        } else {
            b == a
        }
    }

    /// How `toggle_selected_item_completeness` changes the state: the
    /// highlighted open item completes at `now` and moves to the front
    /// of the done list, or the highlighted done item reopens and goes
    /// to the back of the open list; the source highlight steps back
    /// if it fell off the end.
    pub open spec fn toggle_complete_rel(a: TodoItems, b: TodoItems, now: int) -> bool {
        if a.active_section is TODO && a.todo_items@.len() > 0 {
            let hi = a.highlighted_todo_item as int;
            let new_len = a.todo_items@.len() - 1;
            &&& b.todo_items@ == a.todo_items@.remove(hi)
            &&& b.done_items@ == a.done_items@.insert(
                0,
                TodoItem {
                    working: false,
                    completed_at: Option::Some(now as i64),
                    ..a.todo_items@[hi]
                },
            )
            &&& b.removed_items == a.removed_items
            &&& b.active_section == a.active_section
            &&& b.highlighted_done_item == a.highlighted_done_item
            &&& b.highlighted_todo_item as int == (if new_len > 0 && hi > new_len - 1 {
                hi - 1
            } else {
                hi
            })
        } else if a.active_section is DONE && a.done_items@.len() > 0 {
            let hi = a.highlighted_done_item as int;
            let new_len = a.done_items@.len() - 1;
            &&& b.done_items@ == a.done_items@.remove(hi)
            &&& b.todo_items@ == a.todo_items@.push(
                TodoItem { completed_at: Option::None, ..a.done_items@[hi] },
            )
            &&& b.removed_items == a.removed_items
            &&& b.active_section == a.active_section
            &&& b.highlighted_todo_item == a.highlighted_todo_item
            &&& b.highlighted_done_item as int == (if new_len > 0 && hi > new_len - 1 {
                hi - 1
            } else {
                hi
            })
        } else {
            b == a
        }
    }

    /// How `toggle_selected_item_working` changes the state: the
    /// highlighted open item's working flag flips; the done section
    /// has no working flag to flip.
    pub open spec fn toggle_working_rel(a: TodoItems, b: TodoItems) -> bool {
        if a.active_section is TODO && a.todo_items@.len() > 0 {
            let hi = a.highlighted_todo_item as int;
            &&& b.todo_items@ == a.todo_items@.update(
                hi,
                TodoItem { working: !a.todo_items@[hi].working, ..a.todo_items@[hi] },
            )
            &&& b.done_items == a.done_items
            &&& b.removed_items == a.removed_items
            &&& b.active_section == a.active_section
            &&& b.highlighted_todo_item == a.highlighted_todo_item
            &&& b.highlighted_done_item == a.highlighted_done_item
        } else {
            b == a
        }
    }

    /// How `undo_last_remove` changes the state: the most recently
    /// removed item returns to the section its completion state says
    /// it belongs to.
    pub open spec fn undo_rel(a: TodoItems, b: TodoItems) -> bool {
        if a.removed_items@.len() == 0 {
            b == a
        } else {
            let item = a.removed_items@.last();
            &&& b.removed_items@ == a.removed_items@.drop_last()
            &&& if item.completed_at is None {
                b.todo_items@ == a.todo_items@.push(item) && b.done_items == a.done_items
            } else {
                b.done_items@ == a.done_items@.push(item) && b.todo_items == a.todo_items
            }
            &&& b.active_section == a.active_section
            &&& b.highlighted_todo_item == a.highlighted_todo_item
            &&& b.highlighted_done_item == a.highlighted_done_item
        }
    }

    /// Splits `items` into the open and done sections by whether each
    /// has been completed, keeping order; the open section starts
    /// active with both highlights at the top.
    pub fn new(items: Vec<TodoItem>) -> (r: TodoItems)
        ensures
            r.todo_items@ == items@.filter(|it: TodoItem| it.completed_at is None),
            r.done_items@ == items@.filter(|it: TodoItem| it.completed_at is Some),
            r.removed_items@.len() == 0,
            r.active_section is TODO,
            r.highlighted_todo_item == 0,
            r.highlighted_done_item == 0,
            r.wf(),
    {
        let ghost orig = items@;
        let mut items = items;
        let mut todo_items: Vec<TodoItem> = Vec::new();
        let mut done_items: Vec<TodoItem> = Vec::new();
        proof {
            reveal(Seq::filter);
            assert(orig.subrange(0, 0).len() == 0);
            assert(orig.subrange(0, 0).filter(|it: TodoItem| it.completed_at is None) =~= Seq::<
                TodoItem,
            >::empty());
            assert(orig.subrange(0, 0).filter(|it: TodoItem| it.completed_at is Some) =~= Seq::<
                TodoItem,
            >::empty());
        }
        while items.len() > 0
            invariant
                items@.len() <= orig.len(),
                items@ =~= orig.subrange(orig.len() - items@.len(), orig.len() as int),
                todo_items@ == orig.subrange(0, orig.len() - items@.len()).filter(
                    |it: TodoItem| it.completed_at is None,
                ),
                done_items@ == orig.subrange(0, orig.len() - items@.len()).filter(
                    |it: TodoItem| it.completed_at is Some,
                ),
            decreases items@.len(),
        {
            let ghost k = orig.len() - items@.len();
            proof {
                assert(0 <= k < orig.len());
            }
            let item = items.remove(0);
            proof {
                assert(item == orig[k]);
                assert(items@ =~= orig.subrange(k + 1, orig.len() as int));
                let prefix = orig.subrange(0, k);
                let prefix1 = orig.subrange(0, k + 1);
                assert(prefix1.drop_last() =~= prefix);
                assert(prefix1.last() == orig[k]);
                reveal(Seq::filter);
            }
            if item.completed_at.is_none() {
                todo_items.push(item);
            } else {
                done_items.push(item);
            }
        }
        proof {
            assert(orig.subrange(0, orig.len() as int) =~= orig);
        }
        TodoItems {
            active_section: Section::TODO,
            todo_items,
            done_items,
            removed_items: Vec::new(),
            highlighted_todo_item: 0,
            highlighted_done_item: 0,
        }
    }

    /// The empty list: no items anywhere, the open section active,
    /// both highlights at the top.
    pub fn empty() -> (r: TodoItems)
        ensures
            r.todo_items@.len() == 0,
            r.done_items@.len() == 0,
            r.removed_items@.len() == 0,
            r.active_section is TODO,
            r.highlighted_todo_item == 0,
            r.highlighted_done_item == 0,
            r.wf(),
    {
        TodoItems {
            active_section: Section::TODO,
            todo_items: Vec::new(),
            done_items: Vec::new(),
            removed_items: Vec::new(),
            highlighted_todo_item: 0,
            highlighted_done_item: 0,
        }
    }

    /// Moves the active section's highlight one item down, stopping at
    /// the last item.
    pub fn next_item(&mut self)
        requires
            old(self).wf(),
        ensures
            final(self).wf(),
            *final(self) == old(self).spec_next_item(),
    {
        if matches!(self.active_section, Section::TODO) {
            if self.todo_items.len() > 0 && self.highlighted_todo_item < self.todo_items.len()
                - 1 {
                self.highlighted_todo_item = self.highlighted_todo_item + 1;
            }
        } else {
            if self.done_items.len() > 0 && self.highlighted_done_item < self.done_items.len()
                - 1 {
                self.highlighted_done_item = self.highlighted_done_item + 1;
            }
        }
    }

    /// Moves the active section's highlight one item up, stopping at
    /// the first item.
    pub fn prev_item(&mut self)
        requires
            old(self).wf(),
        ensures
            final(self).wf(),
            *final(self) == old(self).spec_prev_item(),
    {
        if matches!(self.active_section, Section::TODO) {
            if self.highlighted_todo_item > 0 {
                self.highlighted_todo_item = self.highlighted_todo_item - 1;
            }
        } else {
            if self.highlighted_done_item > 0 {
                self.highlighted_done_item = self.highlighted_done_item - 1;
            }
        }
    }

    /// Makes the other section the active one.
    pub fn toggle_section(&mut self)
        requires
            old(self).wf(),
        ensures
            final(self).wf(),
            *final(self) == old(self).spec_toggle_section(),
    {
        if matches!(self.active_section, Section::TODO) {
            self.active_section = Section::DONE;
        } else {
            self.active_section = Section::TODO;
        }
    }

    /// Moves the highlighted item of the active section to the removed
    /// list; with an empty active section nothing happens.
    pub fn remove_selected_item(&mut self)
        requires
            old(self).wf(),
        ensures
            final(self).wf(),
            TodoItems::remove_rel(*old(self), *final(self)),
            final(self).total_items() == old(self).total_items(),
    {
        if matches!(self.active_section, Section::TODO) && self.todo_items.len() > 0 {
            let mut item = self.todo_items.remove(self.highlighted_todo_item);
            item.working = false;
            self.removed_items.push(item);
            if self.todo_items.len() > 0 && self.highlighted_todo_item > self.todo_items.len()
                - 1 {
                self.highlighted_todo_item = self.highlighted_todo_item - 1;
            }
        } else if matches!(self.active_section, Section::DONE) && self.done_items.len() > 0 {
            let item = self.done_items.remove(self.highlighted_done_item);
            self.removed_items.push(item);
            if self.done_items.len() > 0 && self.highlighted_done_item > self.done_items.len()
                - 1 {
                self.highlighted_done_item = self.highlighted_done_item - 1;
            }
        }
    }

    /// Completes the highlighted open item as of `now` and moves it to
    /// the front of the done list, or reopens the highlighted done
    /// item onto the back of the open list.
    pub fn toggle_selected_item_completeness_at(&mut self, now: i64)
        requires
            old(self).wf(),
        ensures
            final(self).wf(),
            TodoItems::toggle_complete_rel(*old(self), *final(self), now as int),
            final(self).total_items() == old(self).total_items(),
    {
        if matches!(self.active_section, Section::TODO) && self.todo_items.len() > 0 {
            let mut item = self.todo_items.remove(self.highlighted_todo_item);
            item.working = false;
            item.completed_at = Option::Some(now);
            self.done_items.insert(0, item);
            if self.todo_items.len() > 0 && self.highlighted_todo_item > self.todo_items.len()
                - 1 {
                self.highlighted_todo_item = self.highlighted_todo_item - 1;
            }
        } else if matches!(self.active_section, Section::DONE) && self.done_items.len() > 0 {
            let mut item = self.done_items.remove(self.highlighted_done_item);
            item.completed_at = Option::None;
            self.todo_items.push(item);
            if self.done_items.len() > 0 && self.highlighted_done_item > self.done_items.len()
                - 1 {
                self.highlighted_done_item = self.highlighted_done_item - 1;
            }
        }
    }

    /// Completes or reopens the highlighted item, stamping completion
    /// with the clock's current reading.
    pub fn toggle_selected_item_completeness(&mut self)
        requires
            old(self).wf(),
        ensures
            final(self).wf(),
            exists|t: int| TodoItems::toggle_complete_rel(*old(self), *final(self), t),
            final(self).total_items() == old(self).total_items(),
    {
        let now = clock::now_unix_seconds();
        self.toggle_selected_item_completeness_at(now);
    }

    /// Flips whether the highlighted open item is being worked on;
    /// nothing happens in the done section or with no open items.
    pub fn toggle_selected_item_working(&mut self)
        requires
            old(self).wf(),
        ensures
            final(self).wf(),
            TodoItems::toggle_working_rel(*old(self), *final(self)),
            final(self).total_items() == old(self).total_items(),
    {
        if matches!(self.active_section, Section::TODO) && self.todo_items.len() > 0 {
            let hi = self.highlighted_todo_item;
            let flipped = !self.todo_items[hi].working;
            let mut item = self.todo_items.remove(hi);
            item.working = flipped;
            self.todo_items.insert(hi, item);
            proof {
                assert(self.todo_items@ =~= old(self).todo_items@.update(
                    hi as int,
                    TodoItem {
                        working: !old(self).todo_items@[hi as int].working,
                        ..old(self).todo_items@[hi as int]
                    },
                ));
            }
        }
    }

    /// Puts the most recently removed item back into the section its
    /// completion state says it belongs to; with nothing removed,
    /// nothing happens.
    pub fn undo_last_remove(&mut self)
        requires
            old(self).wf(),
        ensures
            final(self).wf(),
            TodoItems::undo_rel(*old(self), *final(self)),
            final(self).total_items() == old(self).total_items(),
    {
        if self.removed_items.len() < 1 {
            return ;
        }
        let item = match self.removed_items.pop() {
            Option::Some(it) => it,
            Option::None => {
                proof {
                    assert(false);
                }
                return ;
            },
        };
        proof {
            assert(old(self).removed_items@.drop_last() =~= self.removed_items@);
        }
        if item.completed_at.is_none() {
            self.todo_items.push(item);
        } else {
            self.done_items.push(item);
        }
    }
}

/// `chars` as cells, all in one colour and attribute set.
pub open spec fn styled_cells(chars: Seq<char>, colour: Colour, attrs: Attributes) -> Seq<
    Character,
> {
    Seq::new(chars.len(), |i: int| Character::with_style(chars[i], colour, attrs))
}

/// The attribute set that only reverses video, marking the highlight.
pub open spec fn reverse_attrs() -> Attributes {
    Attributes { bold: false, dim: false, underline: false, reverse: true }
}

/// The "ddd:hh:mm:ss - " text for a span of `secs` seconds: days
/// padded to three digits, hours, minutes and seconds to two.
pub open spec fn age_prefix_chars(secs: int) -> Seq<char> {
    utils::padded_dec_chars(secs / 86400, 3) + seq![':'] + utils::padded_dec_chars(
        (secs % 86400) / 3600,
        2,
    ) + seq![':'] + utils::padded_dec_chars((secs % 3600) / 60, 2) + seq![':']
        + utils::padded_dec_chars(secs % 60, 2) + seq![' ', '-', ' ']
}

/// `text` as cells, all in one colour and attribute set.
fn styled_text_cells(text: &Vec<char>, colour: Colour, attrs: Attributes) -> (v: Vec<Character>)
    ensures
        v@ == styled_cells(text@, colour, attrs),
{
    let mut v: Vec<Character> = Vec::new();
    let n: usize = text.len();
    for i in 0..n
        invariant
            n == text@.len(),
            v@.len() == i,
            forall|j: int|
                0 <= j < i ==> v@[j] == Character::with_style(text@[j], colour, attrs),
    {
        let ch: char = text[i];
        let mut cell = Character::from_char(ch);
        cell.attributes = attrs;
        cell.colour = colour;
        v.push(cell);
    }
    proof {
        let expected = styled_cells(text@, colour, attrs);
        assert forall|j: int| 0 <= j < v@.len() implies v@[j] == expected[j] by {
            assert(expected[j] == Character::with_style(text@[j], colour, attrs));
        }
        assert(v@ =~= expected);
    }
    v
}

/// The "ddd:hh:mm:ss - " text for `secs` seconds.
fn age_prefix_text(secs: u64) -> (t: Vec<char>)
    ensures
        t@ == age_prefix_chars(secs as int),
{
    let days: u64 = secs / 86400;
    let hours: u64 = (secs % 86400) / 3600;
    let minutes: u64 = (secs % 3600) / 60;
    let seconds: u64 = secs % 60;
    let mut t = utils::u64_dec_chars_padded(days, 3);
    t.push(':');
    let mut part = utils::u64_dec_chars_padded(hours, 2);
    t.append(&mut part);
    t.push(':');
    let mut part = utils::u64_dec_chars_padded(minutes, 2);
    t.append(&mut part);
    t.push(':');
    let mut part = utils::u64_dec_chars_padded(seconds, 2);
    t.append(&mut part);
    t.push(' ');
    t.push('-');
    t.push(' ');
    proof {
        assert(t@ =~= age_prefix_chars(secs as int));
    }
    t
}

/// The widget state around the list: the drawn buffer, a dirty flag
/// that skips redundant redraws, the items, the separator row between
/// the sections, and when the ages were last recomputed.
pub struct TodoState {
    pub main_buffer: Buffer,
    pub update_main_buffer: bool,
    pub items: TodoItems,
    pub item_seperator_height: usize,
    pub ages_last_calculated_at: i64,
}

/// The todo-list widget: its region, title and state.
pub struct TodoWidget {
    pub width: u16,
    pub height: u16,
    pub title: String,
    pub state: TodoState,
}

/// `now` minus one hundred seconds, clamped against underflow.
pub open spec fn hundred_before(now: i64) -> i64 {
    if now > i64::MIN + 100 {
        (now - 100) as i64
    } else {
        now
    }
}

impl TodoWidget {
    /// One open item's row: the grey age prefix, then the title,
    /// orange while being worked on and reversed while highlighted.
    pub open spec fn todo_row_cells(item: TodoItem, highlighted: bool, now: int) -> Seq<
        Character,
    > {
        styled_cells(
            age_prefix_chars(spec_seconds_between(item.added_at as int, now)),
            colours::grey_spec(),
            empty_attrs(),
        ) + styled_cells(
            item.title@,
            if item.working {
                colours::orange_spec()
            } else {
                colours::grey_spec()
            },
            if highlighted {
                reverse_attrs()
            } else {
                empty_attrs()
            },
        )
    }

    /// One done item's row: the grey time-to-completion prefix, then
    /// the title, reversed while highlighted.
    pub open spec fn done_row_cells(item: TodoItem, highlighted: bool) -> Seq<Character> {
        styled_cells(
            age_prefix_chars(
                spec_seconds_between(item.added_at as int, item.completed_at->0 as int),
            ),
            colours::grey_spec(),
            empty_attrs(),
        ) + styled_cells(
            item.title@,
            colours::grey_spec(),
            if highlighted {
                reverse_attrs()
            } else {
                empty_attrs()
            },
        )
    }

    /// `base` after the first `k` open items' rows are written, row
    /// `i` of the grid for item `i`.
    pub open spec fn drawn_todo_rows(
        base: Seq<Character>,
        items: Seq<TodoItem>,
        k: int,
        w: int,
        active: bool,
        hi: int,
        now: int,
    ) -> Seq<Character>
        decreases k,
    {
        if k <= 0 {
            base
        } else {
            write_clipped(
                Self::drawn_todo_rows(base, items, k - 1, w, active, hi, now),
                (k - 1) * w,
                Self::todo_row_cells(items[k - 1], active && hi == k - 1, now),
            )
        }
    }

    /// `base` after the first `k` done items' rows are written, item
    /// `i` going to the row just under the separator plus `i`; rows
    /// past the bottom are skipped.
    pub open spec fn drawn_done_rows(
        base: Seq<Character>,
        items: Seq<TodoItem>,
        k: int,
        w: int,
        active: bool,
        hi: int,
        sep: int,
        h: int,
    ) -> Seq<Character>
        decreases k,
    {
        if k <= 0 {
            base
        } else {
            let prev = Self::drawn_done_rows(base, items, k - 1, w, active, hi, sep, h);
            let line = (k - 1) + sep + 1;
            if line < h {
                write_clipped(
                    prev,
                    line * w,
                    Self::done_row_cells(items[k - 1], active && hi == k - 1),
                )
            } else {
                prev
            }
        }
    }

    /// Every cell of the freshly redrawn list buffer, with the ages
    /// computed as of `now`: the open items' rows from the top, the
    /// dashed separator, then the done items' rows under it.
    pub open spec fn draw_result(&self, now: int) -> Seq<Character> {
        let w = self.width as int;
        let items = self.state.items;
        let blank = Seq::new(self.state.main_buffer@.len(), |i: int| Character::blank_spec());
        let after_todo = Self::drawn_todo_rows(
            blank,
            items.todo_items@,
            items.todo_items@.len() as int,
            w,
            items.active_section is TODO,
            items.highlighted_todo_item as int,
            now,
        );
        let after_sep = write_clipped(
            after_todo,
            self.state.item_seperator_height * w,
            styled_cells(
                Seq::new(self.width as nat, |i: int| '-'),
                colours::grey_spec(),
                empty_attrs(),
            ),
        );
        Self::drawn_done_rows(
            after_sep,
            items.done_items@,
            items.done_items@.len() as int,
            w,
            items.active_section is DONE,
            items.highlighted_done_item as int,
            self.state.item_seperator_height as int,
            self.height as int,
        )
    }

    /// Everything outside the item lists stays as it is.
    pub open spec fn non_item_fields_kept(&self, post: &Self) -> bool {
        &&& post.width == self.width
        &&& post.height == self.height
        &&& post.title == self.title
        &&& post.state.main_buffer == self.state.main_buffer
        &&& post.state.item_seperator_height == self.state.item_seperator_height
        &&& post.state.ages_last_calculated_at == self.state.ages_last_calculated_at
    }

    /// How the widget seeds itself at `now`: two open items and two
    /// done ones, the most recent completion stamped `now` and the
    /// other a hundred seconds earlier.
    pub open spec fn seeded_rel(&self, post: &Self, now: i64) -> bool {
        let items = post.state.items;
        &&& self.non_item_fields_kept(post)
        &&& post.state.update_main_buffer == self.state.update_main_buffer
        &&& items.active_section is TODO
        &&& items.removed_items@.len() == 0
        &&& items.highlighted_todo_item == 0
        &&& items.highlighted_done_item == 0
        &&& items.todo_items@.len() == 2
        &&& items.todo_items@[0].title@ == "Buy groceries"@
        &&& items.todo_items@[0].added_at == now
        &&& items.todo_items@[0].completed_at is None
        &&& items.todo_items@[0].working == false
        &&& items.todo_items@[1].title@ == "Answer emails"@
        &&& items.todo_items@[1].added_at == 1711978797i64
        &&& items.todo_items@[1].completed_at is None
        &&& items.todo_items@[1].working == false
        &&& items.done_items@.len() == 2
        &&& items.done_items@[0].title@ == "Write code"@
        &&& items.done_items@[0].added_at == 1680356397i64
        &&& items.done_items@[0].completed_at == Option::Some(hundred_before(now))
        &&& items.done_items@[0].working == false
        &&& items.done_items@[1].title@ == "Feed dogs"@
        &&& items.done_items@[1].added_at == 1711978797i64
        &&& items.done_items@[1].completed_at == Option::Some(now)
        &&& items.done_items@[1].working == false
    }
}

impl WidgetTrait for TodoWidget {
    open spec fn wf(&self) -> bool {
        &&& self.title@ == "Todo"@
        &&& self.state.items.wf()
        &&& self.state.items.total_items() <= 0xFFFF
        &&& self.state.main_buffer.wf()
        &&& self.state.main_buffer.width == self.width
        &&& self.state.main_buffer.height == self.height
        &&& self.state.item_seperator_height <= self.height
    }

    open spec fn spec_width(&self) -> u16 {
        self.width
    }

    open spec fn spec_height(&self) -> u16 {
        self.height
    }

    /// Up and Down move the highlight; Left and Right switch the
    /// section and mirror the separator; Enter completes or reopens
    /// the highlighted item; 'w' flips its working flag; 'd' removes
    /// it; 'u' undoes the last removal. A recognized key marks the
    /// buffer for redraw; everything else is ignored.
    open spec fn event_rel(&self, e: Event, post: &Self) -> bool {
        match e {
            Event::Key(KeyCode::Up) => *post == (TodoWidget {
                state: TodoState {
                    update_main_buffer: true,
                    items: self.state.items.spec_prev_item(),
                    ..self.state
                },
                ..*self
            }),
            Event::Key(KeyCode::Down) => *post == (TodoWidget {
                state: TodoState {
                    update_main_buffer: true,
                    items: self.state.items.spec_next_item(),
                    ..self.state
                },
                ..*self
            }),
            Event::Key(KeyCode::Left) | Event::Key(KeyCode::Right) => *post == (TodoWidget {
                state: TodoState {
                    update_main_buffer: true,
                    items: self.state.items.spec_toggle_section(),
                    item_seperator_height: (self.height - self.state.item_seperator_height) as usize,
                    ..self.state
                },
                ..*self
            }),
            Event::Key(KeyCode::Enter) => {
                &&& self.non_item_fields_kept(post)
                &&& post.state.update_main_buffer == true
                &&& exists|t: int|
                    TodoItems::toggle_complete_rel(self.state.items, post.state.items, t)
                &&& post.state.items.total_items() == self.state.items.total_items()
            },
            Event::Key(KeyCode::Char(c)) => if c == 'w' {
                &&& self.non_item_fields_kept(post)
                &&& post.state.update_main_buffer == true
                &&& TodoItems::toggle_working_rel(self.state.items, post.state.items)
                &&& post.state.items.total_items() == self.state.items.total_items()
            } else if c == 'd' {
                &&& self.non_item_fields_kept(post)
                &&& post.state.update_main_buffer == true
                &&& TodoItems::remove_rel(self.state.items, post.state.items)
                &&& post.state.items.total_items() == self.state.items.total_items()
            } else if c == 'u' {
                &&& self.non_item_fields_kept(post)
                &&& post.state.update_main_buffer == true
                &&& TodoItems::undo_rel(self.state.items, post.state.items)
                &&& post.state.items.total_items() == self.state.items.total_items()
            } else {
                post == self
            },
            _ => post == self,
        }
    }

    /// An update that sees more than a second since the last age
    /// recomputation marks the buffer for redraw and remembers the
    /// reading; otherwise nothing changes.
    open spec fn update_rel(&self, post: &Self) -> bool {
        exists|t: i64|
            *post == (if spec_seconds_between(self.state.ages_last_calculated_at as int, t as int)
                > 1 {
                TodoWidget {
                    state: TodoState {
                        update_main_buffer: true,
                        ages_last_calculated_at: t,
                        ..self.state
                    },
                    ..*self
                }
            } else {
                *self
            })
    }

    /// With the dirty flag clear a redraw does nothing; with it set,
    /// the buffer is rebuilt from the items as of some clock reading
    /// and the flag cleared.
    open spec fn draw_rel(&self, post: &Self) -> bool {
        if !self.state.update_main_buffer {
            post == self
        } else {
            exists|t: i64|
                {
                    &&& post.width == self.width
                    &&& post.height == self.height
                    &&& post.title == self.title
                    &&& post.state.items == self.state.items
                    &&& post.state.item_seperator_height == self.state.item_seperator_height
                    &&& post.state.ages_last_calculated_at == self.state.ages_last_calculated_at
                    &&& post.state.update_main_buffer == false
                    &&& post.state.main_buffer.width == self.state.main_buffer.width
                    &&& post.state.main_buffer.height == self.state.main_buffer.height
                    &&& post.state.main_buffer.x == self.state.main_buffer.x
                    &&& post.state.main_buffer.y == self.state.main_buffer.y
                    &&& post.state.main_buffer@ == self.draw_result(t as int)
                }
        }
    }

    /// Initialization seeds the list with the four starter items as
    /// of some clock reading.
    open spec fn init_rel(&self, post: &Self) -> bool {
        exists|t: i64| self.seeded_rel(post, t)
    }

    open spec fn buffer_width(&self) -> u16 {
        self.state.main_buffer.width
    }

    open spec fn buffer_height(&self) -> u16 {
        self.state.main_buffer.height
    }

    open spec fn buffer_cells(&self) -> Seq<Character> {
        self.state.main_buffer@
    }

    open spec fn title_spec(&self) -> Seq<char> {
        self.title@
    }

    proof fn buffer_dims_ok(&self) {
    }

    proof fn reserved_keys_ignored(&self, post: &Self, e: Event) {
    }

    fn init(&mut self) {
        let now = clock::now_unix_seconds();
        let completed_earlier: i64 = if now > i64::MIN + 100 {
            now - 100
        } else {
            now
        };
        let mut seed: Vec<TodoItem> = Vec::new();
        seed.push(
            TodoItem {
                title: String::from_str("Buy groceries"),
                added_at: now,
                completed_at: Option::None,
                working: false,
            },
        );
        seed.push(
            TodoItem {
                title: String::from_str("Answer emails"),
                added_at: 1711978797,
                completed_at: Option::None,
                working: false,
            },
        );
        seed.push(
            TodoItem {
                title: String::from_str("Write code"),
                added_at: 1680356397,
                completed_at: Option::Some(completed_earlier),
                working: false,
            },
        );
        seed.push(
            TodoItem {
                title: String::from_str("Feed dogs"),
                added_at: 1711978797,
                completed_at: Option::Some(now),
                working: false,
            },
        );
        let ghost s = seed@;
        let items = TodoItems::new(seed);
        proof {
            let p = |it: TodoItem| it.completed_at is None;
            let q = |it: TodoItem| it.completed_at is Some;
            reveal_with_fuel(Seq::filter, 6);
            let s3 = s.drop_last();
            let s2 = s3.drop_last();
            let s1 = s2.drop_last();
            let s0 = s1.drop_last();
            assert(s0.len() == 0);
            assert(s1.filter(p) =~= seq![s[0]]);
            assert(s2.filter(p) =~= seq![s[0], s[1]]);
            assert(s3.filter(p) =~= seq![s[0], s[1]]);
            assert(s.filter(p) =~= seq![s[0], s[1]]);
            assert(s1.filter(q) =~= Seq::<TodoItem>::empty());
            assert(s2.filter(q) =~= Seq::<TodoItem>::empty());
            assert(s3.filter(q) =~= seq![s[2]]);
            assert(s.filter(q) =~= seq![s[2], s[3]]);
        }
        self.state.items = items;
        proof {
            assert(self.seeded_rel_holds(old(self), now));
        }
    }

    fn handle_event(&mut self, event_to_handle: &Event) {
        match event_to_handle {
            Event::Key(code) => {
                match code {
                    KeyCode::Up => {
                        self.state.update_main_buffer = true;
                        self.state.items.prev_item();
                    },
                    KeyCode::Down => {
                        self.state.update_main_buffer = true;
                        self.state.items.next_item();
                    },
                    KeyCode::Left | KeyCode::Right => {
                        self.state.update_main_buffer = true;
                        self.state.items.toggle_section();
                        self.state.item_seperator_height = self.height as usize
                            - self.state.item_seperator_height;
                    },
                    KeyCode::Enter => {
                        self.state.update_main_buffer = true;
                        self.state.items.toggle_selected_item_completeness();
                    },
                    KeyCode::Char(c) => {
                        if *c == 'w' {
                            self.state.update_main_buffer = true;
                            self.state.items.toggle_selected_item_working();
                        } else if *c == 'd' {
                            self.state.update_main_buffer = true;
                            self.state.items.remove_selected_item();
                        } else if *c == 'u' {
                            self.state.update_main_buffer = true;
                            self.state.items.undo_last_remove();
                        }
                    },
                    _ => {},
                }
            },
            _ => {},
        }
    }

    fn update(&mut self) {
        let now = clock::now_unix_seconds();
        let elapsed = clock::seconds_between(self.state.ages_last_calculated_at, now);
        if elapsed > 1 {
            self.state.update_main_buffer = true;
            self.state.ages_last_calculated_at = now;
        }
        proof {
            assert(old(self).update_rel_witness(self, now));
        }
    }

    fn draw(&mut self) {
        if !self.state.update_main_buffer {
            return ;
        }
        let now = clock::now_unix_seconds();
        let w: usize = self.width as usize;
        self.state.main_buffer.clear();
        let ghost blank = self.state.main_buffer@;
        proof {
            assert(blank =~= Seq::new(
                old(self).state.main_buffer@.len(),
                |i: int| Character::blank_spec(),
            ));
        }
        let ghost active_todo = self.state.items.active_section is TODO;
        let ghost hi_todo = self.state.items.highlighted_todo_item as int;
        let n: usize = self.state.items.todo_items.len();
        for i in 0..n
            invariant
                w == self.width,
                n == self.state.items.todo_items@.len(),
                self.width == old(self).width,
                self.height == old(self).height,
                self.title == old(self).title,
                self.state.items == old(self).state.items,
                self.state.item_seperator_height == old(self).state.item_seperator_height,
                self.state.ages_last_calculated_at == old(self).state.ages_last_calculated_at,
                self.state.update_main_buffer == old(self).state.update_main_buffer,
                self.state.items.wf(),
                self.state.items.total_items() <= 0xFFFF,
                self.state.main_buffer.wf(),
                self.state.main_buffer.width == old(self).state.main_buffer.width,
                self.state.main_buffer.height == old(self).state.main_buffer.height,
                self.state.main_buffer.x == old(self).state.main_buffer.x,
                self.state.main_buffer.y == old(self).state.main_buffer.y,
                self.state.main_buffer.width == self.width,
                self.state.main_buffer.height == self.height,
                blank == Seq::new(old(self).state.main_buffer@.len(), |i: int| Character::blank_spec()),
                active_todo == (self.state.items.active_section is TODO),
                hi_todo == self.state.items.highlighted_todo_item as int,
                self.state.main_buffer@ == TodoWidget::drawn_todo_rows(
                    blank,
                    self.state.items.todo_items@,
                    i as int,
                    w as int,
                    active_todo,
                    hi_todo,
                    now as int,
                ),
        {
            proof {
                assert((i as int) * (w as int) < 0x1_0000_0000) by (nonlinear_arith)
                    requires
                        0 <= i <= 0xFFFF,
                        0 <= w <= 0xFFFF,
                ;
            }
            let item_age: u64;
            let item_working: bool;
            {
                let item = &self.state.items.todo_items[i];
                item_age = item.calculate_age_at(now);
                item_working = item.working;
            }
            let highlighted: bool = matches!(self.state.items.active_section, Section::TODO)
                && self.state.items.highlighted_todo_item == i;
            let text = age_prefix_text(item_age);
            let mut row = styled_text_cells(&text, colours::grey(), crate::character::empty_attr_set());
            let colour_opt: Option<Colour> = if item_working {
                Option::Some(colours::orange())
            } else {
                Option::None
            };
            let attrs_opt: Option<Attributes> = if highlighted {
                Option::Some(Attributes { bold: false, dim: false, underline: false, reverse: true })
            } else {
                Option::None
            };
            let title_cells = Character::vec_from_string(
                &self.state.items.todo_items[i].title,
                colour_opt,
                attrs_opt,
            );
            let mut title_cells = title_cells;
            row.append(&mut title_cells);
            proof {
                let expected = TodoWidget::todo_row_cells(
                    self.state.items.todo_items@[i as int],
                    active_todo && hi_todo == i as int,
                    now as int,
                );
                assert forall|j: int| 0 <= j < row@.len() implies row@[j] == expected[j] by {
                    if j < text@.len() {
                    } else {
                        assert(row@[j] == Character::styled_spec(
                            self.state.items.todo_items@[i as int].title@[j - text@.len()],
                            colour_opt,
                            attrs_opt,
                        ));
                    }
                }
                assert(row@ =~= expected);
            }
            let pos: usize = i * w;
            self.state.main_buffer.insert_char_slice_clipped(pos, &row);
        }
        let mut dash_text: Vec<char> = Vec::new();
        for j in 0..w
            invariant
                dash_text@.len() == j,
                forall|k: int| 0 <= k < j ==> dash_text@[k] == '-',
        {
            dash_text.push('-');
        }
        let sep_cells = styled_text_cells(&dash_text, colours::grey(), crate::character::empty_attr_set());
        proof {
            assert(dash_text@ =~= Seq::new(self.width as nat, |i: int| '-'));
            assert((self.state.item_seperator_height as int) * (w as int) < 0x1_0000_0000)
                by (nonlinear_arith)
                requires
                    0 <= self.state.item_seperator_height <= 0xFFFF,
                    0 <= w <= 0xFFFF,
            ;
        }
        let sep_pos: usize = self.state.item_seperator_height * w;
        self.state.main_buffer.insert_char_slice_clipped(sep_pos, &sep_cells);
        let ghost after_sep = self.state.main_buffer@;
        let ghost active_done = self.state.items.active_section is DONE;
        let ghost hi_done = self.state.items.highlighted_done_item as int;
        let sep: usize = self.state.item_seperator_height;
        let h: usize = self.height as usize;
        let m: usize = self.state.items.done_items.len();
        for i in 0..m
            invariant
                w == self.width,
                h == self.height,
                sep == self.state.item_seperator_height,
                sep <= h,
                m == self.state.items.done_items@.len(),
                self.width == old(self).width,
                self.height == old(self).height,
                self.title == old(self).title,
                self.state.items == old(self).state.items,
                self.state.item_seperator_height == old(self).state.item_seperator_height,
                self.state.ages_last_calculated_at == old(self).state.ages_last_calculated_at,
                self.state.update_main_buffer == old(self).state.update_main_buffer,
                self.state.items.wf(),
                self.state.items.total_items() <= 0xFFFF,
                self.state.main_buffer.wf(),
                self.state.main_buffer.width == old(self).state.main_buffer.width,
                self.state.main_buffer.height == old(self).state.main_buffer.height,
                self.state.main_buffer.x == old(self).state.main_buffer.x,
                self.state.main_buffer.y == old(self).state.main_buffer.y,
                self.state.main_buffer.width == self.width,
                self.state.main_buffer.height == self.height,
                active_done == (self.state.items.active_section is DONE),
                hi_done == self.state.items.highlighted_done_item as int,
                self.state.main_buffer@ == TodoWidget::drawn_done_rows(
                    after_sep,
                    self.state.items.done_items@,
                    i as int,
                    w as int,
                    active_done,
                    hi_done,
                    sep as int,
                    h as int,
                ),
        {
            let line: usize = i + sep + 1;
            if line < h {
                proof {
                    assert((line as int) * (w as int) < 0x1_0000_0000) by (nonlinear_arith)
                        requires
                            0 <= line <= 0xFFFF,
                            0 <= w <= 0xFFFF,
                    ;
                }
                let item_added: i64;
                let item_completed: i64;
                {
                    let item = &self.state.items.done_items[i];
                    item_added = item.added_at;
                    item_completed = match item.completed_at {
                        Option::Some(t) => t,
                        Option::None => {
                            proof {
                                assert(false);
                            }
                            0
                        },
                    };
                }
                let ttc: u64 = clock::seconds_between(item_added, item_completed);
                let highlighted: bool = matches!(self.state.items.active_section, Section::DONE)
                    && self.state.items.highlighted_done_item == i;
                let text = age_prefix_text(ttc);
                let mut row = styled_text_cells(
                    &text,
                    colours::grey(),
                    crate::character::empty_attr_set(),
                );
                let attrs_opt: Option<Attributes> = if highlighted {
                    Option::Some(
                        Attributes { bold: false, dim: false, underline: false, reverse: true },
                    )
                } else {
                    Option::None
                };
                let title_cells = Character::vec_from_string(
                    &self.state.items.done_items[i].title,
                    Option::None,
                    attrs_opt,
                );
                let mut title_cells = title_cells;
                row.append(&mut title_cells);
                proof {
                    let expected = TodoWidget::done_row_cells(
                        self.state.items.done_items@[i as int],
                        active_done && hi_done == i as int,
                    );
                    assert forall|j: int| 0 <= j < row@.len() implies row@[j] == expected[j] by {
                        if j < text@.len() {
                        } else {
                            assert(row@[j] == Character::styled_spec(
                                self.state.items.done_items@[i as int].title@[j - text@.len()],
                                Option::None,
                                attrs_opt,
                            ));
                        }
                    }
                    assert(row@ =~= expected);
                }
                let pos: usize = line * w;
                self.state.main_buffer.insert_char_slice_clipped(pos, &row);
            }
        }
        self.state.update_main_buffer = false;
        proof {
            assert(old(self).draw_rel_witness(self, now));
        }
    }

    fn generate_buffer(&mut self) -> (b: Buffer) {
        self.state.main_buffer.clone()
    }

    fn get_title(&self) -> (t: &String) {
        &self.title
    }
}

impl TodoWidget {
    /// `seeded_rel` with the clock reading named, for use as an
    /// explicit witness.
    pub open spec fn seeded_rel_holds(&self, pre: &Self, now: i64) -> bool {
        pre.seeded_rel(self, now)
    }

    /// `update_rel`'s body with the clock reading named, for use as an
    /// explicit witness.
    pub open spec fn update_rel_witness(&self, post: &Self, t: i64) -> bool {
        *post == (if spec_seconds_between(self.state.ages_last_calculated_at as int, t as int)
            > 1 {
            TodoWidget {
                state: TodoState {
                    update_main_buffer: true,
                    ages_last_calculated_at: t,
                    ..self.state
                },
                ..*self
            }
        } else {
            *self
        })
    }

    /// `draw_rel`'s dirty branch with the clock reading named, for use
    /// as an explicit witness.
    pub open spec fn draw_rel_witness(&self, post: &Self, t: i64) -> bool {
        &&& post.width == self.width
        &&& post.height == self.height
        &&& post.title == self.title
        &&& post.state.items == self.state.items
        &&& post.state.item_seperator_height == self.state.item_seperator_height
        &&& post.state.ages_last_calculated_at == self.state.ages_last_calculated_at
        &&& post.state.update_main_buffer == false
        &&& post.state.main_buffer.width == self.state.main_buffer.width
        &&& post.state.main_buffer.height == self.state.main_buffer.height
        &&& post.state.main_buffer.x == self.state.main_buffer.x
        &&& post.state.main_buffer.y == self.state.main_buffer.y
        &&& post.state.main_buffer@ == self.draw_result(t as int)
    }
}

/// A fresh, empty todo widget for the given region, dirty so that the
/// first frame draws it; the separator starts ten rows above the
/// bottom, so the region must be at least ten rows tall. The offsets
/// are carried for symmetry with the other widget constructors and
/// unused.
pub fn new(width: u16, height: u16, _x: usize, _y: usize) -> (w: TodoWidget)
    requires
        height >= 10,
    ensures
        w.wf(),
        w.spec_width() == width,
        w.spec_height() == height,
        w.state.update_main_buffer == true,
        w.state.items.active_section is TODO,
        w.state.items.todo_items@.len() == 0,
        w.state.items.done_items@.len() == 0,
        w.state.items.removed_items@.len() == 0,
        w.state.items.highlighted_todo_item == 0,
        w.state.items.highlighted_done_item == 0,
        w.state.item_seperator_height == height - 10,
        forall|i: int| 0 <= i < w.state.main_buffer@.len() ==> w.state.main_buffer@[i] == Character::blank_spec(),
{
    TodoWidget {
        width,
        height,
        title: String::from_str("Todo"),
        state: TodoState {
            main_buffer: Buffer::new(width, height),
            update_main_buffer: true,
            item_seperator_height: (height as usize) - 10,
            items: TodoItems::empty(),
            ages_last_calculated_at: i64::MIN,
        },
    }
}

} // verus!
