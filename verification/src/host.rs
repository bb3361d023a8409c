//! The render loop's core: the host owns the composite buffers for the
//! current and previous frame plus the widget collection, dispatches
//! input, and each frame merges the active widget's buffer into the
//! screen and emits draw commands only for the cells that changed.
use vstd::prelude::*;

use crate::buffer::Buffer;
use crate::buffer::overlay;
use crate::buffer::write_clipped;
use crate::character::Character;
use crate::colours;
use crate::dashboard_widget;
use crate::todo_widget;
use crate::widget;
use crate::widget::Event;
use crate::widget::KeyCode;
use crate::widget::Widget;
use crate::widget::WidgetTrait;

verus! {

use vstd::arithmetic::div_mod::lemma_fundamental_div_mod_converse_div;
use vstd::arithmetic::div_mod::lemma_fundamental_div_mod_converse_mod;

/// One positioned draw: move to column `x`, row `y`, set the styling
/// of `character`, print its glyph, reset.
#[derive(Clone, Copy, PartialEq, Eq, Structural, Debug)]
pub struct DrawCommand {
    pub x: u16,
    pub y: u16,
    pub character: Character,
}

/// The command that repaints the cell at linear index `i` of a grid
/// `w` cells wide.
pub open spec fn command_at(i: int, w: int, ch: Character) -> DrawCommand {
    DrawCommand { x: (i % w) as u16, y: (i / w) as u16, character: ch }
}

/// The draw commands for the first `k` cells, in linear order, one for
/// each index where `new` and `prev` disagree.
pub open spec fn diff_upto(new: Seq<Character>, prev: Seq<Character>, w: int, k: int) -> Seq<
    DrawCommand,
>
    decreases k,
{
    if k <= 0 {
        Seq::empty()
    } else {
        let rest = diff_upto(new, prev, w, k - 1);
        if new[k - 1] != prev[k - 1] {
            rest.push(command_at(k - 1, w, new[k - 1]))
        } else {
            rest
        }
    }
}

/// The draw commands for a whole frame: one for every cell where the
/// new composite differs from the previous one, nothing else.
pub open spec fn spec_diff(new: Seq<Character>, prev: Seq<Character>, w: int) -> Seq<
    DrawCommand,
> {
    diff_upto(new, prev, w, new.len() as int)
}

/// Diff idempotence: a buffer diffed against itself emits no draw
/// commands, so re-rendering an unchanged composite writes nothing.
pub proof fn lemma_diff_idempotent(cells: Seq<Character>, w: int)
    ensures
        spec_diff(cells, cells, w) == Seq::<DrawCommand>::empty(),
{
    lemma_diff_upto_idempotent(cells, w, cells.len() as int);
}

proof fn lemma_diff_upto_idempotent(cells: Seq<Character>, w: int, k: int)
    ensures
        diff_upto(cells, cells, w, k) == Seq::<DrawCommand>::empty(),
    decreases k,
{
    if k > 0 {
        lemma_diff_upto_idempotent(cells, w, k - 1);
    }
}

/// The cell-by-cell comparison at the heart of the render loop: one
/// command per changed cell, scanned in linear order; unchanged cells
/// are never re-emitted.
pub fn diff(new: &Buffer, prev: &Buffer) -> (cmds: Vec<DrawCommand>)
    requires
        new.wf(),
        prev.wf(),
        new.width == prev.width,
        new.height == prev.height,
        new.width > 0,
    ensures
        cmds@ == spec_diff(new@, prev@, new.width as int),
{
    let mut cmds: Vec<DrawCommand> = Vec::new();
    let w: usize = new.width as usize;
    let total: usize = new.len();
    for i in 0..total
        invariant
            w == new.width,
            new.wf(),
            prev.wf(),
            new.width == prev.width,
            new.height == prev.height,
            new.width > 0,
            total == new@.len(),
            cmds@ == diff_upto(new@, prev@, w as int, i as int),
    {
        let a = new.get(i);
        let b = prev.get(i);
        if a != b {
            proof {
                assert(i / w < new.height) by (nonlinear_arith)
                    requires
                        0 < w,
                        0 <= i,
                        i < w * new.height,
                        total == w * new.height,
                        i < total,
                ;
            }
            let x: u16 = (i % w) as u16;
            let y: u16 = (i / w) as u16;
            cmds.push(DrawCommand { x, y, character: a });
        }
    }
    cmds
}

/// The host of the render loop: the composite buffer being built this
/// frame, the previous frame's composite, the widgets, and which one
/// is active.
pub struct Host {
    pub width: u16,
    pub height: u16,
    pub main_buffer: Buffer,
    pub prev_buffer: Buffer,
    pub widgets: Vec<Widget>,
    pub active_widget_index: usize,
    pub active_widget_changed: bool,
}

/// The linear position in the selector strip where the title of
/// widget `k` starts: position 2, then each earlier title plus one
/// cell of gap.
pub open spec fn title_pos(widgets: Seq<Widget>, k: int) -> int
    decreases k,
{
    if k <= 0 {
        2
    } else {
        title_pos(widgets, k - 1) + widgets[k - 1].title_spec().len() + 1
    }
}

/// `c` with its reverse-video flag flipped.
pub open spec fn highlight_cell(c: Character) -> Character {
    Character {
        attributes: c.attributes.spec_toggle(crate::character::Attribute::Reverse),
        ..c
    }
}

/// The cells of one title in the selector strip: the plain text,
/// reversed when it is the active widget's.
pub open spec fn title_cells(t: Seq<char>, active: bool) -> Seq<Character> {
    let base = t.map_values(|c: char| Character::from_char_spec(c));
    if active {
        base.map_values(|c: Character| highlight_cell(c))
    } else {
        base
    }
}

/// `cells` after the first `k` widgets' titles are written into the
/// selector strip, the active one reversed.
pub open spec fn titled_cells(
    cells: Seq<Character>,
    widgets: Seq<Widget>,
    k: int,
    active: int,
) -> Seq<Character>
    decreases k,
{
    if k <= 0 {
        cells
    } else {
        write_clipped(
            titled_cells(cells, widgets, k - 1, active),
            title_pos(widgets, k - 1),
            title_cells(widgets[k - 1].title_spec(), active == k - 1),
        )
    }
}

/// Every widget the host drives titles itself with one of three short
/// names.
proof fn lemma_title_len_bound(w: &Widget)
    requires
        w.wf(),
    ensures
        w.title_spec().len() <= 9,
{
    reveal_strlit("Todo");
    reveal_strlit("Dashboard");
    reveal_strlit("GIT");
}

impl Host {
    /// The host's invariant: both composites are full-screen grids,
    /// there are two widgets, each sized to the screen minus the
    /// border, and the active index points at one of them.
    pub open spec fn wf(&self) -> bool {
        &&& self.width >= 22
        &&& self.height >= 12
        &&& self.main_buffer.wf()
        &&& self.main_buffer.width == self.width
        &&& self.main_buffer.height == self.height
        &&& self.prev_buffer.wf()
        &&& self.prev_buffer.width == self.width
        &&& self.prev_buffer.height == self.height
        &&& self.widgets@.len() == 2
        &&& self.active_widget_index < self.widgets@.len()
        &&& forall|i: int|
            0 <= i < self.widgets@.len() ==> (#[trigger] self.widgets@[i]).wf()
                && self.widgets@[i].spec_width() == self.width - 2
                && self.widgets@[i].spec_height() == self.height - 2
    }

    /// A fresh host for a screen of the given size: a bordered blank
    /// composite, a blank previous frame, and the todo and dashboard
    /// widgets initialized for the screen minus its border, the todo
    /// list active. The screen must fit the dashboard's debug readout
    /// and the todo list's separator, since region sizes are fixed
    /// here once and for all.
    pub fn new(width: u16, height: u16) -> (h: Host)
        requires
            width >= 22,
            height >= 12,
        ensures
            h.wf(),
            h.width == width,
            h.height == height,
            h.active_widget_index == 0,
            h.active_widget_changed == true,
            h.widgets@.len() == 2,
            h.widgets@[0] is Todo,
            h.widgets@[1] is Dashboard,
            h.widgets@[0].init_rel(&h.widgets@[0]),
            h.widgets@[1].init_rel(&h.widgets@[1]),
            forall|i: int|
                0 <= i < h.prev_buffer@.len() ==> h.prev_buffer@[i] == Character::blank_spec(),
            forall|x: int, y: int|
                0 <= x < width && 0 <= y < height ==> #[trigger] h.main_buffer@[y * (width as int)
                    + x] == widget::border_cell_at(
                    Seq::new((width as int * height as int) as nat, |i: int| Character::blank_spec()),
                    width as int,
                    height as int,
                    colours::light_grey_spec(),
                    x,
                    y,
                ),
    {
        let mut main_buffer = Buffer::new(width, height);
        let ghost blank_main = main_buffer@;
        widget::add_buffer_border(&mut main_buffer, colours::light_grey());
        let prev_buffer = Buffer::new(width, height);
        let mut todo = todo_widget::new(width - 2, height - 2, 0, 0);
        let ghost todo_fresh = todo;
        todo.init();
        proof {
            let t = choose|t: i64| todo_fresh.seeded_rel(&todo, t);
            assert(todo_fresh.seeded_rel(&todo, t));
            assert(todo.seeded_rel(&todo, t));
            assert(todo.init_rel(&todo));
        }
        let mut dashboard = dashboard_widget::new(width - 2, height - 2, 0, 0);
        let ghost dashboard_fresh = dashboard;
        dashboard.init();
        proof {
            assert(dashboard_fresh.init_rel(&dashboard));
            assert(dashboard.init_rel(&dashboard));
        }
        let mut widgets: Vec<Widget> = Vec::new();
        widgets.push(Widget::Todo(todo));
        widgets.push(Widget::Dashboard(dashboard));
        proof {
            assert(blank_main =~= Seq::new(
                (width as int * height as int) as nat,
                |i: int| Character::blank_spec(),
            ));
        }
        Host {
            width,
            height,
            main_buffer,
            prev_buffer,
            widgets,
            active_widget_index: 0,
            active_widget_changed: true,
        }
    }

    /// Hands the event to the active widget, then reads the two keys
    /// reserved for the host: Escape asks to quit, Tab cycles the
    /// active widget through the collection, modulo its size. Those
    /// two keys are proven invisible to the widgets, so switching away
    /// and back preserves a widget's state.
    pub fn handle_event(&mut self, event_to_handle: &Event) -> (quit: bool)
        requires
            old(self).wf(),
        ensures
            final(self).wf(),
            quit == (*event_to_handle == Event::Key(KeyCode::Esc)),
            final(self).width == old(self).width,
            final(self).height == old(self).height,
            final(self).main_buffer == old(self).main_buffer,
            final(self).prev_buffer == old(self).prev_buffer,
            final(self).widgets@.len() == old(self).widgets@.len(),
            final(self).active_widget_index == (if *event_to_handle == Event::Key(KeyCode::Tab) {
                (old(self).active_widget_index + 1) % (old(self).widgets@.len() as int)
            } else {
                old(self).active_widget_index as int
            }),
            final(self).active_widget_changed == (old(self).active_widget_changed || *event_to_handle
                == Event::Key(KeyCode::Tab)),
            forall|i: int|
                0 <= i < old(self).widgets@.len() && i != old(self).active_widget_index
                    ==> final(self).widgets@[i] == old(self).widgets@[i],
            old(self).widgets@[old(self).active_widget_index as int].event_rel(
                *event_to_handle,
                &final(self).widgets@[old(self).active_widget_index as int],
            ),
            (*event_to_handle == Event::Key(KeyCode::Esc) || *event_to_handle == Event::Key(
                KeyCode::Tab,
            )) ==> final(self).widgets@ == old(self).widgets@,
    {
        let active = self.active_widget_index;
        let mut w = self.widgets.remove(active);
        w.handle_event(event_to_handle);
        proof {
            if *event_to_handle == Event::Key(KeyCode::Esc) || *event_to_handle == Event::Key(
                KeyCode::Tab,
            ) {
                old(self).widgets@[active as int].reserved_keys_ignored(&w, *event_to_handle);
            }
        }
        self.widgets.insert(active, w);
        proof {
            assert(self.widgets@ =~= old(self).widgets@.update(active as int, self.widgets@[active as int]));
            if *event_to_handle == Event::Key(KeyCode::Esc) || *event_to_handle == Event::Key(
                KeyCode::Tab,
            ) {
                assert(self.widgets@ =~= old(self).widgets@);
            }
        }
        match event_to_handle {
            Event::Key(KeyCode::Esc) => {
                return true;
            },
            Event::Key(KeyCode::Tab) => {
                self.active_widget_index = (self.active_widget_index + 1) % self.widgets.len();
                self.active_widget_changed = true;
            },
            _ => {},
        }
        false
    }

    /// One frame: update and redraw the active widget, merge its
    /// buffer into the composite just inside the border, rewrite the
    /// selector strip when the active widget changed, emit one draw
    /// command per cell that differs from the previous frame, and make
    /// this composite the previous one. The merge is proven in bounds,
    /// so the fatal misconfiguration the merge guards against cannot
    /// happen here.
    pub fn frame(&mut self) -> (cmds: Vec<DrawCommand>)
        requires
            old(self).wf(),
        ensures
            final(self).wf(),
            final(self).width == old(self).width,
            final(self).height == old(self).height,
            final(self).active_widget_index == old(self).active_widget_index,
            final(self).active_widget_changed == false,
            forall|i: int|
                0 <= i < old(self).widgets@.len() && i != old(self).active_widget_index
                    ==> final(self).widgets@[i] == old(self).widgets@[i],
            exists|mid: Widget|
                old(self).widgets@[old(self).active_widget_index as int].update_rel(&mid)
                    && mid.draw_rel(
                    &final(self).widgets@[old(self).active_widget_index as int],
                ),
            final(self).main_buffer@ == Self::frame_composite(*old(self), *final(self)),
            cmds@ == spec_diff(
                final(self).main_buffer@,
                old(self).prev_buffer@,
                old(self).width as int,
            ),
            final(self).prev_buffer@ == final(self).main_buffer@,
            final(self).prev_buffer.width == final(self).main_buffer.width,
            final(self).prev_buffer.height == final(self).main_buffer.height,
    {
        let active = self.active_widget_index;
        let mut w = self.widgets.remove(active);
        w.update();
        let ghost mid = w;
        w.draw();
        let wb = w.generate_buffer();
        proof {
            w.buffer_dims_ok();
        }
        self.widgets.insert(active, w);
        let ghost widgets_snapshot = self.widgets@;
        proof {
            assert(self.widgets@ =~= old(self).widgets@.update(active as int, self.widgets@[active as int]));
            assert(old(self).widgets@[active as int].update_rel(&mid));
            assert(mid.draw_rel(&self.widgets@[active as int]));
        }

        let insert_pos: usize = (self.width as usize) + 1;
        proof {
            let wi = self.width as int;
            lemma_fundamental_div_mod_converse_mod(wi + 1, wi, 1, 1);
            lemma_fundamental_div_mod_converse_div(wi + 1, wi, 1, 1);
        }
        let merged = self.main_buffer.merge(insert_pos, &wb);
        let new_main = match merged {
            Result::Ok(nb) => nb,
            Result::Err(_) => {
                proof {
                    assert(false);
                }
                Buffer::new(0, 0)
            },
        };
        self.main_buffer = new_main;
        let ghost merged_cells = self.main_buffer@;
        proof {
            assert(merged_cells =~= Seq::new(
                old(self).main_buffer@.len(),
                |i: int|
                    overlay(
                        old(self).main_buffer@,
                        old(self).width as int,
                        self.widgets@[active as int].buffer_cells(),
                        self.widgets@[active as int].buffer_width() as int,
                        1,
                        1,
                        i,
                    ),
            ));
        }

        if self.active_widget_changed {
            let mut title_str_pos: usize = 2;
            let count: usize = self.widgets.len();
            proof {
                lemma_title_len_bound(&self.widgets@[0]);
                lemma_title_len_bound(&self.widgets@[1]);
            }
            for i in 0..count
                invariant
                    count == self.widgets@.len(),
                    count == 2,
                    self.widgets@ == widgets_snapshot,
                    self.wf(),
                    self.width == old(self).width,
                    self.height == old(self).height,
                    self.active_widget_index == active,
                    active < count,
                    self.active_widget_changed == old(self).active_widget_changed,
                    self.prev_buffer == old(self).prev_buffer,
                    forall|k: int|
                        0 <= k < count ==> (#[trigger] self.widgets@[k]).title_spec().len() <= 9,
                    title_str_pos == title_pos(self.widgets@, i as int),
                    title_str_pos <= 2 + 10 * i,
                    self.main_buffer.wf(),
                    self.main_buffer.width == old(self).width,
                    self.main_buffer.height == old(self).height,
                    self.main_buffer.x == old(self).main_buffer.x,
                    self.main_buffer.y == old(self).main_buffer.y,
                    self.main_buffer@ == titled_cells(merged_cells, self.widgets@, i as int, active as int),
            {
                let mut chars = {
                    let wref = &self.widgets[i];
                    let t = wref.get_title();
                    Character::vec_from_string(t, Option::None, Option::None)
                };
                let n: usize = chars.len();
                let ghost base_chars = chars@;
                if i == active {
                    for j in 0..n
                        invariant
                            n == chars@.len(),
                            n == base_chars.len(),
                            forall|k: int| 0 <= k < j ==> chars@[k] == highlight_cell(base_chars[k]),
                            forall|k: int| j <= k < n ==> chars@[k] == base_chars[k],
                    {
                        let mut c = chars[j];
                        c.highlight();
                        chars.set(j, c);
                    }
                }
                proof {
                    let tspec = self.widgets@[i as int].title_spec();
                    let expected = title_cells(tspec, active == i);
                    let base_map = tspec.map_values(|c: char| Character::from_char_spec(c));
                    assert(base_chars.len() == tspec.len());
                    assert forall|k: int| 0 <= k < chars@.len() implies chars@[k] == expected[k] by {
                        assert(base_chars[k] == Character::styled_spec(
                            tspec[k],
                            Option::<crate::colours::Colour>::None,
                            Option::<crate::character::Attributes>::None,
                        ));
                        assert(base_map[k] == Character::from_char_spec(tspec[k]));
                        if i == active {
                            assert(chars@[k] == highlight_cell(base_chars[k]));
                            assert(expected[k] == highlight_cell(base_map[k]));
                        }
                    }
                    assert(chars@ =~= expected);
                }
                self.main_buffer.insert_char_slice_clipped(title_str_pos, &chars);
                title_str_pos = title_str_pos + n + 1;
                proof {
                    lemma_title_len_bound(&self.widgets@[i as int]);
                }
            }
            self.active_widget_changed = false;
        }

        let cmds = diff(&self.main_buffer, &self.prev_buffer);
        self.prev_buffer = self.main_buffer.clone();
        proof {
            let a = active as int;
            assert(old(self).widgets@[a].update_rel(&mid) && mid.draw_rel(&self.widgets@[a]));
            assert(exists|m: Widget|
                old(self).widgets@[a].update_rel(&m) && m.draw_rel(&self.widgets@[a]));
        }
        cmds
    }

    /// What the composite holds at the end of a frame: the widget's
    /// buffer overlaid one cell in from the corner, and, if the active
    /// widget had changed, the selector strip rewritten over it.
    pub open spec fn frame_composite(pre: Host, post: Host) -> Seq<Character> {
        let w = pre.width as int;
        let active = pre.active_widget_index as int;
        let wb_cells = post.widgets@[active].buffer_cells();
        let wb_w = post.widgets@[active].buffer_width() as int;
        let merged = Seq::new(
            pre.main_buffer@.len(),
            |i: int| overlay(pre.main_buffer@, w, wb_cells, wb_w, 1, 1, i),
        );
        if pre.active_widget_changed {
            titled_cells(merged, post.widgets@, post.widgets@.len() as int, active)
        } else {
            merged
        }
    }
}

} // verus!
