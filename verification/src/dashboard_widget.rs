//! The dashboard widget: a full-region background of randomly
//! twinkling cells with a small bordered debug readout that the arrow
//! keys move around, showing the frame count.
use vstd::prelude::*;

use crate::buffer::Buffer;
use crate::buffer::overlay;
use crate::character::Character;
use crate::colours;
use crate::rng;
use crate::utils;
use crate::widget;
use crate::widget::Event;
use crate::widget::KeyCode;
use crate::widget::WidgetTrait;

verus! {

use vstd::arithmetic::div_mod::lemma_fundamental_div_mod_converse_div;
use vstd::arithmetic::div_mod::lemma_fundamental_div_mod_converse_mod;

/// The dashboard's internal state: a frame counter, the background
/// noise buffer, the debug readout buffer, and the readout's position
/// inside the region.
pub struct DashboardState {
    pub frame_count: usize,
    pub debug_buffer: Buffer,
    pub bg_buffer: Buffer,
    pub debug_x: usize,
    pub debug_y: usize,
}

/// The dashboard widget: its region, title and state.
pub struct DashboardWidget {
    pub width: u16,
    pub height: u16,
    pub title: String,
    pub state: DashboardState,
}

/// The debug readout is always this many cells wide.
pub open spec fn debug_width() -> int {
    20
}

/// The debug readout is always this many cells high.
pub open spec fn debug_height() -> int {
    10
}

impl DashboardWidget {
    /// The frame-count line the debug readout shows.
    pub open spec fn frame_cells(n: int) -> Seq<Character> {
        ("Frame Count: "@ + utils::dec_chars(n)).map_values(
            |c: char| Character::from_char_spec(c),
        )
    }

    /// The frame counter stops one short of overflowing rather than
    /// wrap.
    pub open spec fn next_frame_count(n: usize) -> usize {
        if n < usize::MAX {
            (n + 1) as usize
        } else {
            n
        }
    }

    /// Where an arrow key puts the debug readout.
    pub open spec fn spec_moved(&self, e: Event) -> Self {
        match e {
            Event::Key(KeyCode::Left) => if self.state.debug_x > 0 {
                DashboardWidget {
                    state: DashboardState {
                        debug_x: (self.state.debug_x - 1) as usize,
                        ..self.state
                    },
                    ..*self
                }
            } else {
                *self
            },
            Event::Key(KeyCode::Right) => if self.state.debug_x + 1 + debug_width()
                <= self.width {
                DashboardWidget {
                    state: DashboardState {
                        debug_x: (self.state.debug_x + 1) as usize,
                        ..self.state
                    },
                    ..*self
                }
            } else {
                *self
            },
            Event::Key(KeyCode::Up) => if self.state.debug_y > 0 {
                DashboardWidget {
                    state: DashboardState {
                        debug_y: (self.state.debug_y - 1) as usize,
                        ..self.state
                    },
                    ..*self
                }
            } else {
                *self
            },
            Event::Key(KeyCode::Down) => if self.state.debug_y + 1 + debug_height()
                <= self.height {
                DashboardWidget {
                    state: DashboardState {
                        debug_y: (self.state.debug_y + 1) as usize,
                        ..self.state
                    },
                    ..*self
                }
            } else {
                *self
            },
            _ => *self,
        }
    }
}

impl WidgetTrait for DashboardWidget {
    open spec fn wf(&self) -> bool {
        &&& self.title@ == "Dashboard"@
        &&& self.state.bg_buffer.wf()
        &&& self.state.bg_buffer.width == self.width
        &&& self.state.bg_buffer.height == self.height
        &&& self.state.debug_buffer.wf()
        &&& self.state.debug_buffer.width == debug_width()
        &&& self.state.debug_buffer.height == debug_height()
        &&& self.state.debug_x + debug_width() <= self.width
        &&& self.state.debug_y + debug_height() <= self.height
    }

    open spec fn spec_width(&self) -> u16 {
        self.width
    }

    open spec fn spec_height(&self) -> u16 {
        self.height
    }

    /// Arrow keys slide the debug readout one cell, stopping at the
    /// region's edge; every other event is ignored.
    open spec fn event_rel(&self, e: Event, post: &Self) -> bool {
        post == self.spec_moved(e)
    }

    /// An update advances the frame counter and may replace any
    /// background cell with a fresh printable-ASCII noise cell;
    /// everything else is untouched.
    open spec fn update_rel(&self, post: &Self) -> bool {
        &&& post.width == self.width
        &&& post.height == self.height
        &&& post.title == self.title
        &&& post.state.frame_count == Self::next_frame_count(self.state.frame_count)
        &&& post.state.debug_x == self.state.debug_x
        &&& post.state.debug_y == self.state.debug_y
        &&& post.state.debug_buffer == self.state.debug_buffer
        &&& post.state.bg_buffer.width == self.state.bg_buffer.width
        &&& post.state.bg_buffer.height == self.state.bg_buffer.height
        &&& post.state.bg_buffer.x == self.state.bg_buffer.x
        &&& post.state.bg_buffer.y == self.state.bg_buffer.y
        &&& post.state.bg_buffer@.len() == self.state.bg_buffer@.len()
        &&& forall|i: int|
            0 <= i < post.state.bg_buffer@.len() ==> #[trigger] post.state.bg_buffer@[i]
                == self.state.bg_buffer@[i] || Character::random_outcome(
                post.state.bg_buffer@[i],
            )
    }

    /// A redraw rewrites the first debug-readout cells with the
    /// frame-count line and changes nothing else.
    open spec fn draw_rel(&self, post: &Self) -> bool {
        let line = Self::frame_cells(self.state.frame_count as int);
        &&& post.width == self.width
        &&& post.height == self.height
        &&& post.title == self.title
        &&& post.state.frame_count == self.state.frame_count
        &&& post.state.debug_x == self.state.debug_x
        &&& post.state.debug_y == self.state.debug_y
        &&& post.state.bg_buffer == self.state.bg_buffer
        &&& post.state.debug_buffer.width == self.state.debug_buffer.width
        &&& post.state.debug_buffer.height == self.state.debug_buffer.height
        &&& post.state.debug_buffer.x == self.state.debug_buffer.x
        &&& post.state.debug_buffer.y == self.state.debug_buffer.y
        &&& post.state.debug_buffer@ == crate::buffer::write_clipped(
            self.state.debug_buffer@,
            0,
            line,
        )
    }

    /// Initialization rebuilds the background as a blank region-sized
    /// grid and the debug readout as a blank bordered box, leaving the
    /// counter and the readout position alone.
    open spec fn init_rel(&self, post: &Self) -> bool {
        &&& post.width == self.width
        &&& post.height == self.height
        &&& post.title == self.title
        &&& post.state.frame_count == self.state.frame_count
        &&& post.state.debug_x == self.state.debug_x
        &&& post.state.debug_y == self.state.debug_y
        &&& post.state.bg_buffer.wf()
        &&& post.state.bg_buffer.width == self.width
        &&& post.state.bg_buffer.height == self.height
        &&& forall|i: int|
            0 <= i < post.state.bg_buffer@.len() ==> #[trigger] post.state.bg_buffer@[i]
                == Character::blank_spec()
        &&& post.state.debug_buffer.wf()
        &&& post.state.debug_buffer.width == debug_width()
        &&& post.state.debug_buffer.height == debug_height()
        &&& forall|x: int, y: int|
            0 <= x < debug_width() && 0 <= y < debug_height()
                ==> #[trigger] post.state.debug_buffer@[y * debug_width() + x]
                == widget::border_cell_at(
                Seq::new((debug_width() * debug_height()) as nat, |i: int| Character::blank_spec()),
                debug_width(),
                debug_height(),
                crate::colours::Colour { r: 200, g: 200, b: 200 },
                x,
                y,
            )
    }

    open spec fn buffer_width(&self) -> u16 {
        self.state.bg_buffer.width
    }

    open spec fn buffer_height(&self) -> u16 {
        self.state.bg_buffer.height
    }

    /// The exported buffer is the background with the debug readout
    /// overlaid at its current position.
    open spec fn buffer_cells(&self) -> Seq<Character> {
        Seq::new(
            self.state.bg_buffer@.len(),
            |i: int|
                overlay(
                    self.state.bg_buffer@,
                    self.state.bg_buffer.width as int,
                    self.state.debug_buffer@,
                    self.state.debug_buffer.width as int,
                    self.state.debug_x as int,
                    self.state.debug_y as int,
                    i,
                ),
        )
    }

    open spec fn title_spec(&self) -> Seq<char> {
        self.title@
    }

    proof fn buffer_dims_ok(&self) {
    }

    proof fn reserved_keys_ignored(&self, post: &Self, e: Event) {
    }

    fn init(&mut self) {
        let mut debug_buffer = Buffer::new(20, 10);
        widget::add_buffer_border(&mut debug_buffer, colours::light_grey());
        self.state.debug_buffer = debug_buffer;
        self.state.bg_buffer = Buffer::new(self.width, self.height);
    }

    fn handle_event(&mut self, event_to_handle: &Event) {
        match event_to_handle {
            Event::Key(KeyCode::Left) => {
                if self.state.debug_x > 0 {
                    self.state.debug_x = self.state.debug_x - 1;
                }
            },
            Event::Key(KeyCode::Right) => {
                if self.state.debug_x + 1 + 20 <= self.width as usize {
                    self.state.debug_x = self.state.debug_x + 1;
                }
            },
            Event::Key(KeyCode::Up) => {
                if self.state.debug_y > 0 {
                    self.state.debug_y = self.state.debug_y - 1;
                }
            },
            Event::Key(KeyCode::Down) => {
                if self.state.debug_y + 1 + 10 <= self.height as usize {
                    self.state.debug_y = self.state.debug_y + 1;
                }
            },
            _ => {},
        }
    }

    fn update(&mut self) {
        if self.state.frame_count < usize::MAX {
            self.state.frame_count = self.state.frame_count + 1;
        }
        let total: usize = self.state.bg_buffer.len();
        let ghost bg_at_entry = self.state.bg_buffer;
        for i in 0..total
            invariant
                total == self.state.bg_buffer@.len(),
                self.state.bg_buffer@.len() == bg_at_entry@.len(),
                self.state.bg_buffer.width == bg_at_entry.width,
                self.state.bg_buffer.height == bg_at_entry.height,
                self.state.bg_buffer.x == bg_at_entry.x,
                self.state.bg_buffer.y == bg_at_entry.y,
                self.width == old(self).width,
                self.height == old(self).height,
                self.title == old(self).title,
                self.state.frame_count == DashboardWidget::next_frame_count(
                    old(self).state.frame_count,
                ),
                self.state.debug_x == old(self).state.debug_x,
                self.state.debug_y == old(self).state.debug_y,
                self.state.debug_buffer == old(self).state.debug_buffer,
                bg_at_entry == old(self).state.bg_buffer,
                forall|k: int|
                    0 <= k < self.state.bg_buffer@.len() ==> #[trigger] self.state.bg_buffer@[k]
                        == bg_at_entry@[k] || Character::random_outcome(
                        self.state.bg_buffer@[k],
                    ),
        {
            let choice: u64 = rng::random_in(0, 999);
            if choice == 0 {
                self.state.bg_buffer.set(i, Character::random());
            }
        }
    }

    fn draw(&mut self) {
        let mut line: Vec<Character> = Vec::new();
        let prefix = String::from_str("Frame Count: ");
        let prefix_cells = Character::vec_from_string(&prefix, Option::None, Option::None);
        let ghost line_spec = DashboardWidget::frame_cells(self.state.frame_count as int);
        let digits = utils::u64_dec_chars(self.state.frame_count as u64);
        proof {
            reveal_strlit("Frame Count: ");
        }
        for k in 0..prefix_cells.len()
            invariant
                line@.len() == k,
                prefix_cells@.len() == prefix@.len(),
                forall|j: int|
                    0 <= j < prefix_cells@.len() ==> prefix_cells@[j] == Character::styled_spec(
                        prefix@[j],
                        Option::None,
                        Option::None,
                    ),
                forall|j: int| 0 <= j < k ==> line@[j] == prefix_cells@[j],
        {
            line.push(prefix_cells[k]);
        }
        for k in 0..digits.len()
            invariant
                digits@ == utils::dec_chars(self.state.frame_count as int),
                line@.len() == prefix_cells@.len() + k,
                prefix_cells@.len() == prefix@.len(),
                forall|j: int|
                    0 <= j < prefix_cells@.len() ==> prefix_cells@[j] == Character::styled_spec(
                        prefix@[j],
                        Option::None,
                        Option::None,
                    ),
                forall|j: int| 0 <= j < prefix_cells@.len() ==> line@[j] == prefix_cells@[j],
                forall|j: int|
                    0 <= j < k ==> line@[prefix_cells@.len() + j] == Character::from_char_spec(
                        digits@[j],
                    ),
        {
            line.push(Character::from_char(digits[k]));
        }
        proof {
            assert(prefix@ == "Frame Count: "@);
            assert(line@ =~= DashboardWidget::frame_cells(self.state.frame_count as int)) by {
                assert(line_spec.len() == prefix@.len() + digits@.len());
                assert forall|j: int| 0 <= j < line@.len() implies line@[j] == line_spec[j] by {
                    if j < prefix@.len() {
                        assert(line@[j] == prefix_cells@[j]);
                    }
                }
            }
        }
        self.state.debug_buffer.insert_char_slice_clipped(0, &line);
    }

    fn generate_buffer(&mut self) -> (b: Buffer) {
        let w: usize = self.width as usize;
        proof {
            let wi = w as int;
            let dx = self.state.debug_x as int;
            let dy = self.state.debug_y as int;
            assert(0 <= dy * wi <= 0xFFFF * 0xFFFF) by (nonlinear_arith)
                requires
                    0 <= dy <= 0xFFFF,
                    0 <= wi <= 0xFFFF,
            ;
            assert(dy * wi + dx <= usize::MAX);
            lemma_fundamental_div_mod_converse_mod(dy * wi + dx, wi, dy, dx);
            lemma_fundamental_div_mod_converse_div(dy * wi + dx, wi, dy, dx);
        }
        let pos_to_insert: usize = self.state.debug_x + self.state.debug_y * w;
        let r = self.state.bg_buffer.merge(pos_to_insert, &self.state.debug_buffer);
        match r {
            Result::Ok(b) => {
                proof {
                    assert(b@ =~= self.buffer_cells());
                }
                b
            },
            Result::Err(_) => {
                proof {
                    assert(false);
                }
                Buffer::new(0, 0)
            },
        }
    }

    fn get_title(&self) -> (t: &String) {
        &self.title
    }
}

/// A fresh dashboard for the given region, with the debug readout
/// starting at column `x`, row `y`. The readout must fit the region,
/// as composition failure is a fatal configuration error.
pub fn new(width: u16, height: u16, x: usize, y: usize) -> (w: DashboardWidget)
    requires
        x + debug_width() <= width,
        y + debug_height() <= height,
    ensures
        w.wf(),
        w.spec_width() == width,
        w.spec_height() == height,
        w.state.frame_count == 0,
        w.state.debug_x == x,
        w.state.debug_y == y,
        w.init_rel(&w),
{
    let mut debug_buffer = Buffer::new(20, 10);
    widget::add_buffer_border(&mut debug_buffer, colours::light_grey());
    let bg_buffer = Buffer::new(width, height);
    DashboardWidget {
        width,
        height,
        title: String::from_str("Dashboard"),
        state: DashboardState { frame_count: 0, debug_buffer, bg_buffer, debug_x: x, debug_y: y },
    }
}

} // verus!
