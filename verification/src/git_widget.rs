//! A placeholder widget for external-status display: it holds no state
//! and exports a small blank buffer.
use vstd::prelude::*;

use crate::buffer::Buffer;
use crate::character::Character;
use crate::widget::Event;
use crate::widget::WidgetTrait;

verus! {

/// The (empty) internal state of the placeholder widget.
pub struct GitState {}

/// The placeholder widget itself: a region and a title around the
/// empty state.
pub struct GitWidget {
    pub width: u16,
    pub height: u16,
    pub title: String,
    pub state: GitState,
}

impl GitWidget {
    /// The exported buffer is at most 7 cells each way, clipped to the
    /// widget's own region.
    pub open spec fn spec_buffer_side(region: u16) -> u16 {
        if region < 7 {
            region
        } else {
            7
        }
    }
}

impl WidgetTrait for GitWidget {
    open spec fn wf(&self) -> bool {
        self.title@ == "GIT"@
    }

    open spec fn spec_width(&self) -> u16 {
        self.width
    }

    open spec fn spec_height(&self) -> u16 {
        self.height
    }

    open spec fn event_rel(&self, e: Event, post: &Self) -> bool {
        post == self
    }

    open spec fn update_rel(&self, post: &Self) -> bool {
        post == self
    }

    open spec fn draw_rel(&self, post: &Self) -> bool {
        post == self
    }

    open spec fn init_rel(&self, post: &Self) -> bool {
        post == self
    }

    open spec fn buffer_width(&self) -> u16 {
        Self::spec_buffer_side(self.width)
    }

    open spec fn buffer_height(&self) -> u16 {
        Self::spec_buffer_side(self.height)
    }

    open spec fn buffer_cells(&self) -> Seq<Character> {
        Seq::new(
            (self.buffer_width() as int * self.buffer_height() as int) as nat,
            |i: int| Character::blank_spec(),
        )
    }

    open spec fn title_spec(&self) -> Seq<char> {
        self.title@
    }

    proof fn buffer_dims_ok(&self) {
    }

    proof fn reserved_keys_ignored(&self, post: &Self, e: Event) {
    }

    fn init(&mut self) {
    }

    fn handle_event(&mut self, event_to_handle: &Event) {
    }

    fn update(&mut self) {
    }

    fn draw(&mut self) {
    }

    fn generate_buffer(&mut self) -> (b: Buffer) {
        let side_w: u16 = if self.width < 7 {
            self.width
        } else {
            7
        };
        let side_h: u16 = if self.height < 7 {
            self.height
        } else {
            7
        };
        let b = Buffer::new(side_w, side_h);
        proof {
            assert(b@ =~= self.buffer_cells());
        }
        b
    }

    fn get_title(&self) -> (t: &String) {
        &self.title
    }
}

/// A fresh placeholder widget for the given region; the offsets are
/// carried for symmetry with the other widget constructors and unused.
pub fn new(width: u16, height: u16, _x: usize, _y: usize) -> (w: GitWidget)
    ensures
        w.wf(),
        w.spec_width() == width,
        w.spec_height() == height,
{
    GitWidget { width, height, title: String::from_str("GIT"), state: GitState {  } }
}

} // verus!
