//! The uniform widget contract: every widget has a lifecycle of
//! `init`, `handle_event`, `update`, `draw` and `generate_buffer`, plus
//! a title for the host's selector strip. Heterogeneous widgets are
//! stored together as `Widget` values and driven polymorphically.
use vstd::prelude::*;

use crate::buffer::Buffer;
use crate::character::Character;
use crate::character::empty_attrs;
use crate::colours::Colour;
use crate::dashboard_widget::DashboardWidget;
use crate::git_widget::GitWidget;
use crate::todo_widget::TodoWidget;

verus! {

use vstd::arithmetic::div_mod::lemma_fundamental_div_mod_converse_div;
use vstd::arithmetic::div_mod::lemma_fundamental_div_mod_converse_mod;

/// The key codes the system distinguishes. Escape and Tab are read by
/// the host; everything else is forwarded to the active widget.
#[derive(Clone, Copy, PartialEq, Eq, Structural, Debug)]
pub enum KeyCode {
    Esc,
    Tab,
    Enter,
    Up,
    Down,
    Left,
    Right,
    Char(char),
    Other,
}

/// One discrete input event.
#[derive(Clone, Copy, PartialEq, Eq, Structural, Debug)]
pub enum Event {
    Key(KeyCode),
    Resize(u16, u16),
    Other,
}

/// The lifecycle contract every widget satisfies. The `spec` items are
/// the widget's model: its invariant, its dimensions, its transition on
/// an input event, the relations bounding `init`, `update` and `draw`
/// (which may read the clock or draw randomness), and the buffer it
/// exports.
pub trait WidgetTrait: Sized {
    /// The widget's internal invariant.
    spec fn wf(&self) -> bool;

    /// The width of the region the widget draws for.
    spec fn spec_width(&self) -> u16;

    /// The height of the region the widget draws for.
    spec fn spec_height(&self) -> u16;

    /// How handling one input event changes the state; unrecognized
    /// events leave the state unchanged.
    spec fn event_rel(&self, e: Event, post: &Self) -> bool;

    /// How one per-frame update may change the state.
    spec fn update_rel(&self, post: &Self) -> bool;

    /// How one redraw may change the state.
    spec fn draw_rel(&self, post: &Self) -> bool;

    /// How initialization may change the state.
    spec fn init_rel(&self, post: &Self) -> bool;

    /// The width of the buffer the widget currently exports.
    spec fn buffer_width(&self) -> u16;

    /// The height of the buffer the widget currently exports.
    spec fn buffer_height(&self) -> u16;

    /// The cells of the buffer the widget currently exports.
    spec fn buffer_cells(&self) -> Seq<Character>;

    /// The widget's display name.
    spec fn title_spec(&self) -> Seq<char>;

    /// The exported buffer always fits the widget's region.
    proof fn buffer_dims_ok(&self)
        requires
            self.wf(),
        ensures
            self.buffer_width() <= self.spec_width(),
            self.buffer_height() <= self.spec_height(),
            self.buffer_cells().len() == self.buffer_width() as int * self.buffer_height() as int,
    ;

    /// Populates internal state; called exactly once, before the widget
    /// is ever updated or drawn.
    fn init(&mut self)
        requires
            old(self).wf(),
        ensures
            final(self).wf(),
            final(self).spec_width() == old(self).spec_width(),
            final(self).spec_height() == old(self).spec_height(),
            final(self).title_spec() == old(self).title_spec(),
            old(self).init_rel(final(self)),
    ;

    /// The host's reserved keys, Escape and Tab, are invisible to
    /// every widget: handling them changes nothing.
    proof fn reserved_keys_ignored(&self, post: &Self, e: Event)
        requires
            self.wf(),
            self.event_rel(e, post),
            e == Event::Key(KeyCode::Esc) || e == Event::Key(KeyCode::Tab),
        ensures
            post == self,
    ;

    /// Consumes one input event synchronously; never fails, and ignores
    /// events the widget does not recognize.
    fn handle_event(&mut self, event_to_handle: &Event)
        requires
            old(self).wf(),
        ensures
            final(self).wf(),
            old(self).event_rel(*event_to_handle, final(self)),
            final(self).spec_width() == old(self).spec_width(),
            final(self).spec_height() == old(self).spec_height(),
            final(self).title_spec() == old(self).title_spec(),
    ;

    /// Advances time-driven internal state; called once per frame
    /// whether or not input occurred.
    fn update(&mut self)
        requires
            old(self).wf(),
        ensures
            final(self).wf(),
            final(self).spec_width() == old(self).spec_width(),
            final(self).spec_height() == old(self).spec_height(),
            final(self).title_spec() == old(self).title_spec(),
            old(self).update_rel(final(self)),
    ;

    /// Recomputes the widget's internal buffer from current state.
    fn draw(&mut self)
        requires
            old(self).wf(),
        ensures
            final(self).wf(),
            final(self).spec_width() == old(self).spec_width(),
            final(self).spec_height() == old(self).spec_height(),
            final(self).title_spec() == old(self).title_spec(),
            old(self).draw_rel(final(self)),
    ;

    /// Returns the widget's current buffer by value for composition; a
    /// pure read that never mutates the widget.
    fn generate_buffer(&mut self) -> (b: Buffer)
        requires
            old(self).wf(),
        ensures
            *final(self) == *old(self),
            b.wf(),
            b.width == old(self).buffer_width(),
            b.height == old(self).buffer_height(),
            b@ == old(self).buffer_cells(),
    ;

    /// The widget's display name, used by the host's selector strip.
    fn get_title(&self) -> (t: &String)
        ensures
            t@ == self.title_spec(),
    ;
}

/// What the cell at column `x`, row `y` holds after a border is drawn
/// over `cells` (a `w` x `h` grid): a dash along the top and bottom
/// rows, a coloured bar down the left and right columns, untouched
/// corners and interior.
pub open spec fn border_cell_at(
    cells: Seq<Character>,
    w: int,
    h: int,
    colour: Colour,
    x: int,
    y: int,
) -> Character {
    if (y == 0 || y == h - 1) && 1 <= x < w - 1 {
        Character::from_char_spec('-')
    } else if 0 < y < h - 1 && (x == 0 || x == w - 1) {
        Character { c: '|', attributes: empty_attrs(), colour }
    } else {
        cells[y * w + x]
    }
}

/// Overwrites the outermost ring of `buffer` with a horizontal-line
/// glyph on the top and bottom rows and a vertical-line glyph in the
/// given colour on the left and right columns, leaving corners and
/// interior untouched.
pub fn add_buffer_border(buffer: &mut Buffer, colour: Colour)
    requires
        old(buffer).wf(),
        old(buffer).width >= 2,
    ensures
        final(buffer).wf(),
        final(buffer).width == old(buffer).width,
        final(buffer).height == old(buffer).height,
        final(buffer).x == old(buffer).x,
        final(buffer).y == old(buffer).y,
        final(buffer)@.len() == old(buffer)@.len(),
        forall|x: int, y: int|
            0 <= x < old(buffer).width && 0 <= y < old(buffer).height
                ==> #[trigger] final(buffer)@[y * (old(buffer).width as int) + x]
                == border_cell_at(
                old(buffer)@,
                old(buffer).width as int,
                old(buffer).height as int,
                colour,
                x,
                y,
            ),
{
    let w: usize = buffer.width as usize;
    let h: usize = buffer.height as usize;
    let total: usize = buffer.len();
    proof {
        assert(total == w * h);
    }
    let ghost wi = w as int;
    let ghost hi = h as int;
    for i in 0..total
        invariant
            buffer.wf(),
            total == buffer@.len(),
            buffer@.len() == old(buffer)@.len(),
            buffer.width == old(buffer).width,
            buffer.height == old(buffer).height,
            buffer.x == old(buffer).x,
            buffer.y == old(buffer).y,
            w == buffer.width,
            h == buffer.height,
            w >= 2,
            wi == w as int,
            hi == h as int,
            forall|k: int|
                0 <= k < i ==> #[trigger] buffer@[k] == border_cell_at(
                    old(buffer)@,
                    wi,
                    hi,
                    colour,
                    k % wi,
                    k / wi,
                ),
            forall|k: int| i <= k < buffer@.len() ==> #[trigger] buffer@[k] == old(buffer)@[k],
    {
        let x: usize = i % w;
        let y: usize = i / w;
        proof {
            vstd::arithmetic::div_mod::lemma_fundamental_div_mod(i as int, wi);
            assert((i as int / wi) * wi + (i as int % wi) == i as int) by {
                assert(wi * (i as int / wi) == (i as int / wi) * wi) by (nonlinear_arith);
            }
        }
        if (y == 0 || y == h - 1) && 1 <= x && x < w - 1 {
            buffer.set(i, Character::from_char('-'));
        } else if 0 < y && y < h - 1 && (x == 0 || x == w - 1) {
            buffer.set(
                i,
                Character { c: '|', attributes: crate::character::empty_attr_set(), colour },
            );
        }
    }
    proof {
        assert forall|x: int, y: int|
            0 <= x < old(buffer).width && 0 <= y < old(buffer).height implies #[trigger] buffer@[y
            * wi + x] == border_cell_at(old(buffer)@, wi, hi, colour, x, y) by {
            let k = y * wi + x;
            assert(0 <= k < wi * hi) by (nonlinear_arith)
                requires
                    k == y * wi + x,
                    0 <= x < wi,
                    0 <= y < hi,
            ;
            lemma_fundamental_div_mod_converse_mod(k, wi, y, x);
            lemma_fundamental_div_mod_converse_div(k, wi, y, x);
        }
    }
}

/// One widget of any kind, so that heterogeneous widgets can live in
/// one collection and be driven uniformly.
pub enum Widget {
    Dashboard(DashboardWidget),
    Todo(TodoWidget),
    Git(GitWidget),
}

impl WidgetTrait for Widget {
    open spec fn wf(&self) -> bool {
        match self {
            Widget::Dashboard(w) => w.wf(),
            Widget::Todo(w) => w.wf(),
            Widget::Git(w) => w.wf(),
        }
    }

    open spec fn spec_width(&self) -> u16 {
        match self {
            Widget::Dashboard(w) => w.spec_width(),
            Widget::Todo(w) => w.spec_width(),
            Widget::Git(w) => w.spec_width(),
        }
    }

    open spec fn spec_height(&self) -> u16 {
        match self {
            Widget::Dashboard(w) => w.spec_height(),
            Widget::Todo(w) => w.spec_height(),
            Widget::Git(w) => w.spec_height(),
        }
    }

    open spec fn event_rel(&self, e: Event, post: &Self) -> bool {
        match (self, post) {
            (Widget::Dashboard(a), Widget::Dashboard(b)) => a.event_rel(e, b),
            (Widget::Todo(a), Widget::Todo(b)) => a.event_rel(e, b),
            (Widget::Git(a), Widget::Git(b)) => a.event_rel(e, b),
            _ => false,
        }
    }

    open spec fn update_rel(&self, post: &Self) -> bool {
        match (self, post) {
            (Widget::Dashboard(a), Widget::Dashboard(b)) => a.update_rel(b),
            (Widget::Todo(a), Widget::Todo(b)) => a.update_rel(b),
            (Widget::Git(a), Widget::Git(b)) => a.update_rel(b),
            _ => false,
        }
    }

    open spec fn draw_rel(&self, post: &Self) -> bool {
        match (self, post) {
            (Widget::Dashboard(a), Widget::Dashboard(b)) => a.draw_rel(b),
            (Widget::Todo(a), Widget::Todo(b)) => a.draw_rel(b),
            (Widget::Git(a), Widget::Git(b)) => a.draw_rel(b),
            _ => false,
        }
    }

    open spec fn init_rel(&self, post: &Self) -> bool {
        match (self, post) {
            (Widget::Dashboard(a), Widget::Dashboard(b)) => a.init_rel(b),
            (Widget::Todo(a), Widget::Todo(b)) => a.init_rel(b),
            (Widget::Git(a), Widget::Git(b)) => a.init_rel(b),
            _ => false,
        }
    }

    open spec fn buffer_width(&self) -> u16 {
        match self {
            Widget::Dashboard(w) => w.buffer_width(),
            Widget::Todo(w) => w.buffer_width(),
            Widget::Git(w) => w.buffer_width(),
        }
    }

    open spec fn buffer_height(&self) -> u16 {
        match self {
            Widget::Dashboard(w) => w.buffer_height(),
            Widget::Todo(w) => w.buffer_height(),
            Widget::Git(w) => w.buffer_height(),
        }
    }

    open spec fn buffer_cells(&self) -> Seq<Character> {
        match self {
            Widget::Dashboard(w) => w.buffer_cells(),
            Widget::Todo(w) => w.buffer_cells(),
            Widget::Git(w) => w.buffer_cells(),
        }
    }

    open spec fn title_spec(&self) -> Seq<char> {
        match self {
            Widget::Dashboard(w) => w.title_spec(),
            Widget::Todo(w) => w.title_spec(),
            Widget::Git(w) => w.title_spec(),
        }
    }

    proof fn buffer_dims_ok(&self) {
        match self {
            Widget::Dashboard(w) => w.buffer_dims_ok(),
            Widget::Todo(w) => w.buffer_dims_ok(),
            Widget::Git(w) => w.buffer_dims_ok(),
        }
    }

    proof fn reserved_keys_ignored(&self, post: &Self, e: Event) {
        match (self, post) {
            (Widget::Dashboard(a), Widget::Dashboard(b)) => a.reserved_keys_ignored(b, e),
            (Widget::Todo(a), Widget::Todo(b)) => a.reserved_keys_ignored(b, e),
            (Widget::Git(a), Widget::Git(b)) => a.reserved_keys_ignored(b, e),
            _ => {},
        }
    }

    fn init(&mut self) {
        match self {
            Widget::Dashboard(w) => w.init(),
            Widget::Todo(w) => w.init(),
            Widget::Git(w) => w.init(),
        }
    }

    fn handle_event(&mut self, event_to_handle: &Event) {
        match self {
            Widget::Dashboard(w) => w.handle_event(event_to_handle),
            Widget::Todo(w) => w.handle_event(event_to_handle),
            Widget::Git(w) => w.handle_event(event_to_handle),
        }
    }

    fn update(&mut self) {
        match self {
            Widget::Dashboard(w) => w.update(),
            Widget::Todo(w) => w.update(),
            Widget::Git(w) => w.update(),
        }
    }

    fn draw(&mut self) {
        match self {
            Widget::Dashboard(w) => w.draw(),
            Widget::Todo(w) => w.draw(),
            Widget::Git(w) => w.draw(),
        }
    }

    fn generate_buffer(&mut self) -> (b: Buffer) {
        match self {
            Widget::Dashboard(w) => w.generate_buffer(),
            Widget::Todo(w) => w.generate_buffer(),
            Widget::Git(w) => w.generate_buffer(),
        }
    }

    fn get_title(&self) -> (t: &String) {
        match self {
            Widget::Dashboard(w) => w.get_title(),
            Widget::Todo(w) => w.get_title(),
            Widget::Git(w) => w.get_title(),
        }
    }
}

} // verus!
