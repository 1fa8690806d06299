//! The scrolling state of the documentation viewer: where in the rendered documentation the
//! viewport stands, and how keys and resizes move it. Rendering the documentation, and counting
//! the lines it renders to at a width, is the caller's.
use vstd::prelude::*;

verus! {

/// The viewer's state.
pub struct Viewer {
    exit: bool,
    viewport_width: u16,
    viewport_height: u16,
    line_count: usize,
    max_scroll: usize,
    scroll_position: usize,
}

/// Mathematical model of a [`Viewer`].
pub struct ViewerView {
    /// Whether the user asked to leave the viewer.
    pub exit: bool,
    pub viewport_width: u16,
    pub viewport_height: u16,
    /// How many lines the documentation renders to at the viewport's width.
    pub line_count: usize,
    /// The furthest the documentation can be scrolled: until its last line is at the bottom.
    pub max_scroll: usize,
    /// The first line shown.
    pub scroll_position: usize,
}

/// `a - b`, or 0 where `b` is larger.
pub open spec fn saturating_sub(a: int, b: int) -> int {
    if a > b {
        a - b
    } else {
        0
    }
}

/// The furthest a documentation of `line_count` lines scrolls in a viewport `height` lines high.
pub open spec fn max_scroll_for(line_count: usize, height: u16) -> usize {
    saturating_sub(line_count as int, height as int) as usize
}

/// A new viewer, at the top of a documentation of `line_count` lines.
pub open spec fn spec_new(line_count: usize, width: u16, height: u16) -> ViewerView {
    ViewerView {
        exit: false,
        viewport_width: width,
        viewport_height: height,
        line_count,
        max_scroll: max_scroll_for(line_count, height),
        scroll_position: 0,
    }
}

/// One line up, stopping at the top.
pub open spec fn spec_scroll_up(v: ViewerView) -> ViewerView {
    ViewerView { scroll_position: saturating_sub(v.scroll_position as int, 1) as usize, ..v }
}

/// One line down, unless that would pass the furthest position.
pub open spec fn spec_scroll_down(v: ViewerView) -> ViewerView {
    if v.scroll_position + 1 <= v.max_scroll {
        ViewerView { scroll_position: (v.scroll_position + 1) as usize, ..v }
    } else {
        v
    }
}

/// One viewport up, stopping at the top.
pub open spec fn spec_scroll_page_up(v: ViewerView) -> ViewerView {
    ViewerView { scroll_position: saturating_sub(v.scroll_position as int, v.viewport_height as int) as usize, ..v }
}

/// One viewport down, stopping at the furthest position.
pub open spec fn spec_scroll_page_down(v: ViewerView) -> ViewerView {
    if v.scroll_position + v.viewport_height > v.max_scroll {
        ViewerView { scroll_position: v.max_scroll, ..v }
    } else {
        ViewerView { scroll_position: (v.scroll_position + v.viewport_height) as usize, ..v }
    }
}

/// A new viewport size, where the documentation renders to `line_count` lines: the position
/// stays where it still can, and moves back to the new furthest position otherwise.
pub open spec fn spec_handle_resize(v: ViewerView, width: u16, height: u16, line_count: usize) -> ViewerView {
    let max_scroll = max_scroll_for(line_count, height);
    ViewerView {
        viewport_width: width,
        viewport_height: height,
        line_count,
        max_scroll,
        scroll_position: if v.scroll_position > max_scroll {
            max_scroll
        } else {
            v.scroll_position
        },
        ..v
    }
}

/// The user asked to leave.
pub open spec fn spec_quit(v: ViewerView) -> ViewerView {
    ViewerView { exit: true, ..v }
}

/// A key pressed in the viewer.
#[derive(Debug, Clone, Copy, PartialEq, Eq, Structural)]
pub enum ViewerKey {
    Char(char),
    Up,
    Down,
    PageUp,
    PageDown,
    /// Any other key.
    Other,
}

/// What a key press does: `q` or `Q` leaves, the arrow keys scroll by a line, the page keys by a
/// viewport; any other key does nothing.
pub open spec fn spec_handle_key(v: ViewerView, key: ViewerKey) -> ViewerView {
    match key {
        ViewerKey::Char(c) => if c == 'q' || c == 'Q' {
            spec_quit(v)
        } else {
            v
        },
        ViewerKey::Up => spec_scroll_up(v),
        ViewerKey::Down => spec_scroll_down(v),
        ViewerKey::PageUp => spec_scroll_page_up(v),
        ViewerKey::PageDown => spec_scroll_page_down(v),
        ViewerKey::Other => v,
    }
}

/// The position is within the documentation's range of positions.
pub open spec fn in_range(v: ViewerView) -> bool {
    &&& v.max_scroll == max_scroll_for(v.line_count, v.viewport_height)
    &&& v.scroll_position <= v.max_scroll
}

impl View for Viewer {
    type V = ViewerView;

    closed spec fn view(&self) -> ViewerView {
        ViewerView {
            exit: self.exit,
            viewport_width: self.viewport_width,
            viewport_height: self.viewport_height,
            line_count: self.line_count,
            max_scroll: self.max_scroll,
            scroll_position: self.scroll_position,
        }
    }
}

/// `a - b`, or 0 where `b` is larger.
fn saturating_sub_usize(a: usize, b: usize) -> (r: usize)
    ensures
        r == saturating_sub(a as int, b as int),
{
    if a > b {
        a - b
    } else {
        0
    }
}

impl Viewer {
    /// The furthest position stays that of the line count and viewport, and the position within it.
    #[verifier::type_invariant]
    spec fn well_formed(self) -> bool {
        in_range(self@)
    }

    /// A viewer at the top of a documentation that renders to `line_count` lines in a viewport of
    /// `width` by `height`.
    pub fn new(line_count: usize, width: u16, height: u16) -> (r: Self)
        ensures
            r@ == spec_new(line_count, width, height),
    {
        let max_scroll = saturating_sub_usize(line_count, height as usize);
        Viewer {
            exit: false,
            viewport_width: width,
            viewport_height: height,
            line_count,
            max_scroll,
            scroll_position: 0,
        }
    }

    /// Whether the user asked to leave.
    pub fn exit(&self) -> (r: bool)
        ensures
            r == self@.exit,
    {
        self.exit
    }

    /// The first line shown.
    pub fn scroll_position(&self) -> (r: usize)
        ensures
            r == self@.scroll_position,
            r <= self@.max_scroll,
    {
        proof {
            use_type_invariant(self);
        }
        self.scroll_position
    }

    /// The furthest the documentation can be scrolled.
    pub fn max_scroll(&self) -> (r: usize)
        ensures
            r == self@.max_scroll,
            r == max_scroll_for(self@.line_count, self@.viewport_height),
    {
        proof {
            use_type_invariant(self);
        }
        self.max_scroll
    }

    /// The viewport's width and height.
    pub fn viewport_size(&self) -> (r: (u16, u16))
        ensures
            r == (self@.viewport_width, self@.viewport_height),
    {
        (self.viewport_width, self.viewport_height)
    }

    /// The user asked to leave.
    pub fn quit(&mut self)
        ensures
            final(self)@ == spec_quit(old(self)@),
    {
        proof {
            use_type_invariant(&*self);
        }
        self.exit = true;
    }

    /// Handles a key press (see [`spec_handle_key`]).
    pub fn handle_key(&mut self, key: ViewerKey)
        ensures
            final(self)@ == spec_handle_key(old(self)@, key),
    {
        match key {
            ViewerKey::Char(c) => {
                if c == 'q' || c == 'Q' {
                    self.quit();
                }
            },
            ViewerKey::Up => self.scroll_up(),
            ViewerKey::Down => self.scroll_down(),
            ViewerKey::PageUp => self.scroll_page_up(),
            ViewerKey::PageDown => self.scroll_page_down(),
            ViewerKey::Other => {},
        }
    }

    /// The viewport took a new size, at which the documentation renders to `line_count` lines.
    pub fn handle_resize(&mut self, width: u16, height: u16, line_count: usize)
        ensures
            final(self)@ == spec_handle_resize(old(self)@, width, height, line_count),
    {
        let max_scroll = saturating_sub_usize(line_count, height as usize);
        let position = if self.scroll_position > max_scroll {
            max_scroll
        } else {
            self.scroll_position
        };
        *self = Viewer {
            exit: self.exit,
            viewport_width: width,
            viewport_height: height,
            line_count,
            max_scroll,
            scroll_position: position,
        };
    }

    /// One line up, stopping at the top.
    pub fn scroll_up(&mut self)
        ensures
            final(self)@ == spec_scroll_up(old(self)@),
    {
        proof {
            use_type_invariant(&*self);
        }
        let position = saturating_sub_usize(self.scroll_position, 1);
        self.scroll_position = position;
    }

    /// One line down, unless that would pass the furthest position.
    pub fn scroll_down(&mut self)
        ensures
            final(self)@ == spec_scroll_down(old(self)@),
    {
        proof {
            use_type_invariant(&*self);
        }
        if self.scroll_position < self.max_scroll {
            self.scroll_position = self.scroll_position + 1;
        }
    }

    /// One viewport up, stopping at the top.
    pub fn scroll_page_up(&mut self)
        ensures
            final(self)@ == spec_scroll_page_up(old(self)@),
    {
        proof {
            use_type_invariant(&*self);
        }
        let position = saturating_sub_usize(self.scroll_position, self.viewport_height as usize);
        self.scroll_position = position;
    }

    /// One viewport down, stopping at the furthest position.
    pub fn scroll_page_down(&mut self)
        ensures
            final(self)@ == spec_scroll_page_down(old(self)@),
    {
        proof {
            use_type_invariant(&*self);
        }
        let height = self.viewport_height as usize;
        if height > self.max_scroll - self.scroll_position {
            self.scroll_position = self.max_scroll;
        } else {
            self.scroll_position = self.scroll_position + height;
        }
    }
}

/// Every step keeps the position within the documentation's range: from a state in range,
/// scrolling by a line or a page either way, resizing and quitting all give states in range.
pub proof fn law_steps_stay_in_range(v: ViewerView, width: u16, height: u16, line_count: usize)
    requires
        in_range(v),
    ensures
        in_range(spec_scroll_up(v)),
        in_range(spec_scroll_down(v)),
        in_range(spec_scroll_page_up(v)),
        in_range(spec_scroll_page_down(v)),
        in_range(spec_handle_resize(v, width, height, line_count)),
        in_range(spec_quit(v)),
{
}

/// A line down and a line up come back to where they started, away from the bottom; a line up
/// and a line down do, away from the top.
pub proof fn law_line_scrolls_undo_each_other(v: ViewerView)
    requires
        in_range(v),
    ensures
        v.scroll_position < v.max_scroll ==> spec_scroll_up(spec_scroll_down(v)) == v,
        v.scroll_position > 0 ==> spec_scroll_down(spec_scroll_up(v)) == v,
{
}

/// A page down and a page up come back to where they started where a whole page fits below the
/// position; a page up and a page down do where a whole page fits above it.
pub proof fn law_page_scrolls_undo_each_other(v: ViewerView)
    requires
        in_range(v),
    ensures
        v.scroll_position + v.viewport_height <= v.max_scroll ==> spec_scroll_page_up(spec_scroll_page_down(v)) == v,
        v.scroll_position >= v.viewport_height ==> spec_scroll_page_down(spec_scroll_page_up(v)) == v,
{
}

} // verus!
