use vstd::prelude::*;

verus! {

/// Vertical scroll position for a view whose content may be taller than
/// its viewport. Every operation clamps the offset to
/// `[0, max(0, content_height - viewport_height)]`.
#[derive(Clone, Copy, Debug, PartialEq, Eq, Structural)]
pub struct ScrollState {
    pub offset: u16,
    pub content_height: u16,
    pub viewport_height: u16,
}

impl ScrollState {
    /// The largest offset the current bounds allow.
    pub open spec fn spec_max_offset(self) -> int {
        if self.content_height >= self.viewport_height {
            self.content_height - self.viewport_height
        } else {
            0
        }
    }

    /// The offset is within the range the bounds allow.
    pub open spec fn wf(self) -> bool {
        self.offset <= self.spec_max_offset()
    }

    /// `target` clamped to the range the bounds allow.
    pub open spec fn spec_clamp(self, target: int) -> int {
        if target <= 0 {
            0
        } else if target >= self.spec_max_offset() {
            self.spec_max_offset()
        } else {
            target
        }
    }

    /// State after scrolling one line up.
    pub open spec fn spec_scroll_up(self) -> ScrollState {
        ScrollState { offset: self.spec_clamp(self.offset - 1) as u16, ..self }
    }

    /// State after scrolling one line down.
    pub open spec fn spec_scroll_down(self) -> ScrollState {
        ScrollState { offset: self.spec_clamp(self.offset + 1) as u16, ..self }
    }

    /// State after jumping to the top.
    pub open spec fn spec_scroll_to_top(self) -> ScrollState {
        ScrollState { offset: 0, ..self }
    }

    /// State after jumping to the bottom.
    pub open spec fn spec_scroll_to_bottom(self) -> ScrollState {
        ScrollState { offset: self.spec_max_offset() as u16, ..self }
    }

    /// A scroll state at the top of content of the given bounds.
    pub fn new(content_height: u16, viewport_height: u16) -> (r: ScrollState)
        ensures
            r == (ScrollState { offset: 0, content_height, viewport_height }),
            r.wf(),
    {
        ScrollState { offset: 0, content_height, viewport_height }
    }

    /// The largest offset the current bounds allow.
    pub fn max_offset(&self) -> (r: u16)
        ensures
            r == self.spec_max_offset(),
    {
        if self.content_height >= self.viewport_height {
            self.content_height - self.viewport_height
        } else {
            0
        }
    }

    /// Moves the offset one line up, clamped to the valid range.
    pub fn scroll_up(&mut self)
        ensures
            *final(self) == old(self).spec_scroll_up(),
            final(self).wf(),
    {
        let max: u16 = self.max_offset();
        let target: u16 = if self.offset == 0 { 0 } else { self.offset - 1 };
        self.offset = if target > max { max } else { target };
    }

    /// Moves the offset one line down, clamped to the valid range.
    pub fn scroll_down(&mut self)
        ensures
            *final(self) == old(self).spec_scroll_down(),
            final(self).wf(),
    {
        let max: u16 = self.max_offset();
        self.offset = if self.offset < max { self.offset + 1 } else { max };
    }

    /// Sets the offset to the top of the content.
    pub fn scroll_to_top(&mut self)
        ensures
            *final(self) == old(self).spec_scroll_to_top(),
            final(self).wf(),
    {
        self.offset = 0;
    }

    /// Sets the offset so the end of the content is in view.
    pub fn scroll_to_bottom(&mut self)
        ensures
            *final(self) == old(self).spec_scroll_to_bottom(),
            final(self).wf(),
    {
        self.offset = self.max_offset();
    }

    /// Replaces the bounds, clamping the offset into the new range.
    pub fn set_bounds(&mut self, content_height: u16, viewport_height: u16)
        ensures
            final(self).content_height == content_height,
            final(self).viewport_height == viewport_height,
            final(self).offset == final(self).spec_clamp(old(self).offset as int),
            final(self).wf(),
    {
        self.content_height = content_height;
        self.viewport_height = viewport_height;
        let max: u16 = self.max_offset();
        if self.offset > max {
            self.offset = max;
        }
    }
}

/// Law: every scroll operation, from any starting state, leaves the offset
/// within `[0, max(0, content_height - viewport_height)]`.
pub proof fn lemma_scroll_ops_stay_clamped(s: ScrollState)
    ensures
        0 <= s.spec_scroll_up().offset <= s.spec_max_offset(),
        0 <= s.spec_scroll_down().offset <= s.spec_max_offset(),
        0 <= s.spec_scroll_to_top().offset <= s.spec_max_offset(),
        0 <= s.spec_scroll_to_bottom().offset <= s.spec_max_offset(),
        s.spec_scroll_up().wf() && s.spec_scroll_down().wf() && s.spec_scroll_to_top().wf()
            && s.spec_scroll_to_bottom().wf(),
{
}

} // verus!
