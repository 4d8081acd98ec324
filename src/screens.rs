//! Geometry of a scrollable area of the screen.
use vstd::prelude::*;

verus! {

/// A vertical band of the screen showing a scrollable content.
#[derive(Debug)]
pub struct ScreenArea {
    /// First line.
    pub top: u16,
    /// Last line, included.
    pub bottom: u16,
    /// 0 for no scroll, positive if scrolled.
    pub scroll: i32,
    pub content_length: i32,
    pub width: u16,
}

impl ScreenArea {
    pub open spec fn height_spec(&self) -> int {
        self.bottom - self.top + 1
    }

    /// First line of the scrollbar.
    pub open spec fn scrollbar_top(&self) -> int {
        self.top + self.scroll * self.height_spec() / (self.content_length as int)
    }

    pub fn new(top: u16, bottom: u16, width: u16) -> (r: ScreenArea)
        ensures
            r == (ScreenArea { top, bottom, scroll: 0, content_length: 0, width }),
    {
        ScreenArea { top, bottom, scroll: 0, content_length: 0, width }
    }

    /// Number of lines of the area.
    pub fn height(&self) -> (r: i32)
        requires
            self.top <= self.bottom,
        ensures
            r == self.height_spec(),
    {
        (self.bottom - self.top) as i32 + 1
    }

    /// Scrolls by `dy` lines, never before the start of the content nor
    /// past the point where its last line shows at the bottom.
    pub fn try_scroll(&mut self, dy: i32)
        requires
            old(self).top <= old(self).bottom,
            i32::MIN <= old(self).scroll + dy <= i32::MAX,
            i32::MIN <= old(self).content_length - old(self).height_spec(),
        ensures
            final(self).scroll == vstd::math::min(
                vstd::math::max(old(self).scroll + dy, 0),
                old(self).content_length - old(self).height_spec() + 1,
            ),
            final(self).top == old(self).top,
            final(self).bottom == old(self).bottom,
            final(self).content_length == old(self).content_length,
            final(self).width == old(self).width,
    {
        let wanted = self.scroll + dy;
        let lowest = if wanted < 0 {
            0
        } else {
            wanted
        };
        let last = self.content_length - self.height() + 1;
        self.scroll = if lowest < last {
            lowest
        } else {
            last
        };
    }
    /// The lines, first and last included, where the scrollbar is drawn,
    /// or `None` when the whole content fits in the area.
    pub fn scrollbar(&self) -> (r: Option<(u16, u16)>)
        requires
            self.top <= self.bottom,
            self.scroll >= 0,
            self.height_spec() * self.height_spec() <= i32::MAX,
            self.scroll * self.height_spec() <= i32::MAX,
            self.top + self.scroll * self.height_spec() / (self.content_length as int)
                + self.height_spec() <= i32::MAX,
        ensures
            self.content_length <= self.height_spec() ==> r is None,
            self.content_length > self.height_spec() ==> r == Some(
                (
                    #[verifier::truncate] (self.scrollbar_top() as u16),
                    #[verifier::truncate] (vstd::math::min(
                        self.scrollbar_top() + self.height_spec() * self.height_spec()
                            / (self.content_length as int) - 1,
                        self.bottom as int,
                    ) as u16),
                ),
            ),
    {
        let h = self.height();
        if self.content_length <= h {
            return None;
        }
        let sbh = h * h / self.content_length;
        proof {
            let hh = h as int;
            let cl = self.content_length as int;
            assert(hh * hh / cl <= hh) by (nonlinear_arith)
                requires
                    0 < hh < cl,
            {
                assert(hh * hh <= hh * cl);
            }
        }
        let sc = self.top as i32 + self.scroll * h / self.content_length;
        let end = sc + sbh - 1;
        let last = if end < self.bottom as i32 {
            end
        } else {
            self.bottom as i32
        };
        Some((#[verifier::truncate] (sc as u16), #[verifier::truncate] (last as u16)))
    }
}

} // verus!
