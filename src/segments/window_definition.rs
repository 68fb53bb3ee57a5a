use vstd::prelude::*;

use super::fields::{be16, read_u16};
use super::shared::{Rect, WindowId};

verus! {

/// The windows in which objects are shown.
#[derive(Debug, Clone, PartialEq, Eq)]
pub struct WindowDefinition {
    pub windows: Vec<Window>,
}

/// One window: its id and its place on screen.
#[derive(Debug, Clone, Copy, PartialEq, Eq, Structural)]
pub struct Window {
    pub window_id: WindowId,
    pub bounds: Rect,
}

/// What a `WindowDefinition` holds, with its windows as a sequence.
pub ghost struct WindowDefinitionView {
    pub windows: Seq<Window>,
}

impl View for WindowDefinition {
    type V = WindowDefinitionView;

    open spec fn view(&self) -> WindowDefinitionView {
        WindowDefinitionView { windows: self.windows@ }
    }
}

/// Size in bytes of one window record.
pub const WINDOW_SIZE: usize = 9;

/// The rectangle whose four big-endian 16-bit fields start at `i`.
pub open spec fn rect_at(p: Seq<u8>, i: int) -> Rect {
    Rect { origin_x: be16(p, i), origin_y: be16(p, i + 2), width: be16(p, i + 4), height: be16(p, i + 6) }
}

/// The window whose nine bytes start at `i`.
pub open spec fn window_at(p: Seq<u8>, i: int) -> Window {
    Window { window_id: WindowId { raw_id: p[i] }, bounds: rect_at(p, i + 1) }
}

/// The windows that the payload `p` holds: a count, then that many records.
pub open spec fn windows_from(p: Seq<u8>) -> Option<WindowDefinitionView> {
    if p.len() < 1 || p.len() < 1 + 9 * p[0] {
        None
    } else {
        Some(WindowDefinitionView { windows: Seq::new(p[0] as nat, |k: int| window_at(p, 1 + 9 * k)) })
    }
}

/// Reads the rectangle at `i`.
pub fn read_rect(p: &[u8], i: usize) -> (r: Rect)
    requires
        i + 8 <= p.len(),
    ensures
        r == rect_at(p@, i as int),
{
    Rect {
        origin_x: read_u16(p, i),
        origin_y: read_u16(p, i + 2),
        width: read_u16(p, i + 4),
        height: read_u16(p, i + 6),
    }
}

impl WindowDefinition {
    /// Decodes a Window Definition from its whole payload.
    pub fn parse(p: &[u8]) -> (r: Option<WindowDefinition>)
        ensures
            match r {
                Some(d) => windows_from(p@) == Some(d@),
                None => windows_from(p@) is None,
            },
    {
        if p.len() < 1 {
            return None;
        }
        let count = p[0] as usize;
        if p.len() < 1 + WINDOW_SIZE * count {
            return None;
        }
        let mut windows: Vec<Window> = Vec::new();
        let mut k: usize = 0;
        while k < count
            invariant
                count == p@[0],
                1 + 9 * count <= p.len(),
                k <= count,
                windows@ =~= Seq::new(k as nat, |j: int| window_at(p@, 1 + 9 * j)),
            decreases count - k,
        {
            let i = 1 + WINDOW_SIZE * k;
            windows.push(Window { window_id: WindowId { raw_id: p[i] }, bounds: read_rect(p, i + 1) });
            k = k + 1;
        }
        let d = WindowDefinition { windows };
        assert(d@.windows =~= windows_from(p@).unwrap().windows);
        Some(d)
    }
}

} // verus!
