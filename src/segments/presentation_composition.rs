use vstd::prelude::*;

use super::fields::{be16, flag_hi, flag_lo, read_flag_hi, read_flag_lo, read_u16};
use super::shared::{ObjectId, PaletteId, Point, Rect, WindowId};
use super::window_definition::{read_rect, rect_at};

verus! {

/// What is shown on screen from this point in time on.
#[derive(Debug, Clone, PartialEq, Eq)]
pub struct PresentationComposition {
    pub width: u16,
    pub height: u16,
    pub framerate: u8,
    pub composition_id: u16,
    pub composition_type: CompositionType,
    pub is_palette_update_only: bool,
    pub palette_id: PaletteId,
    pub objects: Vec<CompositionObject>,
}

/// The kind of a composition, from the top two bits of its type byte.
#[derive(Debug, Clone, Copy, PartialEq, Eq, Structural)]
pub enum CompositionType {
    /// An incremental update; with no objects it clears the screen.
    Normal,
    /// A refresh in the middle of an epoch that brings or replaces objects.
    AcquisitionPoint,
    /// A full composition that holds all it needs for a new display.
    EpochStart,
    EpochContinuation,
}

/// One object placed on screen.
#[derive(Debug, Clone, Copy, PartialEq, Eq, Structural)]
pub struct CompositionObject {
    pub object_id: ObjectId,
    pub window_id: WindowId,
    pub is_forced: bool,
    pub position: Point,
    pub crop_window: Option<Rect>,
}

/// What a `PresentationComposition` holds, with its objects as a sequence.
pub ghost struct PresentationCompositionView {
    pub width: u16,
    pub height: u16,
    pub framerate: u8,
    pub composition_id: u16,
    pub composition_type: CompositionType,
    pub is_palette_update_only: bool,
    pub palette_id: PaletteId,
    pub objects: Seq<CompositionObject>,
}

impl View for PresentationComposition {
    type V = PresentationCompositionView;

    open spec fn view(&self) -> PresentationCompositionView {
        PresentationCompositionView {
            width: self.width,
            height: self.height,
            framerate: self.framerate,
            composition_id: self.composition_id,
            composition_type: self.composition_type,
            is_palette_update_only: self.is_palette_update_only,
            palette_id: self.palette_id,
            objects: self.objects@,
        }
    }
}

/// The number of composition objects that the decoder reads at most, where
/// a larger count is declared.
pub const MAX_COMPOSITION_OBJECTS: u8 = 2;

/// The composition type that the top two bits of `b` select.
pub open spec fn composition_type_of(b: u8) -> CompositionType {
    if b / 64 == 0 {
        CompositionType::Normal
    } else if b / 64 == 1 {
        CompositionType::AcquisitionPoint
    } else if b / 64 == 2 {
        CompositionType::EpochStart
    } else {
        CompositionType::EpochContinuation
    }
}

/// The composition object that starts at `i`, and its size in bytes: eight,
/// or sixteen where a crop rectangle follows.
pub open spec fn composition_object_at(p: Seq<u8>, i: int) -> Option<(CompositionObject, nat)> {
    if i + 8 > p.len() {
        None
    } else {
        let flags = p[i + 3];
        let object = CompositionObject {
            object_id: ObjectId { raw_id: be16(p, i) },
            window_id: WindowId { raw_id: p[i + 2] },
            is_forced: flag_lo(flags),
            position: Point { x: be16(p, i + 4), y: be16(p, i + 6) },
            crop_window: None,
        };
        if !flag_hi(flags) {
            Some((object, 8))
        } else if i + 16 > p.len() {
            None
        } else {
            Some((CompositionObject { crop_window: Some(rect_at(p, i + 8)), ..object }, 16))
        }
    }
}

/// The `n` composition objects that follow one another from `i` on.
pub open spec fn composition_objects_at(p: Seq<u8>, i: int, n: nat) -> Option<Seq<CompositionObject>>
    decreases n,
{
    if n == 0 {
        Some(seq![])
    } else {
        match composition_object_at(p, i) {
            None => None,
            Some((object, size)) => match composition_objects_at(p, i + size, (n - 1) as nat) {
                None => None,
                Some(rest) => Some(seq![object] + rest),
            },
        }
    }
}

/// `rest` with `front` put before it, where it is there.
pub open spec fn prepend_objects(front: Seq<CompositionObject>, rest: Option<Seq<CompositionObject>>) -> Option<
    Seq<CompositionObject>,
> {
    match rest {
        None => None,
        Some(r) => Some(front + r),
    }
}

/// The number of composition objects that is read for a declared `count`.
pub open spec fn clamped_count(count: u8, max_objects: u8) -> nat {
    if count > max_objects {
        max_objects as nat
    } else {
        count as nat
    }
}

/// The composition that the payload `p` holds, where at most `max_objects`
/// objects are read; bytes after the last object read are ignored.
pub open spec fn composition_from(p: Seq<u8>, max_objects: u8) -> Option<PresentationCompositionView> {
    if p.len() < 11 {
        None
    } else {
        match composition_objects_at(p, 11, clamped_count(p[10], max_objects)) {
            None => None,
            Some(objects) => Some(
                PresentationCompositionView {
                    width: be16(p, 0),
                    height: be16(p, 2),
                    framerate: p[4],
                    composition_id: be16(p, 5),
                    composition_type: composition_type_of(p[7]),
                    is_palette_update_only: flag_hi(p[8]),
                    palette_id: PaletteId { raw_id: p[9] },
                    objects,
                },
            ),
        }
    }
}

/// Reads the composition type from the top two bits of `b`.
pub fn read_composition_type(b: u8) -> (r: CompositionType)
    ensures
        r == composition_type_of(b),
{
    let top: u8 = b >> 6;
    assert(top == b / 64) by (bit_vector)
        requires
            top == b >> 6,
    ;
    if top == 0 {
        CompositionType::Normal
    } else if top == 1 {
        CompositionType::AcquisitionPoint
    } else if top == 2 {
        CompositionType::EpochStart
    } else {
        CompositionType::EpochContinuation
    }
}

/// Reads the number of composition objects, clamped to `max_objects`.
pub fn read_object_count(count: u8, max_objects: u8) -> (r: u8)
    ensures
        r as nat == clamped_count(count, max_objects),
{
    if count > max_objects {
        max_objects
    } else {
        count
    }
}

/// Reads the composition object at `i`, and its size in bytes.
pub fn read_composition_object(p: &[u8], i: usize) -> (r: Option<(CompositionObject, usize)>)
    ensures
        match r {
            Some((object, size)) => composition_object_at(p@, i as int) == Some((object, size as nat))
                && i + size <= p.len(),
            None => composition_object_at(p@, i as int) is None,
        },
{
    if i > p.len() || p.len() - i < 8 {
        return None;
    }
    let flags = p[i + 3];
    let object = CompositionObject {
        object_id: ObjectId { raw_id: read_u16(p, i) },
        window_id: WindowId { raw_id: p[i + 2] },
        is_forced: read_flag_lo(flags),
        position: Point { x: read_u16(p, i + 4), y: read_u16(p, i + 6) },
        crop_window: None,
    };
    if !read_flag_hi(flags) {
        Some((object, 8))
    } else if p.len() - i < 16 {
        None
    } else {
        Some((CompositionObject { crop_window: Some(read_rect(p, i + 8)), ..object }, 16))
    }
}

impl PresentationComposition {
    /// Decodes a Presentation Composition from its whole payload, reading at
    /// most `max_objects` composition objects.
    pub fn parse(p: &[u8], max_objects: u8) -> (r: Option<PresentationComposition>)
        ensures
            match r {
                Some(d) => composition_from(p@, max_objects) == Some(d@),
                None => composition_from(p@, max_objects) is None,
            },
    {
        if p.len() < 11 {
            return None;
        }
        let count = read_object_count(p[10], max_objects);
        let mut objects: Vec<CompositionObject> = Vec::new();
        let mut i: usize = 11;
        let mut k: u8 = 0;
        while k < count
            invariant
                k <= count,
                count as nat == clamped_count(p@[10], max_objects),
                i <= p.len(),
                composition_objects_at(p@, 11, count as nat) == prepend_objects(
                    objects@,
                    composition_objects_at(p@, i as int, (count - k) as nat),
                ),
            decreases count - k,
        {
            match read_composition_object(p, i) {
                None => {
                    return None;
                },
                Some((object, size)) => {
                    let ghost before = objects@;
                    let ghost rest = composition_objects_at(p@, (i + size) as int, (count - k - 1) as nat);
                    objects.push(object);
                    i = i + size;
                    k = k + 1;
                    assert(match rest {
                        None => true,
                        Some(r) => objects@ + r =~= before + (seq![object] + r),
                    });
                },
            }
        }
        assert(objects@ + seq![] =~= objects@);
        Some(
            PresentationComposition {
                width: read_u16(p, 0),
                height: read_u16(p, 2),
                framerate: p[4],
                composition_id: read_u16(p, 5),
                composition_type: read_composition_type(p[7]),
                is_palette_update_only: read_flag_hi(p[8]),
                palette_id: PaletteId { raw_id: p[9] },
                objects,
            },
        )
    }
}

} // verus!
