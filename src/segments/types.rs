//! A second representation of the Presentation Graphics Stream, which keeps
//! times as durations and rectangles by their edges.

use vstd::prelude::*;

use crate::segments::shared;
use crate::types::util::{ObjectId, PaletteId, Point, Rect, WindowId};
use std::time::Duration;

verus! {

/// A point in time of the stream, in nanoseconds.
#[derive(Debug, PartialEq, Eq, PartialOrd, Ord, Clone, Copy, Structural)]
pub struct PGSTimestamp {
    nanos: u64,
}

/// The duration of `nanos` nanoseconds.
pub uninterp spec fn duration_of_nanos(nanos: u64) -> Duration;

/// Relies on `Duration::from_nanos`, whose result depends on the count of
/// nanoseconds alone.
#[verifier::external_body]
fn duration_from_nanos(nanos: u64) -> (r: Duration)
    ensures
        r == duration_of_nanos(nanos),
{
    Duration::from_nanos(nanos)
}

impl PGSTimestamp {
    pub closed spec fn nanos(&self) -> u64 {
        self.nanos
    }

    /// The timestamp of `ts` ticks.
    pub closed spec fn spec_from_raw(ts: u32) -> PGSTimestamp {
        PGSTimestamp { nanos: (ts as nat * 1_000_000 / 90) as u64 }
    }

    /// The timestamp of a raw count of 90 kHz ticks, in whole nanoseconds
    /// rounded down.
    pub fn from_raw_timestamp(ts: u32) -> (r: PGSTimestamp)
        ensures
            r.nanos() == ts as nat * 1_000_000 / 90,
            r == PGSTimestamp::spec_from_raw(ts),
    {
        PGSTimestamp { nanos: (ts as u64) * 1_000_000 / 90 }
    }

    /// The timestamp as a `Duration`.
    pub fn duration(&self) -> (r: Duration)
        ensures
            r == duration_of_nanos(self.nanos()),
    {
        duration_from_nanos(self.nanos)
    }
}

/// The five kinds of segment.
#[derive(Debug, Clone, Copy, PartialEq, Eq, Structural)]
pub enum PGSSegmentType {
    /// Presentation Composition Segment (PCS)
    PCS,
    /// Window Definition Segment (WDS)
    WDS,
    /// Palette Definition Segment (PDS)
    PDS,
    /// Object Definition Segment (ODS)
    ODS,
    /// End of Display Set Segment (END)
    END,
}

/// The fields of a segment header.
#[derive(Debug)]
pub struct PGSHeader {
    presentation_timestamp: PGSTimestamp,
    decoding_timestamp: PGSTimestamp,
    segment_type: PGSSegmentType,
    segment_size: u16,
}

/// What a `PGSHeader` holds.
pub ghost struct PGSHeaderView {
    pub presentation_timestamp: PGSTimestamp,
    pub decoding_timestamp: PGSTimestamp,
    pub segment_type: PGSSegmentType,
    pub segment_size: u16,
}

impl View for PGSHeader {
    type V = PGSHeaderView;

    closed spec fn view(&self) -> PGSHeaderView {
        PGSHeaderView {
            presentation_timestamp: self.presentation_timestamp,
            decoding_timestamp: self.decoding_timestamp,
            segment_type: self.segment_type,
            segment_size: self.segment_size,
        }
    }
}

impl PGSHeader {
    pub fn new(
        presentation_timestamp: PGSTimestamp,
        decoding_timestamp: PGSTimestamp,
        segment_type: PGSSegmentType,
        segment_size: u16,
    ) -> (r: Self)
        ensures
            r@ == (PGSHeaderView { presentation_timestamp, decoding_timestamp, segment_type, segment_size }),
    {
        PGSHeader { presentation_timestamp, decoding_timestamp, segment_type, segment_size }
    }

    pub fn presentation_timestamp(&self) -> (r: PGSTimestamp)
        ensures
            r == self@.presentation_timestamp,
    {
        self.presentation_timestamp
    }

    pub fn decoding_timestamp(&self) -> (r: PGSTimestamp)
        ensures
            r == self@.decoding_timestamp,
    {
        self.decoding_timestamp
    }

    pub fn segment_type(&self) -> (r: PGSSegmentType)
        ensures
            r == self@.segment_type,
    {
        self.segment_type
    }

    pub fn segment_size(&self) -> (r: u16)
        ensures
            r == self@.segment_size,
    {
        self.segment_size
    }
}

/// A decoded segment; only Presentation Composition segments carry their
/// fields.
#[derive(Debug)]
pub enum PGSSegment {
    /// Presentation Composition Segment (PCS)
    PCS(PresentationControlSegment),
    /// Window Definition Segment (WDS)
    WDS,
    /// Palette Definition Segment (PDS)
    PDS,
    /// Object Definition Segment (ODS)
    ODS,
    /// End of Display Set Segment (END)
    END,
}

/// What a `PGSSegment` holds.
pub ghost enum PGSSegmentView {
    PCS(PresentationControlSegmentView),
    WDS,
    PDS,
    ODS,
    END,
}

impl View for PGSSegment {
    type V = PGSSegmentView;

    open spec fn view(&self) -> PGSSegmentView {
        match self {
            PGSSegment::PCS(c) => PGSSegmentView::PCS(c@),
            PGSSegment::WDS => PGSSegmentView::WDS,
            PGSSegment::PDS => PGSSegmentView::PDS,
            PGSSegment::ODS => PGSSegmentView::ODS,
            PGSSegment::END => PGSSegmentView::END,
        }
    }
}

/// A Presentation Composition segment with its timestamps.
#[derive(Debug)]
pub struct PresentationControlSegment {
    presentation_timestamp: PGSTimestamp,
    decoding_timestamp: PGSTimestamp,
    width: u16,
    height: u16,
    framerate: u8,
    composition_number: u16,
    composition_type: PCSCompositionType,
    is_palette_update_only: bool,
    palette_id: PaletteId,
    composition_objs: Vec<PCSComposition>,
}

/// What a `PresentationControlSegment` holds, with its objects as a sequence.
pub ghost struct PresentationControlSegmentView {
    pub presentation_timestamp: PGSTimestamp,
    pub decoding_timestamp: PGSTimestamp,
    pub width: u16,
    pub height: u16,
    pub framerate: u8,
    pub composition_number: u16,
    pub composition_type: PCSCompositionType,
    pub is_palette_update_only: bool,
    pub palette_id: PaletteId,
    pub composition_objs: Seq<PCSCompositionView>,
}

impl View for PresentationControlSegment {
    type V = PresentationControlSegmentView;

    closed spec fn view(&self) -> PresentationControlSegmentView {
        PresentationControlSegmentView {
            presentation_timestamp: self.presentation_timestamp,
            decoding_timestamp: self.decoding_timestamp,
            width: self.width,
            height: self.height,
            framerate: self.framerate,
            composition_number: self.composition_number,
            composition_type: self.composition_type,
            is_palette_update_only: self.is_palette_update_only,
            palette_id: self.palette_id,
            composition_objs: self.composition_objs@.map_values(|c: PCSComposition| c@),
        }
    }
}

impl PresentationControlSegment {
    pub fn new(
        presentation_timestamp: PGSTimestamp,
        decoding_timestamp: PGSTimestamp,
        width: u16,
        height: u16,
        framerate: u8,
        composition_number: u16,
        composition_type: PCSCompositionType,
        is_palette_update_only: bool,
        palette_id: PaletteId,
        composition_objs: Vec<PCSComposition>,
    ) -> (r: Self)
        ensures
            r@ == (PresentationControlSegmentView {
                presentation_timestamp,
                decoding_timestamp,
                width,
                height,
                framerate,
                composition_number,
                composition_type,
                is_palette_update_only,
                palette_id,
                composition_objs: composition_objs@.map_values(|c: PCSComposition| c@),
            }),
    {
        Self {
            presentation_timestamp,
            decoding_timestamp,
            width,
            height,
            framerate,
            composition_number,
            composition_type,
            is_palette_update_only,
            palette_id,
            composition_objs,
        }
    }

    pub fn presentation_timestamp(&self) -> (r: PGSTimestamp)
        ensures
            r == self@.presentation_timestamp,
    {
        self.presentation_timestamp
    }

    pub fn decoding_timestamp(&self) -> (r: PGSTimestamp)
        ensures
            r == self@.decoding_timestamp,
    {
        self.decoding_timestamp
    }

    pub fn width(&self) -> (r: u16)
        ensures
            r == self@.width,
    {
        self.width
    }

    pub fn height(&self) -> (r: u16)
        ensures
            r == self@.height,
    {
        self.height
    }

    pub fn framerate(&self) -> (r: u8)
        ensures
            r == self@.framerate,
    {
        self.framerate
    }

    pub fn composition_number(&self) -> (r: u16)
        ensures
            r == self@.composition_number,
    {
        self.composition_number
    }

    pub fn composition_type(&self) -> (r: PCSCompositionType)
        ensures
            r == self@.composition_type,
    {
        self.composition_type
    }

    pub fn is_palette_update_only(&self) -> (r: bool)
        ensures
            r == self@.is_palette_update_only,
    {
        self.is_palette_update_only
    }

    pub fn palette_id(&self) -> (r: PaletteId)
        ensures
            r == self@.palette_id,
    {
        self.palette_id
    }

    pub fn composition_objs(&self) -> (r: &[PCSComposition])
        ensures
            r@.map_values(|c: PCSComposition| c@) == self@.composition_objs,
    {
        self.composition_objs.as_slice()
    }
}

/// The kind of a composition.
#[derive(Debug, Clone, Copy, PartialEq, Eq, Structural)]
pub enum PCSCompositionType {
    /// This defines a new display. The Epoch Start contains all functional segments needed to display a new
    /// composition on the screen.
    EpochStart,
    /// This defines a display refresh, which is used to compose in the middle of the Epoch. It includes functional
    /// segments with new objects to be used in a new composition, replacing old objects with the same Object ID.
    AcquisitionPoint,
    /// This defines a display update, and contains only functional segments with elements that are different from the
    /// preceding composition.
    ///
    /// It is mostly used to stop displaying objects on the screen by defining a composition with no composition objects
    /// (a value of zero in the Number of Composition Objects flag) but also used to define a new composition with new
    /// objects and objects defined since the Epoch Start.
    Normal,
    /// This continues the current epoch.
    EpochContinue,
}

/// One object placed on screen by a composition.
#[derive(Debug, Clone, Copy)]
pub struct PCSComposition {
    object_id: ObjectId,
    window_id: WindowId,
    object_position: Point,
    crop_window: Option<Rect>,
}

/// What a `PCSComposition` holds, with its crop rectangle by corner and size.
pub ghost struct PCSCompositionView {
    pub object_id: ObjectId,
    pub window_id: WindowId,
    pub object_position: Point,
    pub crop_window: Option<shared::Rect>,
}

impl View for PCSComposition {
    type V = PCSCompositionView;

    closed spec fn view(&self) -> PCSCompositionView {
        PCSCompositionView {
            object_id: self.object_id,
            window_id: self.window_id,
            object_position: self.object_position,
            crop_window: match self.crop_window {
                Some(r) => Some(r@),
                None => None,
            },
        }
    }
}

impl PCSComposition {
    pub fn new(object_id: ObjectId, window_id: WindowId, object_position: Point, crop_window: Option<Rect>) -> (r: Self)
        ensures
            r@ == (PCSCompositionView {
                object_id,
                window_id,
                object_position,
                crop_window: match crop_window {
                    Some(c) => Some(c@),
                    None => None,
                },
            }),
    {
        Self { object_id, window_id, object_position, crop_window }
    }

    pub fn object_id(&self) -> (r: ObjectId)
        ensures
            r == self@.object_id,
    {
        self.object_id
    }

    pub fn window_id(&self) -> (r: WindowId)
        ensures
            r == self@.window_id,
    {
        self.window_id
    }

    pub fn object_position(&self) -> (r: Point)
        ensures
            r == self@.object_position,
    {
        self.object_position
    }

    pub fn crop_window(&self) -> (r: Option<Rect>)
        ensures
            match r {
                Some(c) => self@.crop_window == Some(c@),
                None => self@.crop_window is None,
            },
    {
        self.crop_window
    }
}

} // verus!
