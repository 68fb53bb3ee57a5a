//! Decoding of one segment into the representation of `types`.

use vstd::prelude::*;

use super::presentation_composition::{composition_from, CompositionObject, PresentationComposition, MAX_COMPOSITION_OBJECTS};
use super::types::{
    PCSComposition, PCSCompositionType, PCSCompositionView, PGSSegment, PGSSegmentView, PGSTimestamp,
    PresentationControlSegment, PresentationControlSegmentView,
};
use super::{
    decode_header, header_from, segment_len, PGSParseError, END_OF_DISPLAY_SET_TAG, HEADER_SIZE, OBJECT_DEFINITION_TAG,
    PALETTE_DEFINITION_TAG, PRESENTATION_COMPOSITION_TAG, WINDOW_DEFINITION_TAG,
};
use crate::types::util::{ObjectId, PaletteId, Point, Rect, WindowId};
use vstd::slice::slice_subrange;

verus! {

/// The composition type that the top two bits of `b` select.
pub open spec fn pcs_type_of(b: u8) -> PCSCompositionType {
    if b / 64 == 0 {
        PCSCompositionType::Normal
    } else if b / 64 == 1 {
        PCSCompositionType::AcquisitionPoint
    } else if b / 64 == 2 {
        PCSCompositionType::EpochStart
    } else {
        PCSCompositionType::EpochContinue
    }
}

/// A composition object as this representation holds it.
pub open spec fn pcs_composition_of(o: CompositionObject) -> PCSCompositionView {
    PCSCompositionView {
        object_id: ObjectId(o.object_id.raw_id),
        window_id: WindowId(o.window_id.raw_id),
        object_position: Point { x: o.position.x, y: o.position.y },
        crop_window: o.crop_window,
    }
}

/// The Presentation Composition that the payload `p` holds, with the given
/// timestamps; at most `MAX_COMPOSITION_OBJECTS` objects are read.
pub open spec fn control_segment_from(p: Seq<u8>, pts: PGSTimestamp, dts: PGSTimestamp) -> Option<
    PresentationControlSegmentView,
> {
    match composition_from(p, MAX_COMPOSITION_OBJECTS) {
        None => None,
        Some(d) => Some(
            PresentationControlSegmentView {
                presentation_timestamp: pts,
                decoding_timestamp: dts,
                width: d.width,
                height: d.height,
                framerate: d.framerate,
                composition_number: d.composition_id,
                composition_type: pcs_type_of(p[7]),
                is_palette_update_only: d.is_palette_update_only,
                palette_id: PaletteId(d.palette_id.raw_id),
                composition_objs: d.objects.map_values(|o: CompositionObject| pcs_composition_of(o)),
            },
        ),
    }
}

/// The segment at the start of `s`; only Presentation Composition payloads
/// are read, the others are skipped.
pub open spec fn pgs_segment_from(s: Seq<u8>) -> Result<PGSSegmentView, PGSParseError> {
    match header_from(s) {
        Err(e) => Err(e),
        Ok(h) => {
            let tag = h.segment_type;
            if tag != PALETTE_DEFINITION_TAG && tag != OBJECT_DEFINITION_TAG && tag != PRESENTATION_COMPOSITION_TAG
                && tag != WINDOW_DEFINITION_TAG && tag != END_OF_DISPLAY_SET_TAG {
                Err(PGSParseError::UnknownSegmentType(tag))
            } else if s.len() < segment_len(s) {
                Err(PGSParseError::TruncatedPayload)
            } else if tag == PRESENTATION_COMPOSITION_TAG {
                match control_segment_from(
                    s.subrange(13, segment_len(s)),
                    PGSTimestamp::spec_from_raw(h.presentation_timestamp.raw_value),
                    PGSTimestamp::spec_from_raw(h.decoding_timestamp.raw_value),
                ) {
                    Some(c) => Ok(PGSSegmentView::PCS(c)),
                    None => Err(PGSParseError::TruncatedPayload),
                }
            } else if tag == WINDOW_DEFINITION_TAG {
                Ok(PGSSegmentView::WDS)
            } else if tag == PALETTE_DEFINITION_TAG {
                Ok(PGSSegmentView::PDS)
            } else if tag == OBJECT_DEFINITION_TAG {
                Ok(PGSSegmentView::ODS)
            } else {
                Ok(PGSSegmentView::END)
            }
        },
    }
}

/// Reads the composition type from the top two bits of `b`.
fn composition_type(b: u8) -> (r: PCSCompositionType)
    ensures
        r == pcs_type_of(b),
{
    let top: u8 = b >> 6;
    assert(top == b / 64) by (bit_vector)
        requires
            top == b >> 6,
    ;
    if top == 0 {
        PCSCompositionType::Normal
    } else if top == 1 {
        PCSCompositionType::AcquisitionPoint
    } else if top == 2 {
        PCSCompositionType::EpochStart
    } else {
        PCSCompositionType::EpochContinue
    }
}

/// A composition object in this representation.
fn subobject(o: &CompositionObject) -> (r: PCSComposition)
    ensures
        r@ == pcs_composition_of(*o),
{
    let crop_window = match o.crop_window {
        Some(c) => Some(Rect::new(c.origin_x, c.origin_y, c.width, c.height)),
        None => None,
    };
    PCSComposition::new(
        ObjectId::new(o.object_id.raw_id),
        WindowId::new(o.window_id.raw_id),
        Point { x: o.position.x, y: o.position.y },
        crop_window,
    )
}

/// Decodes a Presentation Composition payload with the given timestamps.
fn presentation_segment(p: &[u8], pts: PGSTimestamp, dts: PGSTimestamp) -> (r: Option<PresentationControlSegment>)
    ensures
        match r {
            Some(c) => control_segment_from(p@, pts, dts) == Some(c@),
            None => control_segment_from(p@, pts, dts) is None,
        },
{
    let d = match PresentationComposition::parse(p, MAX_COMPOSITION_OBJECTS) {
        Some(d) => d,
        None => {
            return None;
        },
    };
    let mut objs: Vec<PCSComposition> = Vec::new();
    let mut k: usize = 0;
    while k < d.objects.len()
        invariant
            k <= d.objects@.len(),
            objs@.map_values(|c: PCSComposition| c@) =~= d.objects@.take(k as int).map_values(
                |o: CompositionObject| pcs_composition_of(o),
            ),
        decreases d.objects@.len() - k,
    {
        let ghost before = objs@;
        let c = subobject(&d.objects[k]);
        objs.push(c);
        k = k + 1;
        assert(objs@.map_values(|c: PCSComposition| c@) =~= before.map_values(|c: PCSComposition| c@).push(c@));
        assert(d.objects@.take(k as int).map_values(|o: CompositionObject| pcs_composition_of(o)) =~= d.objects@.take(
            k - 1,
        ).map_values(|o: CompositionObject| pcs_composition_of(o)).push(pcs_composition_of(d.objects@[k - 1])));
    }
    assert(d.objects@.take(k as int) =~= d.objects@);
    Some(
        PresentationControlSegment::new(
            pts,
            dts,
            d.width,
            d.height,
            d.framerate,
            d.composition_id,
            composition_type(p[7]),
            d.is_palette_update_only,
            PaletteId::new(d.palette_id.raw_id),
            objs,
        ),
    )
}

/// Decodes the segment at the start of `input`, and returns what follows it.
pub fn segment(input: &[u8]) -> (r: Result<(&[u8], PGSSegment), PGSParseError>)
    ensures
        match r {
            Ok((rest, seg)) => pgs_segment_from(input@) == Ok::<PGSSegmentView, PGSParseError>(seg@)
                && rest@ == input@.skip(segment_len(input@)),
            Err(e) => pgs_segment_from(input@) == Err::<PGSSegmentView, PGSParseError>(e),
        },
{
    let header = match decode_header(input) {
        Ok(h) => h,
        Err(e) => {
            return Err(e);
        },
    };
    let tag = header.segment_type;
    if tag != PALETTE_DEFINITION_TAG && tag != OBJECT_DEFINITION_TAG && tag != PRESENTATION_COMPOSITION_TAG && tag
        != WINDOW_DEFINITION_TAG && tag != END_OF_DISPLAY_SET_TAG {
        return Err(PGSParseError::UnknownSegmentType(tag));
    }
    let n = HEADER_SIZE + header.segment_size as usize;
    if input.len() < n {
        return Err(PGSParseError::TruncatedPayload);
    }
    let payload = slice_subrange(input, HEADER_SIZE, n);
    let rest = slice_subrange(input, n, input.len());
    assert(rest@ =~= input@.skip(n as int));
    let seg = if tag == PRESENTATION_COMPOSITION_TAG {
        let pts = PGSTimestamp::from_raw_timestamp(header.presentation_timestamp.raw_value);
        let dts = PGSTimestamp::from_raw_timestamp(header.decoding_timestamp.raw_value);
        match presentation_segment(payload, pts, dts) {
            Some(c) => PGSSegment::PCS(c),
            None => {
                return Err(PGSParseError::TruncatedPayload);
            },
        }
    } else if tag == WINDOW_DEFINITION_TAG {
        PGSSegment::WDS
    } else if tag == PALETTE_DEFINITION_TAG {
        PGSSegment::PDS
    } else if tag == OBJECT_DEFINITION_TAG {
        PGSSegment::ODS
    } else {
        PGSSegment::END
    };
    Ok((rest, seg))
}

} // verus!
