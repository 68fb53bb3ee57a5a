use vstd::prelude::*;

use super::shared::{ColorId, PaletteId};

verus! {

/// A palette: colors in YCrCb with transparency, each under its color id.
#[derive(Debug, Clone, PartialEq, Eq)]
pub struct PaletteDefinition {
    pub id: PaletteId,
    pub palette_version: u8,
    pub palette_entries: Vec<PaletteEntry>,
}

/// One color of a palette.
#[derive(Debug, Clone, Copy, PartialEq, Eq, Structural)]
pub struct PaletteEntry {
    pub id: ColorId,
    pub luma: u8,
    pub chroma_red: u8,
    pub chroma_blue: u8,
    pub alpha: u8,
}

/// What a `PaletteDefinition` holds, with its entries as a sequence.
pub ghost struct PaletteDefinitionView {
    pub id: PaletteId,
    pub palette_version: u8,
    pub palette_entries: Seq<PaletteEntry>,
}

impl View for PaletteDefinition {
    type V = PaletteDefinitionView;

    open spec fn view(&self) -> PaletteDefinitionView {
        PaletteDefinitionView {
            id: self.id,
            palette_version: self.palette_version,
            palette_entries: self.palette_entries@,
        }
    }
}

/// Size in bytes of one palette entry.
pub const PALETTE_ENTRY_SIZE: usize = 5;

/// The palette entry whose five bytes start at `i`.
pub open spec fn palette_entry_at(p: Seq<u8>, i: int) -> PaletteEntry {
    PaletteEntry {
        id: ColorId { raw_id: p[i] },
        luma: p[i + 1],
        chroma_red: p[i + 2],
        chroma_blue: p[i + 3],
        alpha: p[i + 4],
    }
}

/// The palette that the payload `p` holds: id, version, then as many whole
/// five-byte entries as fit; bytes after the last whole entry are ignored.
pub open spec fn palette_from(p: Seq<u8>) -> Option<PaletteDefinitionView> {
    if p.len() < 2 {
        None
    } else {
        Some(
            PaletteDefinitionView {
                id: PaletteId { raw_id: p[0] },
                palette_version: p[1],
                palette_entries: Seq::new(
                    ((p.len() - 2) / 5) as nat,
                    |k: int| palette_entry_at(p, 2 + 5 * k),
                ),
            },
        )
    }
}

impl PaletteDefinition {
    /// Decodes a Palette Definition from its whole payload.
    pub fn parse(p: &[u8]) -> (r: Option<PaletteDefinition>)
        ensures
            match r {
                Some(d) => palette_from(p@) == Some(d@),
                None => palette_from(p@) is None,
            },
    {
        if p.len() < 2 {
            return None;
        }
        let count = (p.len() - 2) / PALETTE_ENTRY_SIZE;
        let mut entries: Vec<PaletteEntry> = Vec::new();
        let mut k: usize = 0;
        while k < count
            invariant
                count == (p.len() - 2) / 5,
                k <= count,
                entries@ =~= Seq::new(k as nat, |j: int| palette_entry_at(p@, 2 + 5 * j)),
            decreases count - k,
        {
            let i = 2 + PALETTE_ENTRY_SIZE * k;
            let entry = PaletteEntry {
                id: ColorId { raw_id: p[i] },
                luma: p[i + 1],
                chroma_red: p[i + 2],
                chroma_blue: p[i + 3],
                alpha: p[i + 4],
            };
            entries.push(entry);
            k = k + 1;
        }
        let d = PaletteDefinition { id: PaletteId { raw_id: p[0] }, palette_version: p[1], palette_entries: entries };
        assert(d@.palette_entries =~= palette_from(p@).unwrap().palette_entries);
        Some(d)
    }
}

} // verus!
