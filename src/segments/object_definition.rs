use vstd::prelude::*;

use super::fields::{be16, be24, flag_hi, flag_lo, read_flag_hi, read_flag_lo, read_u16, read_u24};
use super::shared::{ColorId, ObjectId};
use super::PGSParseError;

verus! {

/// A compressed subtitle bitmap.
#[derive(Debug, Clone, PartialEq, Eq)]
pub struct ObjectDefinition {
    pub id: ObjectId,
    pub version: u8,
    pub is_first_in_sequence: bool,
    pub is_last_in_sequence: bool,
    /// Declared size of the object data: the four bytes of width and
    /// height plus the run-length encoded bitmap.
    pub data_size: u32,
    pub width: u16,
    pub height: u16,
    pub rle_data: Vec<u8>,
}

/// What an `ObjectDefinition` holds, with its bitmap bytes as a sequence.
pub ghost struct ObjectDefinitionView {
    pub id: ObjectId,
    pub version: u8,
    pub is_first_in_sequence: bool,
    pub is_last_in_sequence: bool,
    pub data_size: u32,
    pub width: u16,
    pub height: u16,
    pub rle_data: Seq<u8>,
}

impl View for ObjectDefinition {
    type V = ObjectDefinitionView;

    open spec fn view(&self) -> ObjectDefinitionView {
        ObjectDefinitionView {
            id: self.id,
            version: self.version,
            is_first_in_sequence: self.is_first_in_sequence,
            is_last_in_sequence: self.is_last_in_sequence,
            data_size: self.data_size,
            width: self.width,
            height: self.height,
            rle_data: self.rle_data@,
        }
    }
}

/// The object that the payload `p` holds: its fixed fields, then the
/// `data_size - 4` bytes of its bitmap; bytes after those are ignored.
pub open spec fn object_from(p: Seq<u8>) -> Option<ObjectDefinitionView> {
    if p.len() < 11 || be24(p, 4) < 4 || p.len() < 7 + be24(p, 4) {
        None
    } else {
        Some(
            ObjectDefinitionView {
                id: ObjectId { raw_id: be16(p, 0) },
                version: p[2],
                is_first_in_sequence: flag_hi(p[3]),
                is_last_in_sequence: flag_lo(p[3]),
                data_size: be24(p, 4),
                width: be16(p, 7),
                height: be16(p, 9),
                rle_data: p.subrange(11, 7 + be24(p, 4)),
            },
        )
    }
}

/// One code at the start of run-length encoded bytes.
pub enum RleCode {
    /// No byte is left.
    Exhausted,
    /// The pair `0x00 0x00`, which marks the end of a bitmap line.
    LineEnd,
    /// An escape sequence that is cut short.
    Truncated,
    /// `len` pixels of `color`, encoded in `size` bytes.
    Run { size: nat, len: nat, color: u8 },
}

/// The code that the bytes `s` start with.
pub open spec fn rle_code(s: Seq<u8>) -> RleCode {
    if s.len() == 0 {
        RleCode::Exhausted
    } else if s[0] != 0 {
        RleCode::Run { size: 1, len: 1, color: s[0] }
    } else if s.len() < 2 {
        RleCode::Truncated
    } else if s[1] == 0 {
        RleCode::LineEnd
    } else {
        let flags = s[1] / 64;
        let low = (s[1] % 64) as nat;
        if flags == 0 {
            RleCode::Run { size: 2, len: low, color: 0 }
        } else if s.len() < 3 {
            RleCode::Truncated
        } else if flags == 1 {
            RleCode::Run { size: 3, len: low * 256 + s[2] as nat, color: 0 }
        } else if flags == 2 {
            RleCode::Run { size: 3, len: low, color: s[2] }
        } else if s.len() < 4 {
            RleCode::Truncated
        } else {
            RleCode::Run { size: 4, len: low * 256 + s[2] as nat, color: s[3] }
        }
    }
}

/// The pixels that the run-length encoded bytes `s` expand to, and whether the
/// expansion ended cleanly (`true`) or on a truncated escape (`false`).
/// With `stop_at_line_end` the pair `0x00 0x00` ends the bitmap; otherwise it
/// only separates lines and expansion goes on after it.
pub open spec fn rle_decode(s: Seq<u8>, stop_at_line_end: bool) -> (Seq<u8>, bool)
    decreases s.len(),
{
    match rle_code(s) {
        RleCode::Exhausted => (seq![], true),
        RleCode::Truncated => (seq![], false),
        RleCode::LineEnd => if stop_at_line_end {
            (seq![], true)
        } else {
            rle_decode(s.skip(2), stop_at_line_end)
        },
        RleCode::Run { size, len, color } => {
            let rest = rle_decode(s.skip(size as int), stop_at_line_end);
            (Seq::new(len, |_i: int| color) + rest.0, rest.1)
        },
    }
}

/// The sum of the run lengths of the codes of `s`, up to the point where
/// expansion stops.
pub open spec fn rle_run_total(s: Seq<u8>, stop_at_line_end: bool) -> nat
    decreases s.len(),
{
    match rle_code(s) {
        RleCode::Run { size, len, color } => len + rle_run_total(s.skip(size as int), stop_at_line_end),
        RleCode::LineEnd => if stop_at_line_end {
            0
        } else {
            rle_run_total(s.skip(2), stop_at_line_end)
        },
        _ => 0,
    }
}

/// The number of pixels of an expansion is the sum of the run lengths of the
/// codes that it went through.
pub proof fn lemma_pixel_count_is_run_total(s: Seq<u8>, stop_at_line_end: bool)
    ensures
        rle_decode(s, stop_at_line_end).0.len() == rle_run_total(s, stop_at_line_end),
    decreases s.len(),
{
    match rle_code(s) {
        RleCode::Run { size, len, color } => {
            lemma_pixel_count_is_run_total(s.skip(size as int), stop_at_line_end);
        },
        RleCode::LineEnd => {
            if !stop_at_line_end {
                lemma_pixel_count_is_run_total(s.skip(2), stop_at_line_end);
            }
        },
        _ => {},
    }
}

/// A code read from the bytes, as `RleCode` describes it.
enum Code {
    Exhausted,
    LineEnd,
    Truncated,
    Run { size: usize, len: u16, color: u8 },
}

impl Code {
    spec fn view(self) -> RleCode {
        match self {
            Code::Exhausted => RleCode::Exhausted,
            Code::LineEnd => RleCode::LineEnd,
            Code::Truncated => RleCode::Truncated,
            Code::Run { size, len, color } => RleCode::Run { size: size as nat, len: len as nat, color },
        }
    }
}

/// Reads the code that starts at `pos`.
fn read_code(data: &[u8], pos: usize) -> (r: Code)
    requires
        pos <= data@.len(),
    ensures
        r.view() == rle_code(data@.skip(pos as int)),
        r matches Code::Run { size, .. } ==> 0 < size <= data@.len() - pos,
        r is LineEnd ==> 2 <= data@.len() - pos,
{
    let ghost s = data@.skip(pos as int);
    let left = data.len() - pos;
    if left == 0 {
        return Code::Exhausted;
    }
    let b1 = data[pos];
    if b1 != 0 {
        return Code::Run { size: 1, len: 1, color: b1 };
    }
    if left < 2 {
        return Code::Truncated;
    }
    let b2 = data[pos + 1];
    if b2 == 0 {
        return Code::LineEnd;
    }
    let flags: u8 = b2 >> 6;
    let low: u8 = b2 & 0x3f;
    assert(flags == b2 / 64 && low == b2 % 64) by (bit_vector)
        requires
            flags == b2 >> 6,
            low == b2 & 0x3f,
    ;
    if flags == 0 {
        return Code::Run { size: 2, len: low as u16, color: 0 };
    }
    if left < 3 {
        return Code::Truncated;
    }
    let b3 = data[pos + 2];
    let long_len: u16 = (low as u16) << 8 | b3 as u16;
    assert(long_len == low as u16 * 256 + b3 as u16) by (bit_vector)
        requires
            long_len == (low as u16) << 8 | b3 as u16,
            low < 64,
    ;
    if flags == 1 {
        Code::Run { size: 3, len: long_len, color: 0 }
    } else if flags == 2 {
        Code::Run { size: 3, len: low as u16, color: b3 }
    } else if left < 4 {
        Code::Truncated
    } else {
        Code::Run { size: 4, len: long_len, color: data[pos + 3] }
    }
}

/// For an object whose declared size is four more than its bitmap bytes, the
/// pixels that `decoded_iter` yields are as many as the run lengths of the
/// bitmap's codes add up to.
pub proof fn lemma_object_pixel_count(d: ObjectDefinitionView)
    requires
        d.data_size == 4 + d.rle_data.len(),
    ensures
        rle_decode(d.rle_data, true).0.len() == rle_run_total(d.rle_data, true),
{
    lemma_pixel_count_is_run_total(d.rle_data, true);
}

impl ObjectDefinition {
    /// Decodes an Object Definition from its whole payload.
    pub fn parse(p: &[u8]) -> (r: Option<ObjectDefinition>)
        ensures
            match r {
                Some(d) => object_from(p@) == Some(d@),
                None => object_from(p@) is None,
            },
    {
        if p.len() < 11 {
            return None;
        }
        let data_size = read_u24(p, 4);
        if data_size < 4 || p.len() - 7 < data_size as usize {
            return None;
        }
        let end = 7 + data_size as usize;
        let mut rle_data: Vec<u8> = Vec::new();
        let mut i: usize = 11;
        while i < end
            invariant
                11 <= i <= end <= p.len(),
                rle_data@ =~= p@.subrange(11, i as int),
            decreases end - i,
        {
            rle_data.push(p[i]);
            i = i + 1;
        }
        Some(
            ObjectDefinition {
                id: ObjectId { raw_id: read_u16(p, 0) },
                version: p[2],
                is_first_in_sequence: read_flag_hi(p[3]),
                is_last_in_sequence: read_flag_lo(p[3]),
                data_size,
                width: read_u16(p, 7),
                height: read_u16(p, 9),
                rle_data,
            },
        )
    }

    /// Expands the bitmap lazily; the pair `0x00 0x00` ends it.
    pub fn decoded_iter(&self) -> (r: RLEIterator<'_>)
        ensures
            r.wf(),
            r.outcome() == rle_decode(self.rle_data@, true),
    {
        RLEIterator::from_rle_data(self.rle_data.as_slice(), true)
    }

    /// Expands the bitmap lazily; with `stop_at_line_end` false the pair
    /// `0x00 0x00` only separates lines.
    pub fn decoded_iter_with(&self, stop_at_line_end: bool) -> (r: RLEIterator<'_>)
        ensures
            r.wf(),
            r.outcome() == rle_decode(self.rle_data@, stop_at_line_end),
    {
        RLEIterator::from_rle_data(self.rle_data.as_slice(), stop_at_line_end)
    }
}

/// A lazy, single-pass expansion of run-length encoded bytes into pixels.
/// It holds at most one pending run.
pub struct RLEIterator<'a> {
    data: &'a [u8],
    pos: usize,
    run_left: u16,
    run_color: u8,
    finished: bool,
    stop_at_line_end: bool,
}

impl<'a> RLEIterator<'a> {
    pub closed spec fn wf(&self) -> bool {
        self.pos <= self.data@.len()
    }

    /// The pixels that are still to come, and whether the expansion ends
    /// cleanly after them.
    pub closed spec fn outcome(&self) -> (Seq<u8>, bool) {
        if self.finished {
            (seq![], true)
        } else {
            let rest = rle_decode(self.data@.skip(self.pos as int), self.stop_at_line_end);
            (Seq::new(self.run_left as nat, |_i: int| self.run_color) + rest.0, rest.1)
        }
    }

    pub fn from_rle_data(rle_data: &'a [u8], stop_at_line_end: bool) -> (r: Self)
        ensures
            r.wf(),
            r.outcome() == rle_decode(rle_data@, stop_at_line_end),
    {
        let r = RLEIterator {
            data: rle_data,
            pos: 0,
            run_left: 0,
            run_color: 0,
            finished: false,
            stop_at_line_end,
        };
        assert(r.data@.skip(0) =~= rle_data@);
        assert(r.outcome().0 =~= rle_decode(rle_data@, stop_at_line_end).0);
        r
    }

    /// The next pixel; `None` once the expansion has ended cleanly; an error
    /// once, where an escape sequence is cut short, and `None` after it.
    pub fn next(&mut self) -> (r: Option<Result<ColorId, PGSParseError>>)
        requires
            old(self).wf(),
        ensures
            final(self).wf(),
            old(self).outcome().0.len() > 0 ==> {
                &&& r matches Some(Ok(c))
                &&& c.raw_id == old(self).outcome().0[0]
                &&& final(self).outcome() == (old(self).outcome().0.drop_first(), old(self).outcome().1)
            },
            old(self).outcome().0.len() == 0 && old(self).outcome().1 ==> {
                &&& r is None
                &&& final(self).outcome() == old(self).outcome()
            },
            old(self).outcome().0.len() == 0 && !old(self).outcome().1 ==> {
                &&& r == Some(Err::<ColorId, PGSParseError>(PGSParseError::TruncatedRLEEscape))
                &&& final(self).outcome() == (Seq::<u8>::empty(), true)
            },
    {
        if self.finished {
            return None;
        }
        if self.run_left > 0 {
            let ghost rest = rle_decode(self.data@.skip(self.pos as int), self.stop_at_line_end);
            let ghost before = Seq::new(self.run_left as nat, |_i: int| self.run_color);
            self.run_left = self.run_left - 1;
            let ghost after = Seq::new(self.run_left as nat, |_i: int| self.run_color);
            assert((before + rest.0).drop_first() =~= after + rest.0);
            return Some(Ok(ColorId { raw_id: self.run_color }));
        }
        assert(self.outcome().0 =~= rle_decode(self.data@.skip(self.pos as int), self.stop_at_line_end).0);
        let data_len = self.data.len();
        loop
            invariant
                self.wf(),
                !self.finished,
                self.run_left == 0,
                self.data == old(self).data,
                self.data@.len() == data_len,
                self.stop_at_line_end == old(self).stop_at_line_end,
                old(self).outcome() == rle_decode(self.data@.skip(self.pos as int), self.stop_at_line_end),
            decreases self.data@.len() - self.pos,
        {
            let ghost s = self.data@.skip(self.pos as int);
            match read_code(self.data, self.pos) {
                Code::Exhausted => {
                    self.finished = true;
                    return None;
                },
                Code::Truncated => {
                    self.finished = true;
                    return Some(Err(PGSParseError::TruncatedRLEEscape));
                },
                Code::LineEnd => {
                    if self.stop_at_line_end {
                        self.finished = true;
                        return None;
                    }
                    self.pos = self.pos + 2;
                    assert(s.skip(2) =~= self.data@.skip(self.pos as int));
                },
                Code::Run { size, len, color } => {
                    self.pos = self.pos + size;
                    assert(s.skip(size as int) =~= self.data@.skip(self.pos as int));
                    let ghost rest = rle_decode(self.data@.skip(self.pos as int), self.stop_at_line_end);
                    if len > 0 {
                        self.run_left = len - 1;
                        self.run_color = color;
                        assert(Seq::new(len as nat, |_i: int| color) + rest.0 =~= seq![color] + (
                            Seq::new(self.run_left as nat, |_i: int| color) + rest.0));
                        return Some(Ok(ColorId { raw_id: color }));
                    }
                    assert(Seq::new(0, |_i: int| color) + rest.0 =~= rest.0);
                },
            }
        }
    }

    /// Expands all that is left at once: the pixels, or the error where an
    /// escape sequence is cut short.
    pub fn collect_pixels(&mut self) -> (r: Result<Vec<ColorId>, PGSParseError>)
        requires
            old(self).wf(),
        ensures
            final(self).wf(),
            final(self).outcome() == (Seq::<u8>::empty(), true),
            old(self).outcome().1 ==> (r matches Ok(v) && v@.map_values(|c: ColorId| c.raw_id) == old(self).outcome().0),
            !old(self).outcome().1 ==> r == Err::<Vec<ColorId>, PGSParseError>(PGSParseError::TruncatedRLEEscape),
    {
        let mut pixels: Vec<ColorId> = Vec::new();
        loop
            invariant
                self.wf(),
                self.outcome().1 == old(self).outcome().1,
                pixels@.map_values(|c: ColorId| c.raw_id) + self.outcome().0 == old(self).outcome().0,
            decreases self.outcome().0.len(),
        {
            let ghost before = self.outcome();
            match self.next() {
                None => {
                    assert(pixels@.map_values(|c: ColorId| c.raw_id) =~= old(self).outcome().0);
                    return Ok(pixels);
                },
                Some(Ok(c)) => {
                    pixels.push(c);
                    assert(pixels@.map_values(|c: ColorId| c.raw_id) + self.outcome().0 =~= old(self).outcome().0) by {
                        assert(before.0 =~= seq![c.raw_id] + before.0.drop_first());
                    }
                },
                Some(Err(e)) => {
                    return Err(e);
                },
            }
        }
    }
}

} // verus!
