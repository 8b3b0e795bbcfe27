//! Flattening the loadable segments of an executable into one contiguous
//! byte stream.
use vstd::prelude::*;

verus! {

/// Program header type of a loadable segment.
pub const PT_LOAD: u32 = 1;

/// One entry of an executable's segment table.
#[derive(Clone, Copy, Debug, PartialEq, Eq, Structural)]
pub struct Segment {
    /// Type tag of the segment.
    pub kind: u32,
    /// Whether the segment's permissions include reading.
    pub readable: bool,
    /// Offset of the segment's bytes in the file.
    pub offset: u64,
    /// Number of bytes the segment occupies in the file.
    pub file_size: u64,
    /// Physical address the segment is loaded at.
    pub address: u64,
}

/// The part of a parsed executable that flattening reads.
#[derive(Clone, Debug)]
pub struct ElfImage {
    /// Size of the file header; segments that start before it are skipped.
    pub header_size: u16,
    /// The segment table, in file order.
    pub segments: Vec<Segment>,
}

/// Mathematical model of an [`ElfImage`].
pub struct ImageModel {
    pub header_size: int,
    pub segments: Seq<Segment>,
}

impl View for ElfImage {
    type V = ImageModel;

    open spec fn view(&self) -> ImageModel {
        ImageModel { header_size: self.header_size as int, segments: self.segments@ }
    }
}

/// A contiguous firmware image and the address it is loaded at.
#[derive(Clone, Debug)]
pub struct FlatImage {
    pub bytes: Vec<u8>,
    pub start_address: u32,
}

/// Mathematical model of a [`FlatImage`].
pub struct FlatModel {
    pub bytes: Seq<u8>,
    pub start_address: int,
}

impl View for FlatImage {
    type V = FlatModel;

    open spec fn view(&self) -> FlatModel {
        FlatModel { bytes: self.bytes@, start_address: self.start_address as int }
    }
}

/// Why an executable cannot be flattened.
#[derive(Clone, Copy, Debug, PartialEq, Eq, Structural)]
pub enum ExtractError {
    /// A selected segment's bytes lie partly outside the file.
    SegmentOutsideFile,
    /// A selected segment ends beyond the 64-bit address space, or the
    /// image starts beyond the 32-bit one.
    AddressOverflow,
    /// A selected segment starts before the previous one ends.
    SegmentsOutOfOrder,
    /// The flat image would be longer than a buffer can be: more than
    /// `isize::MAX` bytes.
    ImageTooLarge,
}

impl ExtractError {
    /// A sentence that says what is wrong with the executable.
    pub fn describe(&self) -> (r: &'static str)
        ensures
            r@ == match *self {
                ExtractError::SegmentOutsideFile => "segment data lies outside the file"@,
                ExtractError::AddressOverflow => "load address out of range"@,
                ExtractError::SegmentsOutOfOrder => "segments overlap or are out of address order"@,
                ExtractError::ImageTooLarge => "flat image too large"@,
            },
    {
        match self {
            ExtractError::SegmentOutsideFile => "segment data lies outside the file",
            ExtractError::AddressOverflow => "load address out of range",
            ExtractError::SegmentsOutOfOrder => "segments overlap or are out of address order",
            ExtractError::ImageTooLarge => "flat image too large",
        }
    }
}

/// A segment takes part in the flat image when it is loadable, non-empty,
/// readable, and placed after the file header.
pub open spec fn qualifies(s: Segment, header_size: int) -> bool {
    &&& s.kind == PT_LOAD
    &&& s.file_size > 0
    &&& s.offset >= header_size
    &&& s.readable
}

/// The segments that take part in the flat image, in table order.
pub open spec fn selected(image: ImageModel) -> Seq<Segment> {
    image.segments.filter(|s: Segment| qualifies(s, image.header_size))
}

/// First address after a segment.
pub open spec fn end_address(s: Segment) -> int {
    s.address + s.file_size
}

/// The bytes of a segment as they stand in the file.
pub open spec fn file_bytes(s: Segment, file: Seq<u8>) -> Seq<u8> {
    file.subrange(s.offset as int, s.offset + s.file_size)
}

/// A run of `n` zero bytes.
pub open spec fn zeros(n: int) -> Seq<u8> {
    Seq::new(n as nat, |i: int| 0u8)
}

/// The bytes of the flat image made of `segs`: each segment's file bytes,
/// every gap between one segment's end and the next one's start filled
/// with zeros. The first segment that cannot be placed decides the error.
pub open spec fn layout(segs: Seq<Segment>, file: Seq<u8>) -> Result<Seq<u8>, ExtractError>
    decreases segs.len(),
{
    if segs.len() == 0 {
        Ok(Seq::empty())
    } else {
        let s = segs.last();
        let before = segs.drop_last();
        match layout(before, file) {
            Err(e) => Err(e),
            Ok(prefix) => {
                let gap = if before.len() == 0 {
                    0
                } else {
                    s.address - end_address(before.last())
                };
                if s.offset + s.file_size > file.len() {
                    Err(ExtractError::SegmentOutsideFile)
                } else if end_address(s) > u64::MAX {
                    Err(ExtractError::AddressOverflow)
                } else if gap < 0 {
                    Err(ExtractError::SegmentsOutOfOrder)
                } else if prefix.len() + gap + s.file_size > isize::MAX {
                    Err(ExtractError::ImageTooLarge)
                } else {
                    Ok(prefix + zeros(gap) + file_bytes(s, file))
                }
            },
        }
    }
}

/// Load address of the flat image made of `segs`: that of the first
/// segment, or zero when there is none.
pub open spec fn start_of(segs: Seq<Segment>) -> int {
    if segs.len() == 0 {
        0
    } else {
        segs[0].address as int
    }
}

/// What flattening `image`, whose file holds `file`, yields.
pub open spec fn extraction(image: ImageModel, file: Seq<u8>) -> Result<FlatModel, ExtractError> {
    let segs = selected(image);
    match layout(segs, file) {
        Err(e) => Err(e),
        Ok(bytes) => if start_of(segs) > u32::MAX {
            Err(ExtractError::AddressOverflow)
        } else {
            Ok(FlatModel { bytes, start_address: start_of(segs) })
        },
    }
}

/// Whether `s` takes part in the flat image.
pub fn segment_qualifies(s: &Segment, header_size: u16) -> (r: bool)
    ensures
        r == qualifies(*s, header_size as int),
{
    s.kind == PT_LOAD && s.file_size > 0 && s.offset >= header_size as u64 && s.readable
}

/// The segments selected among the first `i` of the table.
pub open spec fn selected_up_to(image: ImageModel, i: int) -> Seq<Segment> {
    selected(ImageModel { segments: image.segments.take(i), ..image })
}

/// Selecting from one more segment keeps what was selected and adds the
/// new segment exactly when it qualifies.
pub proof fn lemma_selected_step(image: ImageModel, i: int)
    requires
        0 <= i < image.segments.len(),
    ensures
        selected_up_to(image, i + 1) == if qualifies(image.segments[i], image.header_size) {
            selected_up_to(image, i).push(image.segments[i])
        } else {
            selected_up_to(image, i)
        },
{
    reveal(Seq::filter);
    assert(image.segments.take(i + 1).drop_last() =~= image.segments.take(i));
}

/// Once a segment cannot be placed, the segments after it change nothing.
pub proof fn lemma_failure_stays(image: ImageModel, file: Seq<u8>, i: int, j: int)
    requires
        0 <= i <= j <= image.segments.len(),
        layout(selected_up_to(image, i), file) is Err,
    ensures
        layout(selected_up_to(image, j), file) == layout(selected_up_to(image, i), file),
    decreases j - i,
{
    if i < j {
        lemma_failure_stays(image, file, i, j - 1);
        lemma_selected_step(image, j - 1);
        let sel = selected_up_to(image, j - 1);
        assert(sel.push(image.segments[j - 1]).drop_last() =~= sel);
    }
}

/// Flattens the selected segments of `image` into one buffer. `file` is
/// the whole file the image was parsed from.
pub fn extract(image: &ElfImage, file: &[u8]) -> (r: Result<FlatImage, ExtractError>)
    ensures
        match r {
            Ok(flat) => extraction(image@, file@) == Ok::<FlatModel, ExtractError>(flat@),
            Err(e) => extraction(image@, file@) == Err::<FlatModel, ExtractError>(e),
        },
{
    let mut data: Vec<u8> = Vec::new();
    let mut seen: bool = false;
    let mut start: u64 = 0;
    let mut end: u64 = 0;
    let n: usize = image.segments.len();
    let mut i: usize = 0;
    proof {
        assert(image@.segments.take(n as int) =~= image@.segments);
    }
    while i < n
        invariant
            n == image.segments.len(),
            0 <= i <= n,
            selected_up_to(image@, n as int) == selected(image@),
            layout(selected_up_to(image@, i as int), file@) == Ok::<Seq<u8>, ExtractError>(data@),
            seen == (selected_up_to(image@, i as int).len() > 0),
            start == start_of(selected_up_to(image@, i as int)),
            seen ==> end == end_address(selected_up_to(image@, i as int).last()),
        decreases n - i,
    {
        let s: Segment = image.segments[i];
        proof {
            let ghost sel = selected_up_to(image@, i as int);
            lemma_selected_step(image@, i as int);
            assert(sel.push(s).drop_last() =~= sel);
        }
        if segment_qualifies(&s, image.header_size) {
            let room: u128 = file.len() as u128;
            let stop: u128 = s.offset as u128 + s.file_size as u128;
            let top: u128 = s.address as u128 + s.file_size as u128;
            let gap: u64 = if seen && s.address >= end {
                s.address - end
            } else {
                0
            };
            let total: u128 = data.len() as u128 + gap as u128 + s.file_size as u128;
            let failure: Option<ExtractError> = if stop > room {
                Some(ExtractError::SegmentOutsideFile)
            } else if top > u64::MAX as u128 {
                Some(ExtractError::AddressOverflow)
            } else if seen && s.address < end {
                Some(ExtractError::SegmentsOutOfOrder)
            } else if total > isize::MAX as u128 {
                Some(ExtractError::ImageTooLarge)
            } else {
                None
            };
            if let Some(e) = failure {
                proof {
                    lemma_failure_stays(image@, file@, i as int + 1, n as int);
                }
                return Err(e);
            }
            let ghost before = data@;
            data.resize(data.len() + gap as usize, 0u8);
            assert(data@ =~= before + zeros(gap as int));
            let ghost padded = data@;
            let from: usize = s.offset as usize;
            let to: usize = stop as usize;
            data.extend_from_slice(vstd::slice::slice_subrange(file, from, to));
            assert(data@ =~= padded + file_bytes(s, file@));
            end = s.address + s.file_size;
            if !seen {
                start = s.address;
            }
            seen = true;
        }
        i += 1;
    }
    if start > u32::MAX as u64 {
        Err(ExtractError::AddressOverflow)
    } else {
        Ok(FlatImage { bytes: data, start_address: start as u32 })
    }
}

} // verus!
