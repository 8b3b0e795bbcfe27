//! What holds of flattening for every executable.
use crate::image::{
    end_address, extraction, file_bytes, layout, qualifies, selected, zeros, ExtractError,
    FlatModel, ImageModel, Segment,
};
use vstd::prelude::*;

verus! {

/// A segment can be placed on its own: its bytes lie inside the file and
/// it ends inside the 64-bit address space.
pub open spec fn fits(s: Segment, file: Seq<u8>) -> bool {
    &&& s.offset + s.file_size <= file.len()
    &&& end_address(s) <= u64::MAX
}

/// An image in which no segment qualifies flattens to the empty buffer at
/// address zero.
pub proof fn law_nothing_selected(image: ImageModel, file: Seq<u8>)
    requires
        selected(image).len() == 0,
    ensures
        extraction(image, file) == Ok::<FlatModel, ExtractError>(
            FlatModel { bytes: Seq::empty(), start_address: 0 },
        ),
{
}

/// An image with exactly one qualifying segment flattens to that
/// segment's file bytes, loaded at the segment's address.
pub proof fn law_single_segment(image: ImageModel, file: Seq<u8>)
    requires
        selected(image).len() == 1,
        selected(image)[0].file_size <= isize::MAX,
        fits(selected(image)[0], file),
        selected(image)[0].address <= u32::MAX,
    ensures
        extraction(image, file) == Ok::<FlatModel, ExtractError>(
            FlatModel {
                bytes: file_bytes(selected(image)[0], file),
                start_address: selected(image)[0].address as int,
            },
        ),
        file_bytes(selected(image)[0], file).len() == selected(image)[0].file_size,
{
    let segs = selected(image);
    reveal_with_fuel(layout, 2);
    assert(segs.drop_last().len() == 0);
    assert(Seq::<u8>::empty() + zeros(0) + file_bytes(segs[0], file) =~= file_bytes(
        segs[0],
        file,
    ));
}

/// An image with exactly two qualifying segments, the second starting
/// `gap` bytes after the first one ends, flattens to the first segment's
/// bytes, `gap` zero bytes, and the second segment's bytes.
pub proof fn law_two_segments(image: ImageModel, file: Seq<u8>, gap: int)
    requires
        selected(image).len() == 2,
        fits(selected(image)[0], file),
        fits(selected(image)[1], file),
        selected(image)[0].address <= u32::MAX,
        gap >= 0,
        selected(image)[1].address == end_address(selected(image)[0]) + gap,
        selected(image)[0].file_size + gap + selected(image)[1].file_size <= isize::MAX,
    ensures
        extraction(image, file) == Ok::<FlatModel, ExtractError>(
            FlatModel {
                bytes: file_bytes(selected(image)[0], file) + zeros(gap) + file_bytes(
                    selected(image)[1],
                    file,
                ),
                start_address: selected(image)[0].address as int,
            },
        ),
        extraction(image, file).unwrap().bytes.len() == selected(image)[0].file_size + gap
            + selected(image)[1].file_size,
        forall|i: int|
            selected(image)[0].file_size <= i < selected(image)[0].file_size + gap
                ==> #[trigger] extraction(image, file).unwrap().bytes[i] == 0,
        forall|i: int|
            0 <= i < selected(image)[0].file_size ==> #[trigger] extraction(
                image,
                file,
            ).unwrap().bytes[i] == file[selected(image)[0].offset + i],
        forall|i: int|
            0 <= i < selected(image)[1].file_size ==> extraction(
                image,
                file,
            ).unwrap().bytes[selected(image)[0].file_size + gap + i]
                == #[trigger] file[selected(image)[1].offset + i],
{
    let segs = selected(image);
    let first = segs[0];
    let second = segs[1];
    reveal_with_fuel(layout, 3);
    assert(segs.drop_last().len() == 1);
    assert(segs.drop_last().last() == first);
    assert(segs.drop_last().drop_last().len() == 0);
    assert(Seq::<u8>::empty() + zeros(0) + file_bytes(first, file) =~= file_bytes(first, file));
    assert(layout(segs.drop_last(), file) == Ok::<Seq<u8>, ExtractError>(file_bytes(first, file)));
}

/// Two qualifying segments whose address ranges touch are joined with no
/// padding between them.
pub proof fn law_contiguous_segments(image: ImageModel, file: Seq<u8>)
    requires
        selected(image).len() == 2,
        fits(selected(image)[0], file),
        fits(selected(image)[1], file),
        selected(image)[0].address <= u32::MAX,
        selected(image)[1].address == end_address(selected(image)[0]),
        selected(image)[0].file_size + selected(image)[1].file_size <= isize::MAX,
    ensures
        extraction(image, file) == Ok::<FlatModel, ExtractError>(
            FlatModel {
                bytes: file_bytes(selected(image)[0], file) + file_bytes(selected(image)[1], file),
                start_address: selected(image)[0].address as int,
            },
        ),
{
    law_two_segments(image, file, 0);
    assert(file_bytes(selected(image)[0], file) + zeros(0) + file_bytes(selected(image)[1], file)
        =~= file_bytes(selected(image)[0], file) + file_bytes(selected(image)[1], file));
}

/// A segment that does not qualify leaves no trace: adding it anywhere in
/// the segment table changes neither the selected segments nor the result
/// of flattening.
pub proof fn law_unqualified_ignored(image: ImageModel, file: Seq<u8>, at: int, s: Segment)
    requires
        0 <= at <= image.segments.len(),
        !qualifies(s, image.header_size),
    ensures
        selected(ImageModel { segments: image.segments.insert(at, s), ..image }) == selected(image),
        extraction(ImageModel { segments: image.segments.insert(at, s), ..image }, file)
            == extraction(image, file),
{
    let pred = |x: Segment| qualifies(x, image.header_size);
    let left = image.segments.subrange(0, at);
    let right = image.segments.subrange(at, image.segments.len() as int);
    let one = seq![s];
    assert(image.segments.insert(at, s) =~= left + one + right);
    assert(image.segments =~= left + right);
    assert(one.filter(pred) =~= Seq::<Segment>::empty()) by {
        reveal_with_fuel(Seq::filter, 2);
        assert(one.drop_last().len() == 0);
    }
    Seq::filter_distributes_over_add(left + one, right, pred);
    Seq::filter_distributes_over_add(left, one, pred);
    Seq::filter_distributes_over_add(left, right, pred);
    assert(left.filter(pred) + Seq::<Segment>::empty() =~= left.filter(pred));
}

/// Whether address `a` lies inside segment `s`.
pub open spec fn covers(s: Segment, a: int) -> bool {
    s.address <= a < end_address(s)
}

/// The byte that segment `s` places at address `a`.
pub open spec fn segment_byte(s: Segment, file: Seq<u8>, a: int) -> u8 {
    file[s.offset + (a - s.address)]
}

/// Whether no segment of `segs` covers address `a`.
pub open spec fn uncovered(segs: Seq<Segment>, a: int) -> bool {
    forall|k: int| 0 <= k < segs.len() ==> !covers(#[trigger] segs[k], a)
}

/// The byte of `bytes` that stands for address `a`, when the first byte
/// stands for address `base`.
pub open spec fn byte_at(bytes: Seq<u8>, base: int, a: int) -> u8 {
    bytes[a - base]
}

/// The layout of placeable segments, address by address.
pub proof fn lemma_layout_by_address(segs: Seq<Segment>, file: Seq<u8>)
    requires
        segs.len() > 0,
        layout(segs, file) is Ok,
    ensures
        layout(segs, file).unwrap().len() == end_address(segs.last()) - segs[0].address,
        forall|k: int|
            0 <= k < segs.len() ==> segs[0].address <= (#[trigger] segs[k]).address && end_address(
                segs[k],
            ) <= end_address(segs.last()),
        forall|k: int, a: int|
            0 <= k < segs.len() && #[trigger] covers(segs[k], a) ==> byte_at(
                layout(segs, file).unwrap(),
                segs[0].address as int,
                a,
            ) == segment_byte(segs[k], file, a),
        forall|a: int|
            segs[0].address <= a < end_address(segs.last()) && uncovered(segs, a) ==> #[trigger] byte_at(
                layout(segs, file).unwrap(),
                segs[0].address as int,
                a,
            ) == 0,
    decreases segs.len(),
{
    let s = segs.last();
    let before = segs.drop_last();
    let bytes = layout(segs, file).unwrap();
    let base = segs[0].address as int;
    if before.len() == 0 {
        assert(bytes =~= file_bytes(s, file));
        assert forall|a: int| base <= a < end_address(s) && uncovered(segs, a) implies #[trigger] byte_at(
            bytes,
            base,
            a,
        ) == 0 by {
            assert(covers(segs[0], a));
        }
    } else {
        lemma_layout_by_address(before, file);
        let prefix = layout(before, file).unwrap();
        let gap = s.address - end_address(before.last());
        assert(bytes == prefix + zeros(gap) + file_bytes(s, file));
        assert(before[0] == segs[0]);
        assert forall|k: int| 0 <= k < segs.len() implies base <= (#[trigger] segs[k]).address
            && end_address(segs[k]) <= end_address(s) by {
            if k < before.len() {
                assert(before[k] == segs[k]);
            }
        }
        assert forall|k: int, a: int| 0 <= k < segs.len() && #[trigger] covers(segs[k], a) implies byte_at(
            bytes,
            base,
            a,
        ) == segment_byte(segs[k], file, a) by {
            if k < before.len() {
                assert(before[k] == segs[k]);
                assert(covers(before[k], a));
                assert(byte_at(prefix, base, a) == segment_byte(before[k], file, a));
            }
        }
        assert forall|a: int| base <= a < end_address(s) && uncovered(segs, a) implies #[trigger] byte_at(
            bytes,
            base,
            a,
        ) == 0 by {
            if a < end_address(before.last()) {
                assert forall|k: int| 0 <= k < before.len() implies !covers(
                    #[trigger] before[k],
                    a,
                ) by {
                    assert(before[k] == segs[k]);
                }
                assert(byte_at(prefix, base, a) == 0);
            } else if a >= s.address {
                assert(covers(segs[segs.len() - 1], a));
            }
        }
    }
}

/// The flat image, address by address: it spans from the first selected
/// segment's address to the last one's end, the selected segments follow
/// one another without overlap, every address inside a selected segment
/// holds that segment's byte from the file, and every other address holds
/// zero.
pub proof fn law_flat_image_by_address(image: ImageModel, file: Seq<u8>)
    requires
        selected(image).len() > 0,
        extraction(image, file) is Ok,
    ensures
        ({
            let segs = selected(image);
            let flat = extraction(image, file).unwrap();
            &&& flat.start_address == segs[0].address
            &&& flat.bytes.len() == end_address(segs.last()) - flat.start_address
            &&& forall|k: int|
                0 <= k < segs.len() - 1 ==> end_address(#[trigger] segs[k]) <= segs[k + 1].address
            &&& forall|k: int, a: int|
                0 <= k < segs.len() && #[trigger] covers(segs[k], a) ==> byte_at(
                    flat.bytes,
                    flat.start_address,
                    a,
                ) == segment_byte(segs[k], file, a)
            &&& forall|a: int|
                flat.start_address <= a < end_address(segs.last()) && uncovered(segs, a)
                    ==> #[trigger] byte_at(flat.bytes, flat.start_address, a) == 0
        }),
{
    let segs = selected(image);
    lemma_layout_by_address(segs, file);
    assert forall|k: int| 0 <= k < segs.len() - 1 implies end_address(#[trigger] segs[k])
        <= segs[k + 1].address by {
        lemma_layout_ordered(segs, file, k);
    }
}

/// In a layout that succeeds, each segment ends where the next begins
/// or before.
pub proof fn lemma_layout_ordered(segs: Seq<Segment>, file: Seq<u8>, k: int)
    requires
        layout(segs, file) is Ok,
        0 <= k < segs.len() - 1,
    ensures
        end_address(segs[k]) <= segs[k + 1].address,
    decreases segs.len(),
{
    let before = segs.drop_last();
    if k + 1 < before.len() {
        lemma_layout_ordered(before, file, k);
    }
}

} // verus!
