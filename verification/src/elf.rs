//! From the bytes of an ELF file to a flat firmware image.
use crate::error::UtilError;
use crate::image::{extract, extraction, ElfImage, ExtractError, FlatModel, ImageModel, Segment};
use vstd::prelude::*;

verus! {

/// What `goblin::elf::Elf::parse` makes of a file's bytes: the header size
/// and the program headers of the executable it reads, or `None` where it
/// rejects the bytes.
pub uninterp spec fn parsed_image(bytes: Seq<u8>) -> Option<ImageModel>;

/// Calls `goblin::elf::Elf::parse` and copies out the header size and, for
/// each program header in table order, its type, readability, file offset,
/// file size and physical address. Trusted: the result is a function of
/// the bytes alone, named by [`parsed_image`].
#[verifier::external_body]
fn parse_image(bytes: &[u8]) -> (r: Result<ElfImage, goblin::error::Error>)
    ensures
        match r {
            Ok(image) => parsed_image(bytes@) == Some(image@),
            Err(_) => parsed_image(bytes@) is None,
        },
{
    let elf = goblin::elf::Elf::parse(bytes)?;
    let segments = elf.program_headers.iter().map(
        |ph| Segment {
            kind: ph.p_type,
            readable: ph.is_read(),
            offset: ph.p_offset,
            file_size: ph.p_filesz,
            address: ph.p_paddr,
        },
    ).collect();
    Ok(ElfImage { header_size: elf.header.e_ehsize, segments })
}

/// Builds `goblin::error::Error::Malformed` around a message. Trusted, and
/// nothing is claimed of the value.
#[verifier::external_body]
fn malformed(reason: &str) -> goblin::error::Error {
    goblin::error::Error::Malformed(reason.to_string())
}

/// Returns the contiguous image of an ELF file's loadable segments, with
/// zeros between segments that do not touch, and its load address.
///
/// `buffer` holds the whole file. The call fails, with
/// [`UtilError::Elf`], exactly when the bytes do not parse or the parsed
/// executable cannot be flattened.
pub fn elf_to_bin(buffer: &[u8]) -> (r: Result<(Vec<u8>, u32), UtilError>)
    ensures
        match r {
            Ok((data, start)) => parsed_image(buffer@) matches Some(image) && extraction(
                image,
                buffer@,
            ) == Ok::<FlatModel, ExtractError>(
                FlatModel { bytes: data@, start_address: start as int },
            ),
            Err(e) => e is Elf && (parsed_image(buffer@) matches Some(image) ==> extraction(
                image,
                buffer@,
            ) is Err),
        },
{
    match parse_image(buffer) {
        Err(e) => Err(UtilError::Elf(e)),
        Ok(image) => match extract(&image, buffer) {
            Ok(flat) => Ok((flat.bytes, flat.start_address)),
            Err(e) => Err(UtilError::Elf(malformed(e.describe()))),
        },
    }
}

} // verus!
