use crate::error::HeaderError;
use vstd::prelude::*;
use vstd::slice::slice_subrange;

verus! {

/// The bytes that a read of `length` bytes at `offset` yields, or the failure
/// of that read where the image ends too early.
pub open spec fn bytes_at(image: Seq<u8>, offset: int, length: int) -> Result<
    Seq<u8>,
    HeaderError,
> {
    if offset + length <= image.len() {
        Ok(image.subrange(offset, offset + length))
    } else {
        Err(HeaderError::TruncatedRead)
    }
}

/// Reads `length` bytes at `offset`. A short read is a failure.
pub fn read_at(image: &[u8], offset: usize, length: usize) -> (region: Result<&[u8], HeaderError>)
    ensures
        match bytes_at(image@, offset as int, length as int) {
            Ok(expected) => region matches Ok(bytes) && bytes@ == expected,
            Err(e) => region matches Err(failure) && failure == e,
        },
{
    if offset <= image.len() && length <= image.len() - offset {
        Ok(slice_subrange(image, offset, offset + length))
    } else {
        Err(HeaderError::TruncatedRead)
    }
}

} // verus!
