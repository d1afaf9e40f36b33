//! The check itself: one bounded read, then one comparison.

use vstd::prelude::*;

use crate::error::MagicNumberCheckError;
use crate::error::Mismatch;
use crate::error::WrongMagicNumber;
use crate::stream::lemma_advance_moves_only_the_cursor;
use crate::stream::ByteStream;
use crate::stream::StreamError;

verus! {

/// Compares the bytes read from a stream with the magic number they should
/// be, over their whole length.
///
/// Succeeds where the two are equal. Otherwise the failure carries both
/// sequences, unchanged: the magic number as what was expected, `read` as
/// what was found.
pub fn compare_magic_number(read: Vec<u8>, magic_number: Vec<u8>) -> (outcome: Result<
    (),
    WrongMagicNumber,
>)
    requires
        read@.len() == magic_number@.len(),
    ensures
        outcome is Ok <==> read@ == magic_number@,
        outcome matches Err(detail) ==> detail@ == (Mismatch {
            expected: magic_number@,
            read: read@,
        }),
{
    if read == magic_number {
        assert(read@ =~= magic_number@);
        Ok(())
    } else {
        Err(WrongMagicNumber::new(magic_number, read))
    }
}

/// Checks that `reader` continues with the bytes of `magic_number`.
///
/// One read of exactly as many bytes as the magic number has is made, and
/// the cursor moves by what that read consumed, whatever the outcome. The
/// check succeeds where the bytes read are the magic number. It fails with
/// [`MagicNumberCheckError::IoError`] where the stream is too short to
/// deliver them, and with [`MagicNumberCheckError::MagicNumber`], holding the
/// magic number and the bytes read, where they were delivered and differ. An
/// empty magic number is found in every stream, and nothing is consumed for
/// it.
pub fn check_magic_number(reader: &mut ByteStream, magic_number: Vec<u8>) -> (outcome: Result<
    (),
    MagicNumberCheckError,
>)
    ensures
        final(reader)@ == old(reader)@.advance(magic_number@.len()),
        final(reader)@.contents() == old(reader)@.contents(),
        outcome is Ok <==> {
            &&& old(reader)@.has_next(magic_number@.len())
            &&& old(reader)@.next(magic_number@.len()) == magic_number@
        },
        (outcome matches Err(MagicNumberCheckError::IoError(_))) <==> !old(reader)@.has_next(
            magic_number@.len(),
        ),
        (outcome matches Err(MagicNumberCheckError::MagicNumber(_))) <==> {
            &&& old(reader)@.has_next(magic_number@.len())
            &&& old(reader)@.next(magic_number@.len()) != magic_number@
        },
        outcome matches Err(MagicNumberCheckError::IoError(error)) ==> error
            == StreamError::UnexpectedEof,
        outcome matches Err(MagicNumberCheckError::MagicNumber(detail)) ==> detail@ == (Mismatch {
            expected: magic_number@,
            read: old(reader)@.next(magic_number@.len()),
        }),
        magic_number@.len() == 0 ==> outcome is Ok && final(reader)@ == old(reader)@,
{
    let read: Vec<u8> = match reader.read_exact(magic_number.len()) {
        Ok(bytes) => bytes,
        Err(error) => {
            return Err(MagicNumberCheckError::from(error));
        },
    };
    proof {
        if magic_number@.len() == 0 {
            lemma_advance_moves_only_the_cursor(old(reader)@, 0, 0);
            assert(read@ =~= magic_number@);
        }
    }
    match compare_magic_number(read, magic_number) {
        Ok(()) => Ok(()),
        Err(detail) => Err(MagicNumberCheckError::from(detail)),
    }
}

} // verus!
