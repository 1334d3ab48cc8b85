//! The message of a fault, kept in a region of memory that outlasts a
//! reset: how much of it is written, and what is read back after the reset.

use crate::text::str_from_utf8;
use vstd::prelude::*;
use vstd::slice::slice_subrange;
use vstd::string::StringSliceAdditionalSpecFns;
use vstd::utf8::valid_utf8;

verus! {

/// The word that marks a region that holds a message.
pub const PANIC_MAGIC: u32 = 0x0FAC_ADE0;

/// Bytes of the region that come before the message: the mark and the
/// length of the message.
pub const PANIC_HEADER_LEN: usize = 8;

/// How many bytes of a piece of `len` bytes are written at `offset` into
/// room for `capacity` bytes: all that fit.
pub open spec fn writable_len(capacity: nat, offset: nat, len: nat) -> nat {
    if offset >= capacity {
        0
    } else if len < capacity - offset {
        len
    } else {
        (capacity - offset) as nat
    }
}

/// Where a piece of the message goes.
#[derive(Clone, Copy, Debug, PartialEq, Eq, Structural)]
pub struct Piece {
    /// Where in the message the piece begins.
    pub at: usize,
    /// How many bytes of the piece are kept.
    pub count: usize,
}

/// The writer of the message: it remembers how much has been written.
#[derive(Clone, Copy, Debug, PartialEq, Eq, Structural)]
pub struct Ram {
    /// Bytes of the message written so far.
    pub offset: usize,
}

impl Ram {
    /// Makes room for a piece of `len` bytes in a region that has room for
    /// `capacity` bytes of message. Returns where the piece goes and how
    /// much of it is kept; the message is that much longer afterwards. Once
    /// the room is used up, nothing is returned and nothing is to be
    /// written, not even the header.
    pub fn write_str(&mut self, capacity: usize, len: usize) -> (piece: Option<Piece>)
        ensures
            piece == if old(self).offset >= capacity {
                None
            } else {
                Some(
                    Piece {
                        at: old(self).offset,
                        count: writable_len(
                            capacity as nat,
                            old(self).offset as nat,
                            len as nat,
                        ) as usize,
                    },
                )
            },
            final(self).offset == old(self).offset + writable_len(
                capacity as nat,
                old(self).offset as nat,
                len as nat,
            ),
            old(self).offset <= capacity ==> final(self).offset <= capacity,
    {
        // This happens where a message is written in several pieces.
        if self.offset >= capacity {
            return None;
        }
        // The size of the piece, or the room that is left, whichever is less.
        let at = self.offset;
        let room = capacity - at;
        let count = if len < room {
            len
        } else {
            room
        };
        self.offset = at + count;
        Some(Piece { at, count })
    }
}

/// The length of the message that a region of `region_len` bytes holds,
/// given the two words of its header: the region holds a message where the
/// mark is there and the length is within the room for the message.
pub open spec fn stored_message_len(region_len: nat, magic: u32, len: nat) -> Option<nat> {
    if magic == PANIC_MAGIC && len + PANIC_HEADER_LEN <= region_len {
        Some(len)
    } else {
        None
    }
}

/// Reads the header of the region: the length of the message that it
/// holds, if it holds one.
pub fn get_panic_message_len(region_len: usize, magic: u32, len: usize) -> (stored: Option<usize>)
    requires
        region_len >= PANIC_HEADER_LEN,
    ensures
        stored is Some <==> stored_message_len(region_len as nat, magic, len as nat) is Some,
        stored matches Some(n) ==> n == len,
{
    if magic != PANIC_MAGIC {
        return None;
    }
    let max_len_str = region_len - PANIC_HEADER_LEN;
    if len > max_len_str {
        return None;
    }
    Some(len)
}

/// The length of the longest prefix of `bytes` that is valid UTF-8.
pub open spec fn valid_prefix_len(bytes: Seq<u8>) -> nat
    decreases bytes.len(),
{
    if valid_utf8(bytes) || bytes.len() == 0 {
        bytes.len()
    } else {
        valid_prefix_len(bytes.drop_last())
    }
}

/// The prefix of `valid_prefix_len` bytes is valid UTF-8, and no longer
/// prefix is.
pub proof fn lemma_valid_prefix_len(bytes: Seq<u8>)
    ensures
        valid_prefix_len(bytes) <= bytes.len(),
        valid_utf8(bytes.take(valid_prefix_len(bytes) as int)),
        forall|k: int|
            valid_prefix_len(bytes) < k <= bytes.len() ==> !valid_utf8(#[trigger] bytes.take(k)),
    decreases bytes.len(),
{
    if valid_utf8(bytes) || bytes.len() == 0 {
        assert(bytes.take(bytes.len() as int) =~= bytes);
        assert(valid_utf8(Seq::<u8>::empty()));
    } else {
        let shorter = bytes.drop_last();
        lemma_valid_prefix_len(shorter);
        let n = valid_prefix_len(shorter);
        assert(shorter.take(n as int) =~= bytes.take(n as int));
        assert forall|k: int| n < k <= bytes.len() implies !valid_utf8(
            #[trigger] bytes.take(k),
        ) by {
            if k == bytes.len() {
                assert(bytes.take(k) =~= bytes);
            } else {
                assert(shorter.take(k) =~= bytes.take(k));
            }
        }
    }
}

/// The message that was read back, as text: all of it where it is valid
/// UTF-8, and else its longest prefix that is. A message that was cut in
/// the middle of a character loses that character.
pub fn get_message(bytes: &[u8]) -> (message: &str)
    ensures
        message.spec_bytes() == bytes@.take(valid_prefix_len(bytes@) as int),
{
    proof {
        lemma_valid_prefix_len(bytes@);
    }
    match str_from_utf8(bytes) {
        Ok(message) => {
            assert(bytes@.take(bytes@.len() as int) =~= bytes@);
            message
        },
        Err(valid_up_to) => {
            let valid = slice_subrange(bytes, 0, valid_up_to);
            assert(valid@ == bytes@.take(valid_up_to as int));
            assert(valid_up_to == valid_prefix_len(bytes@));
            match str_from_utf8(valid) {
                Ok(message) => message,
                Err(_) => {
                    assert(false);
                    ""
                },
            }
        },
    }
}

} // verus!
