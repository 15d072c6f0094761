//! Marshaling between native buffers and the guest module's linear memory.
//!
//! The guest runtime, not the bridge, owns and bounds the linear memory;
//! the bridge only borrows byte ranges named by an offset and a length.
//! `GuestMemory` holds the bytes of that region as plain values, so every
//! copy in or out is bounds-checked and verified here; the surrounding
//! binary converts between this type and whatever view the engine exposes.

use vstd::prelude::*;
use vstd::slice::{slice_subrange, slice_to_vec};
use vstd::utf8::{decode_utf8, valid_utf8};

verus! {

/// Everything that can go wrong while marshaling guest memory.
#[derive(Clone, Copy, Debug, PartialEq, Eq, Structural)]
pub enum BridgeError {
    /// Bytes routed through the logging path were not valid UTF-8.
    InvalidText,
    /// An offset and length named a range outside the guest's memory.
    MemoryFault,
}

/// The diagnostic text for a marshaling error, written to the local
/// diagnostic sink before the process terminates.
pub open spec fn spec_bridge_error_text(e: BridgeError) -> Seq<char> {
    match e {
        BridgeError::InvalidText => "guest logged text that is not valid UTF-8"@,
        BridgeError::MemoryFault => "guest memory range out of bounds"@,
    }
}

impl BridgeError {
    /// The diagnostic text identifying the violated invariant.
    pub fn message(&self) -> (s: &'static str)
        ensures
            s@ == spec_bridge_error_text(*self),
    {
        match self {
            BridgeError::InvalidText => "guest logged text that is not valid UTF-8",
            BridgeError::MemoryFault => "guest memory range out of bounds",
        }
    }
}

/// The byte-addressable linear memory of the guest module.
pub struct GuestMemory {
    bytes: Vec<u8>,
}

impl View for GuestMemory {
    type V = Seq<u8>;

    closed spec fn view(&self) -> Seq<u8> {
        self.bytes@
    }
}

/// Relies on `String::from_utf8`: it succeeds exactly on valid UTF-8 input
/// and yields the character sequence those bytes encode.
#[verifier::external_body]
fn string_from_utf8(bytes: Vec<u8>) -> (r: Option<String>)
    ensures
        r is Some <==> valid_utf8(bytes@),
        r matches Some(s) ==> s@ == decode_utf8(bytes@),
{
    match String::from_utf8(bytes) {
        Ok(s) => Some(s),
        Err(_) => None,
    }
}

impl GuestMemory {
    /// A fresh region of `size` zeroed bytes.
    pub fn new(size: usize) -> (m: GuestMemory)
        ensures
            m@ == Seq::new(size as nat, |i: int| 0u8),
    {
        let mut bytes: Vec<u8> = Vec::new();
        let mut i: usize = 0;
        while i < size
            invariant
                i <= size,
                bytes@ == Seq::new(i as nat, |j: int| 0u8),
            decreases size - i,
        {
            bytes.push(0u8);
            proof {
                assert(bytes@ =~= Seq::new((i + 1) as nat, |j: int| 0u8));
            }
            i = i + 1;
        }
        GuestMemory { bytes }
    }

    /// A region holding exactly the given bytes, as copied out of the
    /// engine's view of the guest's linear memory.
    pub fn from_bytes(bytes: Vec<u8>) -> (m: GuestMemory)
        ensures
            m@ == bytes@,
    {
        GuestMemory { bytes }
    }

    /// Number of bytes in the region.
    pub fn size(&self) -> (n: usize)
        ensures
            n == self@.len(),
    {
        self.bytes.len()
    }

    /// Copy `length` bytes starting at `region_offset` out of guest memory
    /// into a fresh native buffer. A range that leaves the region is the
    /// guest's fault and is reported, never read.
    pub fn read_guest(&self, region_offset: usize, length: usize) -> (r: Result<
        Vec<u8>,
        BridgeError,
    >)
        ensures
            region_offset + length <= self@.len() ==> (r matches Ok(v) && v@ == self@.subrange(
                region_offset as int,
                region_offset + length,
            )),
            region_offset + length > self@.len() ==> r == Err::<Vec<u8>, BridgeError>(
                BridgeError::MemoryFault,
            ),
    {
        if length > self.bytes.len() || region_offset > self.bytes.len() - length {
            return Err(BridgeError::MemoryFault);
        }
        let s = slice_subrange(self.bytes.as_slice(), region_offset, region_offset + length);
        Ok(slice_to_vec(s))
    }

    /// Copy `data` into guest memory starting at `region_offset`,
    /// byte for byte. A range that leaves the region is reported and the
    /// memory stays untouched.
    pub fn write_guest(&mut self, region_offset: usize, data: &[u8]) -> (r: Result<
        (),
        BridgeError,
    >)
        ensures
            region_offset + data@.len() <= old(self)@.len() ==> (r is Ok && final(self)@ == old(
                self,
            )@.subrange(0, region_offset as int) + data@ + old(self)@.subrange(
                region_offset + data@.len(),
                old(self)@.len() as int,
            )),
            region_offset + data@.len() > old(self)@.len() ==> (r == Err::<(), BridgeError>(
                BridgeError::MemoryFault,
            ) && final(self)@ == old(self)@),
            final(self)@.len() == old(self)@.len(),
    {
        if data.len() > self.bytes.len() || region_offset > self.bytes.len() - data.len() {
            return Err(BridgeError::MemoryFault);
        }
        let ghost orig = self.bytes@;
        let mut i: usize = 0;
        while i < data.len()
            invariant
                i <= data@.len(),
                region_offset + data@.len() <= orig.len(),
                region_offset + data@.len() <= usize::MAX,
                self.bytes@.len() == orig.len(),
                forall|j: int| 0 <= j < i ==> self.bytes@[region_offset + j] == data@[j],
                forall|j: int|
                    0 <= j < orig.len() && !(region_offset <= j < region_offset + i)
                        ==> self.bytes@[j] == orig[j],
            decreases data@.len() - i,
        {
            let b = data[i];
            self.bytes[region_offset + i] = b;
            i = i + 1;
        }
        proof {
            assert(self.bytes@ =~= orig.subrange(0, region_offset as int) + data@ + orig.subrange(
                region_offset + data@.len(),
                orig.len() as int,
            ));
        }
        Ok(())
    }

    /// Copy `length` bytes starting at `region_offset` out of guest memory
    /// and decode them as UTF-8 text for the logging path. A well-behaved
    /// guest never emits invalid text here, so a decode failure is
    /// reported as a fault of its own.
    pub fn read_guest_text(&self, region_offset: usize, length: usize) -> (r: Result<
        String,
        BridgeError,
    >)
        ensures
            region_offset + length > self@.len() ==> r == Err::<String, BridgeError>(
                BridgeError::MemoryFault,
            ),
            region_offset + length <= self@.len() && valid_utf8(
                self@.subrange(region_offset as int, region_offset + length),
            ) ==> (r matches Ok(s) && s@ == decode_utf8(
                self@.subrange(region_offset as int, region_offset + length),
            )),
            region_offset + length <= self@.len() && !valid_utf8(
                self@.subrange(region_offset as int, region_offset + length),
            ) ==> r == Err::<String, BridgeError>(BridgeError::InvalidText),
    {
        match self.read_guest(region_offset, length) {
            Ok(raw) => match string_from_utf8(raw) {
                Some(text) => Ok(text),
                None => Err(BridgeError::InvalidText),
            },
            Err(e) => Err(e),
        }
    }

    /// Place a reply obtained from the channel into the guest's reply
    /// region and hand back its length, so the guest can read exactly that
    /// many bytes. The guest guarantees the region's capacity; a reply
    /// that does not fit the memory is reported, never truncated.
    pub fn deliver_reply(&mut self, reply_offset: usize, reply: &[u8]) -> (r: Result<
        u32,
        BridgeError,
    >)
        requires
            reply@.len() <= u32::MAX,
        ensures
            reply_offset + reply@.len() <= old(self)@.len() ==> (r matches Ok(n) && n
                == reply@.len() && final(self)@ == old(self)@.subrange(0, reply_offset as int)
                + reply@ + old(self)@.subrange(
                reply_offset + reply@.len(),
                old(self)@.len() as int,
            )),
            reply_offset + reply@.len() > old(self)@.len() ==> (r == Err::<u32, BridgeError>(
                BridgeError::MemoryFault,
            ) && final(self)@ == old(self)@),
    {
        match self.write_guest(reply_offset, reply) {
            Ok(()) => Ok(reply.len() as u32),
            Err(e) => Err(e),
        }
    }
}

} // verus!
