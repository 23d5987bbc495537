use vstd::prelude::*;

use crate::PROTOCOL_VERSION;
use crate::error::NP_Error;
use crate::pointer::NP_PtrKinds;
use crate::pointer::with_addr;

verus! {

/// Address width of a buffer, fixed for its whole lifetime: `U32` addresses
/// are four bytes wide, `U16` addresses two.
#[derive(Debug, Copy, Clone, PartialEq, Eq, Structural)]
pub enum NP_Size {
    U32,
    U16,
}

/// Byte width of one encoded address.
pub open spec fn addr_width(size: NP_Size) -> nat {
    match size {
        NP_Size::U32 => 4,
        NP_Size::U16 => 2,
    }
}

/// Greatest addressable offset of a buffer of this width.
pub open spec fn max_offset(size: NP_Size) -> nat {
    match size {
        NP_Size::U32 => 0xFFFF_FFFF,
        NP_Size::U16 => 0xFFFF,
    }
}

/// Width tag held at byte 1: 0 for four-byte addresses, 1 for two-byte ones.
pub open spec fn width_tag(size: NP_Size) -> u8 {
    match size {
        NP_Size::U32 => 0,
        NP_Size::U16 => 1,
    }
}

/// Width recovered from the tag at byte 1 of wrapped storage: 0 means
/// four-byte addresses, anything else two-byte ones.
pub open spec fn size_of_tag(tag: u8) -> NP_Size {
    if tag == 0 {
        NP_Size::U32
    } else {
        NP_Size::U16
    }
}

/// Storage of a freshly constructed buffer: the version byte, the width tag,
/// then a zero-filled root pointer of the address width.
pub open spec fn fresh_storage(size: NP_Size) -> Seq<u8> {
    seq![PROTOCOL_VERSION, width_tag(size)] + Seq::new(addr_width(size), |i: int| 0u8)
}

/// Encoded byte footprint of a pointer kind at the given address width:
/// nothing for `Null`, one address for `Standard`, three addresses for
/// `MapItem`, two addresses plus a one-byte column index for `TableItem`,
/// two addresses plus a two-byte list index for `ListItem`.
pub open spec fn ptr_footprint(size: NP_Size, kind: NP_PtrKinds) -> nat {
    let w = addr_width(size);
    match kind {
        NP_PtrKinds::Null => 0,
        NP_PtrKinds::Standard { .. } => w,
        NP_PtrKinds::MapItem { .. } => 3 * w,
        NP_PtrKinds::TableItem { .. } => 2 * w + 1,
        NP_PtrKinds::ListItem { .. } => 2 * w + 2,
    }
}

/// Big-endian encoding of `val` truncated to the address width: four bytes
/// for `U32`, the low sixteen bits as two bytes for `U16`.
pub open spec fn be_bytes(val: u32, size: NP_Size) -> Seq<u8> {
    match size {
        NP_Size::U32 => seq![
            (val / 0x100_0000) as u8,
            ((val / 0x1_0000) % 0x100) as u8,
            ((val / 0x100) % 0x100) as u8,
            (val % 0x100) as u8,
        ],
        NP_Size::U16 => seq![((val / 0x100) % 0x100) as u8, (val % 0x100) as u8],
    }
}

/// `s` with the bytes at `[at, at + ins.len())` replaced by `ins`; length
/// and all other bytes kept.
pub open spec fn spliced(s: Seq<u8>, at: int, ins: Seq<u8>) -> Seq<u8> {
    s.subrange(0, at) + ins + s.subrange(at + ins.len(), s.len() as int)
}

const MAX_SIZE_LARGE: usize = 0xFFFF_FFFF;

const MAX_SIZE_SMALL: usize = 0xFFFF;

/// The arena buffer: a growable byte store and its address width. Offsets
/// 0 and 1 hold the version and width tags, offset 0 doubles as the "no
/// value" sentinel, and allocation only ever appends.
#[derive(Debug)]
pub struct NP_Memory {
    bytes: Vec<u8>,
    pub size: NP_Size,
}

impl View for NP_Memory {
    type V = Seq<u8>;

    closed spec fn view(&self) -> Seq<u8> {
        self.bytes@
    }
}

impl NP_Memory {
    /// The buffer's address width, as contracts speak of it.
    pub closed spec fn spec_size(&self) -> NP_Size {
        self.size
    }

    /// The storage never loses its two header tag bytes, so no allocation
    /// can start at the sentinel offset 0.
    pub open spec fn wf(&self) -> bool {
        self@.len() >= 2
    }

    /// Wraps previously exported bytes, recovering the address width from
    /// the tag at byte 1. No further header validation happens here.
    pub fn existing(bytes: Vec<u8>) -> (m: Self)
        requires
            bytes@.len() >= 2,
        ensures
            m@ == bytes@,
            m.spec_size() == size_of_tag(bytes@[1]),
            m.wf(),
    {
        let size: u8 = bytes[1];
        NP_Memory {
            bytes: bytes,
            size: if size == 0 {
                NP_Size::U32
            } else {
                NP_Size::U16
            },
        }
    }

    /// Greatest addressable offset under this buffer's width.
    pub fn addr_size(&self) -> (r: usize)
        ensures
            r == max_offset(self.spec_size()),
    {
        match &self.size {
            NP_Size::U32 => MAX_SIZE_LARGE,
            NP_Size::U16 => MAX_SIZE_SMALL,
        }
    }

    /// Builds a fresh buffer of the given width: the version byte, the width
    /// tag, then a zero-filled root pointer field of the address width.
    /// `capacity` is only a pre-allocation hint (1024 bytes when absent).
    pub fn new(capacity: Option<usize>, size: NP_Size) -> (m: Self)
        ensures
            m@ == fresh_storage(size),
            m.spec_size() == size,
            m.wf(),
    {
        let use_size: usize = match capacity {
            Some(x) => x,
            None => 1024,
        };
        let mut new_bytes: Vec<u8> = Vec::with_capacity(use_size);
        new_bytes.push(PROTOCOL_VERSION);
        match &size {
            NP_Size::U32 => {
                new_bytes.push(0);
                new_bytes.push(0);
                new_bytes.push(0);
                new_bytes.push(0);
                new_bytes.push(0);
            },
            NP_Size::U16 => {
                new_bytes.push(1);
                new_bytes.push(0);
                new_bytes.push(0);
            },
        }
        proof {
            assert(new_bytes@ =~= fresh_storage(size));
        }
        NP_Memory { bytes: new_bytes, size: size }
    }

    /// Bump allocation: appends `bytes` to the storage and returns the offset
    /// they start at, or `OutOfSpace` (leaving the storage untouched) when
    /// that offset plus the length would reach the maximum addressable
    /// offset of the buffer's width.
    pub fn malloc(&mut self, bytes: Vec<u8>) -> (r: Result<u32, NP_Error>)
        ensures
            final(self).spec_size() == old(self).spec_size(),
            match r {
                Ok(addr) => {
                    &&& old(self)@.len() + bytes@.len() < max_offset(old(self).spec_size())
                    &&& addr == old(self)@.len()
                    &&& final(self)@ == old(self)@ + bytes@
                },
                Err(e) => {
                    &&& e == NP_Error::OutOfSpace
                    &&& old(self)@.len() + bytes@.len() >= max_offset(old(self).spec_size())
                    &&& final(self)@ == old(self)@
                },
            },
    {
        let mut bytes = bytes;
        let location: usize = self.bytes.len();

        let max_sze: usize = match self.size {
            NP_Size::U16 => MAX_SIZE_SMALL,
            NP_Size::U32 => MAX_SIZE_LARGE,
        };

        // the new region would reach or pass the greatest addressable offset
        if location >= max_sze || bytes.len() >= max_sze - location {
            return Err(NP_Error::OutOfSpace);
        }

        self.bytes.append(&mut bytes);
        Ok(location as u32)
    }

    /// Read-only view of the whole storage.
    pub fn read_bytes(&self) -> (r: &Vec<u8>)
        ensures
            r@ == self@,
    {
        &self.bytes
    }

    /// Mutable view of the whole storage, for callers that fill allocated
    /// regions in place.
    pub fn write_bytes(&mut self) -> (r: &mut Vec<u8>)
        ensures
            r@ == old(self)@,
            final(self)@ == final(r)@,
            final(self).spec_size() == old(self).spec_size(),
    {
        &mut self.bytes
    }

    /// Encoded byte footprint of `ptr` under this buffer's address width.
    pub fn ptr_size(&self, ptr: &NP_PtrKinds) -> (r: u32)
        ensures
            r == ptr_footprint(self.spec_size(), *ptr),
    {
        match self.size {
            NP_Size::U32 => {
                match ptr {
                    NP_PtrKinds::Null => 0u32,
                    NP_PtrKinds::Standard { .. } => 4u32,
                    NP_PtrKinds::MapItem { .. } => 12u32,
                    NP_PtrKinds::TableItem { .. } => 9u32,
                    NP_PtrKinds::ListItem { .. } => 10u32,
                }
            },
            NP_Size::U16 => {
                match ptr {
                    NP_PtrKinds::Null => 0u32,
                    NP_PtrKinds::Standard { .. } => 2u32,
                    NP_PtrKinds::MapItem { .. } => 6u32,
                    NP_PtrKinds::TableItem { .. } => 5u32,
                    NP_PtrKinds::ListItem { .. } => 6u32,
                }
            },
        }
    }

    /// A zero-filled placeholder of exactly the footprint of `ptr`, for
    /// reserving a pointer slot before its real contents are known.
    pub fn blank_ptr_bytes(&self, ptr: &NP_PtrKinds) -> (r: Vec<u8>)
        ensures
            r@.len() == ptr_footprint(self.spec_size(), *ptr),
            forall|j: int| 0 <= j < r@.len() ==> r@[j] == 0,
    {
        let size: u32 = self.ptr_size(ptr);
        let mut empty_bytes: Vec<u8> = Vec::with_capacity(size as usize);
        let mut x: u32 = 0;
        while x < size
            invariant
                x <= size,
                empty_bytes@.len() == x,
                forall|j: int| 0 <= j < empty_bytes@.len() ==> empty_bytes@[j] == 0,
            decreases size - x,
        {
            empty_bytes.push(0);
            x = x + 1;
        }
        empty_bytes
    }

    /// Overwrites the address field at offset `address` with `val`,
    /// big-endian at this buffer's width, and returns `kind` with its `addr`
    /// field replaced by `val` and every other field kept. Fails with
    /// `InvalidAddress` (leaving the storage untouched) when the field would
    /// not lie fully inside the current storage.
    pub fn set_value_address(&mut self, address: u32, val: u32, kind: &NP_PtrKinds) -> (r: Result<
        NP_PtrKinds,
        NP_Error,
    >)
        ensures
            final(self).spec_size() == old(self).spec_size(),
            match r {
                Ok(k) => {
                    &&& address + addr_width(old(self).spec_size()) <= old(self)@.len()
                    &&& final(self)@ == spliced(
                        old(self)@,
                        address as int,
                        be_bytes(val, old(self).spec_size()),
                    )
                    &&& k == with_addr(*kind, val)
                },
                Err(e) => {
                    &&& e == NP_Error::InvalidAddress
                    &&& address + addr_width(old(self).spec_size()) > old(self)@.len()
                    &&& final(self)@ == old(self)@
                },
            },
    {
        let width: usize = match self.size {
            NP_Size::U32 => 4,
            NP_Size::U16 => 2,
        };
        let at: usize = address as usize;
        if self.bytes.len() < width || at > self.bytes.len() - width {
            return Err(NP_Error::InvalidAddress);
        }

        match self.size {
            NP_Size::U32 => {
                self.bytes.set(at, (val / 0x100_0000) as u8);
                self.bytes.set(at + 1, ((val / 0x1_0000) % 0x100) as u8);
                self.bytes.set(at + 2, ((val / 0x100) % 0x100) as u8);
                self.bytes.set(at + 3, (val % 0x100) as u8);
            },
            NP_Size::U16 => {
                self.bytes.set(at, ((val / 0x100) % 0x100) as u8);
                self.bytes.set(at + 1, (val % 0x100) as u8);
            },
        }
        proof {
            assert(self.bytes@ =~= spliced(
                old(self).bytes@,
                address as int,
                be_bytes(val, old(self).size),
            ));
        }

        Ok(
            match kind {
                NP_PtrKinds::Null => NP_PtrKinds::Null,
                NP_PtrKinds::Standard { .. } => NP_PtrKinds::Standard { addr: val },
                NP_PtrKinds::MapItem { key, next, .. } => NP_PtrKinds::MapItem {
                    addr: val,
                    key: *key,
                    next: *next,
                },
                NP_PtrKinds::TableItem { i, next, .. } => NP_PtrKinds::TableItem {
                    addr: val,
                    i: *i,
                    next: *next,
                },
                NP_PtrKinds::ListItem { i, next, .. } => NP_PtrKinds::ListItem {
                    addr: val,
                    i: *i,
                    next: *next,
                },
            },
        )
    }

    /// Copies the `N`-byte window starting at `address` out of the storage.
    /// Offset 0 is the "no value" sentinel and always reads as `None`, as
    /// does any window that passes the end of the storage.
    fn read_fixed<const N: usize>(&self, address: usize) -> (r: Option<[u8; N]>)
        ensures
            match r {
                Some(win) => address != 0 && address + N <= self@.len() && win@ == self@.subrange(
                    address as int,
                    address + N,
                ),
                None => address == 0 || address + N > self@.len(),
            },
    {
        // offset 0 is the "no value" sentinel
        if address == 0 {
            return None;
        }

        let len: usize = self.bytes.len();
        if len < N || address > len - N {
            return None;
        }

        let mut win: [u8; N] = [0u8; N];
        let mut x: usize = 0;
        while x < N
            invariant
                x <= N,
                address + N <= usize::MAX,
                address + N <= self@.len(),
                win@.len() == N,
                forall|j: int| 0 <= j < x ==> win@[j] == self@[address + j],
            decreases N - x,
        {
            win[x] = self.bytes[address + x];
            x = x + 1;
        }
        proof {
            assert(win@ =~= self@.subrange(address as int, address + N));
        }
        Some(win)
    }

    /// The byte at `address`, or `None` at the sentinel offset 0 or past the
    /// end of the storage.
    pub fn get_1_byte(&self, address: usize) -> (r: Option<u8>)
        ensures
            match r {
                Some(b) => address != 0 && address + 1 <= self@.len() && b == self@[address as int],
                None => address == 0 || address + 1 > self@.len(),
            },
    {
        // offset 0 is the "no value" sentinel
        if address == 0 {
            return None;
        }

        if address >= self.bytes.len() {
            return None;
        }

        Some(self.bytes[address])
    }

    /// The two-byte window at `address`, or `None` at the sentinel offset 0
    /// or where the window passes the end of the storage.
    pub fn get_2_bytes(&self, address: usize) -> (r: Option<[u8; 2]>)
        ensures
            match r {
                Some(win) => address != 0 && address + 2 <= self@.len() && win@ == self@.subrange(
                    address as int,
                    address + 2,
                ),
                None => address == 0 || address + 2 > self@.len(),
            },
    {
        self.read_fixed::<2>(address)
    }

    /// The four-byte window at `address`, or `None` at the sentinel offset 0
    /// or where the window passes the end of the storage.
    pub fn get_4_bytes(&self, address: usize) -> (r: Option<[u8; 4]>)
        ensures
            match r {
                Some(win) => address != 0 && address + 4 <= self@.len() && win@ == self@.subrange(
                    address as int,
                    address + 4,
                ),
                None => address == 0 || address + 4 > self@.len(),
            },
    {
        self.read_fixed::<4>(address)
    }

    /// The eight-byte window at `address`, or `None` at the sentinel offset
    /// 0 or where the window passes the end of the storage.
    pub fn get_8_bytes(&self, address: usize) -> (r: Option<[u8; 8]>)
        ensures
            match r {
                Some(win) => address != 0 && address + 8 <= self@.len() && win@ == self@.subrange(
                    address as int,
                    address + 8,
                ),
                None => address == 0 || address + 8 > self@.len(),
            },
    {
        self.read_fixed::<8>(address)
    }

    /// The sixteen-byte window at `address`, or `None` at the sentinel
    /// offset 0 or where the window passes the end of the storage.
    pub fn get_16_bytes(&self, address: usize) -> (r: Option<[u8; 16]>)
        ensures
            match r {
                Some(win) => address != 0 && address + 16 <= self@.len() && win@ == self@.subrange(
                    address as int,
                    address + 16,
                ),
                None => address == 0 || address + 16 > self@.len(),
            },
    {
        self.read_fixed::<16>(address)
    }

    /// The thirty-two-byte window at `address`, or `None` at the sentinel
    /// offset 0 or where the window passes the end of the storage.
    pub fn get_32_bytes(&self, address: usize) -> (r: Option<[u8; 32]>)
        ensures
            match r {
                Some(win) => address != 0 && address + 32 <= self@.len() && win@ == self@.subrange(
                    address as int,
                    address + 32,
                ),
                None => address == 0 || address + 32 > self@.len(),
            },
    {
        self.read_fixed::<32>(address)
    }

    /// Consumes the buffer and hands out its raw storage.
    pub fn dump(self) -> (r: Vec<u8>)
        ensures
            r@ == self@,
    {
        self.bytes
    }
}

/// A freshly constructed buffer, exported at once, is exactly the two
/// header tag bytes followed by an all-zero root pointer field: its length
/// is `2 + addr_width(size)`, every byte past the tags is zero, and
/// re-wrapping the exported bytes recovers the same width.
pub proof fn lemma_fresh_export_round_trip(size: NP_Size)
    ensures
        fresh_storage(size).len() == 2 + addr_width(size),
        forall|j: int| 2 <= j < fresh_storage(size).len() ==> fresh_storage(size)[j] == 0,
        size_of_tag(fresh_storage(size)[1]) == size,
{
}

/// Write/read round trip of the bump allocator: appending `b` to storage
/// `s` places it at offset `s.len()`, which is never the sentinel 0, and
/// the window of `b.len()` bytes there is exactly `b` again.
pub proof fn lemma_malloc_read_round_trip(s: Seq<u8>, b: Seq<u8>)
    requires
        s.len() >= 2,
    ensures
        s.len() != 0,
        s.len() + b.len() <= (s + b).len(),
        (s + b).subrange(s.len() as int, (s.len() + b.len()) as int) == b,
{
    assert((s + b).subrange(s.len() as int, (s.len() + b.len()) as int) =~= b);
}

/// Patch/read round trip: splicing the big-endian encoding of `val` into
/// storage `s` at offset `at` keeps the length, and the window of the
/// address width read back at `at` is exactly that encoding; every byte
/// outside the field is kept.
pub proof fn lemma_patch_then_read(s: Seq<u8>, at: int, val: u32, size: NP_Size)
    requires
        1 <= at,
        at + addr_width(size) <= s.len(),
    ensures
        spliced(s, at, be_bytes(val, size)).len() == s.len(),
        spliced(s, at, be_bytes(val, size)).subrange(at, at + addr_width(size)) == be_bytes(
            val,
            size,
        ),
        forall|j: int|
            0 <= j < s.len() && !(at <= j < at + addr_width(size)) ==> spliced(
                s,
                at,
                be_bytes(val, size),
            )[j] == s[j],
{
    assert(spliced(s, at, be_bytes(val, size)).subrange(at, at + addr_width(size)) =~= be_bytes(
        val,
        size,
    ));
}

} // verus!
