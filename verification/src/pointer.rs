use vstd::prelude::*;

verus! {

/// Shape of a pointer-bearing slot embedded in the buffer. The `addr` field
/// of every data-carrying variant is the address the slot points at; `key`
/// and `next` are further addresses, `i` is a bounded item index (one byte
/// for table columns, two bytes for list positions).
#[derive(Debug, Copy, Clone, PartialEq, Eq, Structural)]
pub enum NP_PtrKinds {
    Null,
    Standard { addr: u32 },
    MapItem { addr: u32, key: u32, next: u32 },
    TableItem { addr: u32, i: u8, next: u32 },
    ListItem { addr: u32, i: u16, next: u32 },
}

/// The same kind with its `addr` field replaced by `val`; every other field
/// is kept as it was.
pub open spec fn with_addr(kind: NP_PtrKinds, val: u32) -> NP_PtrKinds {
    match kind {
        NP_PtrKinds::Null => NP_PtrKinds::Null,
        NP_PtrKinds::Standard { .. } => NP_PtrKinds::Standard { addr: val },
        NP_PtrKinds::MapItem { key, next, .. } => NP_PtrKinds::MapItem {
            addr: val,
            key: key,
            next: next,
        },
        NP_PtrKinds::TableItem { i, next, .. } => NP_PtrKinds::TableItem {
            addr: val,
            i: i,
            next: next,
        },
        NP_PtrKinds::ListItem { i, next, .. } => NP_PtrKinds::ListItem {
            addr: val,
            i: i,
            next: next,
        },
    }
}

/// Patching a kind keeps every non-address field: `with_addr` leaves `key`,
/// `i` and `next` unchanged and only rewrites `addr`.
pub proof fn lemma_with_addr_keeps_fields(kind: NP_PtrKinds, val: u32)
    ensures
        match kind {
            NP_PtrKinds::Null => with_addr(kind, val) == NP_PtrKinds::Null,
            NP_PtrKinds::Standard { .. } => with_addr(kind, val) == (NP_PtrKinds::Standard {
                addr: val,
            }),
            NP_PtrKinds::MapItem { key, next, .. } => with_addr(kind, val) == (NP_PtrKinds::MapItem {
                addr: val,
                key: key,
                next: next,
            }),
            NP_PtrKinds::TableItem { i, next, .. } => with_addr(kind, val)
                == (NP_PtrKinds::TableItem { addr: val, i: i, next: next }),
            NP_PtrKinds::ListItem { i, next, .. } => with_addr(kind, val) == (NP_PtrKinds::ListItem {
                addr: val,
                i: i,
                next: next,
            }),
        },
{
}

} // verus!
