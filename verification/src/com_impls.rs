//! Interface identity and the smart handle of the interface-object runtime.
//!
//! Every capability is named by a 128-bit identifier ([`SlangUuid`]) compared
//! field-wise, never ordered or hashed.  A boundary call reports one of three
//! status codes: [`S_OK`], [`E_INVALIDARG`] or [`E_NOINTERFACE`].

use vstd::prelude::*;

pub mod blob;

pub use blob::ObjectStore;
pub use blob::VecBlob;

verus! {

/// Status code of a successful boundary call.
pub const S_OK: i32 = 0;

/// Status code reporting that an invalid argument was passed to a boundary call.
pub const E_INVALIDARG: i32 = 0x8007005;

/// Status code reporting that the requested capability is not supported.
/// The bit pattern is 0x80004002 read as a signed 32-bit value.
pub const E_NOINTERFACE: i32 = -0x7fffbffe;

/// A 128-bit capability identifier with four sub-fields (32/16/16/8x8 bits).
///
/// One such constant identifies each capability an interface object can be
/// asked for; equality is field-wise.
#[derive(Clone, Copy, Debug)]
pub struct SlangUuid {
    pub data1: u32,
    pub data2: u16,
    pub data3: u16,
    pub data4: [u8; 8],
}

/// The base capability identifier: every interface object answers a query
/// for it with itself (00000000-0000-0000-C000-000000000046).
pub open spec fn is_iunknown_iid(u: SlangUuid) -> bool {
    u.data1 == 0 && u.data2 == 0 && u.data3 == 0 && u.data4@ == seq![
        0xc0u8,
        0u8,
        0u8,
        0u8,
        0u8,
        0u8,
        0u8,
        0x46u8,
    ]
}

/// Builds the base capability identifier.
pub fn iunknown_iid() -> (r: SlangUuid)
    ensures
        is_iunknown_iid(r),
{
    let r = SlangUuid { data1: 0, data2: 0, data3: 0, data4: [0xc0, 0, 0, 0, 0, 0, 0, 0x46] };
    proof {
        assert(r.data4@ =~= seq![0xc0u8, 0u8, 0u8, 0u8, 0u8, 0u8, 0u8, 0x46u8]);
    }
    r
}

/// Field-wise equality of two capability identifiers.
pub open spec fn uuid_eq(a: SlangUuid, b: SlangUuid) -> bool {
    a.data1 == b.data1 && a.data2 == b.data2 && a.data3 == b.data3 && a.data4@ == b.data4@
}

/// Compares two capability identifiers for equality, field by field.
pub fn eq_guid(a: &SlangUuid, b: &SlangUuid) -> (r: bool)
    ensures
        r == uuid_eq(*a, *b),
{
    let head = a.data1 == b.data1 && a.data2 == b.data2 && a.data3 == b.data3;
    let mut tail = true;
    let mut i: usize = 0;
    while i < 8
        invariant
            i <= 8,
            tail == (forall|j: int| 0 <= j < i ==> a.data4@[j] == b.data4@[j]),
        decreases 8 - i,
    {
        tail = tail && a.data4[i] == b.data4[i];
        i = i + 1;
    }
    proof {
        if tail {
            assert(a.data4@ =~= b.data4@);
        }
    }
    head && tail
}

/// A host-side owner of exactly one reference to a boundary object.
///
/// Wraps one non-null handle ([`blob::ObjectStore`] index).  Construction
/// takes over the single reference the handle carries; [`ComPtr::release`]
/// consumes the wrapper and gives that reference back through the object's
/// release slot, so each wrapper issues exactly one release — the ownership
/// discipline a scope-bound destructor provides, made explicit because the
/// store must witness the release.
pub struct ComPtr {
    ptr: usize,
}

impl ComPtr {
    /// The wrapped handle.
    pub closed spec fn addr(self) -> usize {
        self.ptr
    }

    /// Wraps a handle, taking ownership of the one reference it carries.
    /// Callers must not pass null: a null pointer is a contract violation,
    /// not a recoverable error.
    pub fn new(object_ptr: Option<usize>) -> (r: ComPtr)
        requires
            object_ptr is Some,
        ensures
            r.addr() == object_ptr->0,
    {
        match object_ptr {
            Some(p) => ComPtr { ptr: p },
            None => vstd::pervasive::unreached(),
        }
    }

    /// A non-owning peek at the wrapped handle; the reference count is not
    /// touched.
    pub fn as_raw(&self) -> (r: usize)
        ensures
            r == self.addr(),
    {
        self.ptr
    }

    /// Borrow-forwarding in place of a dereference: reads the wrapped
    /// object's payload without taking or giving up a reference.
    pub fn as_slice<'a>(&self, store: &'a ObjectStore) -> (r: &'a [u8])
        requires
            store.live(self.addr()),
        ensures
            r@ == store.data(self.addr()),
    {
        blob::as_slice(store, self.ptr)
    }

    /// Ends this wrapper's scope: consumes it and issues its one release
    /// through the object's release slot.  No second release can follow,
    /// since the wrapper is gone.
    pub fn release(self, store: &mut ObjectStore) -> (r: u32)
        requires
            old(store).wf(),
            old(store).live(self.addr()),
        ensures
            final(store).wf(),
            final(store)@ == blob::spec_release_step(old(store)@, self.addr()),
            r == blob::spec_release_result(old(store)@, self.addr()),
            old(store).count(self.addr()) == 1 ==> r == 0 && final(store)@[self.addr() as int] is None,
            old(store).count(self.addr()) > 1 ==> r == old(store).count(self.addr()) - 1
                && final(store).live(self.addr()),
    {
        blob::release(store, self.ptr)
    }
}

} // verus!
