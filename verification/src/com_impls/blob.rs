//! The owned interface object: a reference-counted, heap-allocated buffer
//! object, bit-compatible at the boundary with any object that starts with a
//! vtable pointer.
//!
//! Raw boundary pointers cannot be reasoned about directly, so the boundary
//! heap is modelled explicitly: an [`ObjectStore`] owns every object that was
//! handed across the boundary, and a raw pointer is a handle — an index into
//! the store, with `None` standing for the null pointer.  The protocol
//! operations (`query_interface`, `add_ref`, `release`, and the two buffer
//! accessors) are the fixed vtable slots of the blob capability, in the order
//! the boundary contract fixes them.

use vstd::prelude::*;

use crate::com_impls::E_INVALIDARG;
use crate::com_impls::E_NOINTERFACE;
use crate::com_impls::S_OK;
use crate::com_impls::SlangUuid;
use crate::com_impls::eq_guid;
use crate::com_impls::is_iunknown_iid;
use crate::com_impls::iunknown_iid;
use vstd::string::StringSliceAdditionalSpecFns;

verus! {

/// The capability identifier of the in-memory buffer object
/// (8ba5fb08-5195-40e2-ac58-0d989c3a0102).
pub open spec fn is_vec_blob_iid(u: SlangUuid) -> bool {
    u.data1 == 0x8ba5fb08 && u.data2 == 0x5195 && u.data3 == 0x40e2 && u.data4@ == seq![
        0xacu8,
        0x58u8,
        0x0du8,
        0x98u8,
        0x9cu8,
        0x3au8,
        0x01u8,
        0x02u8,
    ]
}

/// An identifier that a buffer object answers to: its own, or the base one.
pub open spec fn supported_iid(u: SlangUuid) -> bool {
    is_vec_blob_iid(u) || is_iunknown_iid(u)
}

/// The store model after a fresh blob owning `data` is allocated: a new
/// slot holding the object with its creation reference.
pub open spec fn spec_create_step(s: Seq<Option<VecBlob>>, data: Vec<u8>) -> Seq<Option<VecBlob>> {
    s.push(Some(VecBlob { ref_count: 1u32, data }))
}

/// The store model after one reference is taken on the object at `h`.
pub open spec fn spec_add_ref_step(s: Seq<Option<VecBlob>>, h: usize) -> Seq<Option<VecBlob>> {
    if h < s.len() && s[h as int] is Some {
        let b = s[h as int]->Some_0;
        s.update(h as int, Some(VecBlob { ref_count: (b.ref_count + 1) as u32, data: b.data }))
    } else {
        s
    }
}

/// The store model after one reference is given up on the object at `h`:
/// the count drops, and the last reference empties the slot.
pub open spec fn spec_release_step(s: Seq<Option<VecBlob>>, h: usize) -> Seq<Option<VecBlob>> {
    if h < s.len() && s[h as int] is Some {
        let b = s[h as int]->Some_0;
        if b.ref_count <= 1 {
            s.update(h as int, None)
        } else {
            s.update(h as int, Some(VecBlob { ref_count: (b.ref_count - 1) as u32, data: b.data }))
        }
    } else {
        s
    }
}

/// What one release on the object at `h` reports: 0 when the object is
/// reclaimed, else the decremented count.
pub open spec fn spec_release_result(s: Seq<Option<VecBlob>>, h: usize) -> u32 {
    if h < s.len() && s[h as int] is Some {
        let b = s[h as int]->Some_0;
        if b.ref_count <= 1 {
            0u32
        } else {
            (b.ref_count - 1) as u32
        }
    } else {
        0u32
    }
}

/// The store model after `n` references are taken on the object at `h`.
pub open spec fn spec_add_refs(s: Seq<Option<VecBlob>>, h: usize, n: nat) -> Seq<Option<VecBlob>>
    decreases n,
{
    if n == 0 {
        s
    } else {
        spec_add_ref_step(spec_add_refs(s, h, (n - 1) as nat), h)
    }
}

/// The store model after `k` releases of the object at `h`.
pub open spec fn spec_releases(s: Seq<Option<VecBlob>>, h: usize, k: nat) -> Seq<Option<VecBlob>>
    decreases k,
{
    if k == 0 {
        s
    } else {
        spec_release_step(spec_releases(s, h, (k - 1) as nat), h)
    }
}

/// An in-memory buffer object with its reference count.
///
/// A live `VecBlob` sits in an [`ObjectStore`] slot; its reference count is
/// the sole arbiter of its lifetime, and the payload is immutable after
/// construction.
pub struct VecBlob {
    /// The number of outstanding references to this object.
    pub ref_count: u32,
    /// The owned payload.
    pub data: Vec<u8>,
}

/// The boundary heap: owner of every interface object handed across the
/// boundary.
///
/// A handle (`usize`) indexes a slot; a freed slot holds `None` and is never
/// reused, so a released handle can never reach another object.
pub struct ObjectStore {
    slots: Vec<Option<VecBlob>>,
}

impl View for ObjectStore {
    type V = Seq<Option<VecBlob>>;

    closed spec fn view(&self) -> Seq<Option<VecBlob>> {
        self.slots@
    }
}

impl ObjectStore {
    /// The handle denotes a live (not yet reclaimed) object.
    pub open spec fn live(self, h: usize) -> bool {
        h < self@.len() && self@[h as int] is Some
    }

    /// The object behind a live handle.
    pub open spec fn blob(self, h: usize) -> VecBlob {
        self@[h as int]->Some_0
    }

    /// The reference count of a live object.
    pub open spec fn count(self, h: usize) -> u32 {
        self.blob(h).ref_count
    }

    /// The payload bytes of a live object.
    pub open spec fn data(self, h: usize) -> Seq<u8> {
        self.blob(h).data@
    }

    /// Every live object has at least one outstanding reference: an object
    /// whose count reaches zero is reclaimed at once.
    pub open spec fn wf(self) -> bool {
        forall|i: int| 0 <= i < self@.len() && self@[i] is Some ==> (#[trigger] self@[i])->Some_0.ref_count >= 1
    }

    /// An empty boundary heap.
    pub fn new() -> (r: ObjectStore)
        ensures
            r@ == Seq::<Option<VecBlob>>::empty(),
            r.wf(),
    {
        ObjectStore { slots: Vec::new() }
    }
}

impl VecBlob {
    /// Allocates a blob owning `data`, with reference count 1, and transfers
    /// ownership to the boundary: the returned handle carries the one
    /// reference, and the caller must release it.
    pub fn from_vec(store: &mut ObjectStore, data: Vec<u8>) -> (r: usize)
        requires
            old(store).wf(),
        ensures
            final(store)@ == spec_create_step(old(store)@, data),
            r == old(store)@.len(),
            final(store).live(r),
            final(store).count(r) == 1,
            final(store).data(r) == data@,
            final(store).wf(),
    {
        let r = store.slots.len();
        store.slots.push(Some(VecBlob { ref_count: 1, data }));
        r
    }

    /// Allocates a blob holding a copy of the given bytes (count 1, ownership
    /// transferred to the caller).
    pub fn from_slice(store: &mut ObjectStore, data: &[u8]) -> (r: usize)
        requires
            old(store).wf(),
        ensures
            final(store)@.len() == old(store)@.len() + 1,
            forall|i: int| 0 <= i < old(store)@.len() ==> final(store)@[i] == old(store)@[i],
            r == old(store)@.len(),
            final(store).live(r),
            final(store).count(r) == 1,
            final(store).data(r) == data@,
            final(store).wf(),
    {
        Self::from_vec(store, vstd::slice::slice_to_vec(data))
    }

    /// Allocates a blob holding the bytes of the given text (count 1,
    /// ownership transferred to the caller).
    pub fn from_string(store: &mut ObjectStore, s: String) -> (r: usize)
        requires
            old(store).wf(),
        ensures
            final(store)@.len() == old(store)@.len() + 1,
            forall|i: int| 0 <= i < old(store)@.len() ==> final(store)@[i] == old(store)@[i],
            r == old(store)@.len(),
            final(store).live(r),
            final(store).count(r) == 1,
            final(store).data(r) == vstd::utf8::encode_utf8(s@),
            final(store).wf(),
    {
        Self::from_str(store, s.as_str())
    }

    /// Allocates a blob holding a copy of the bytes of the given text (count
    /// 1, ownership transferred to the caller).
    pub fn from_str(store: &mut ObjectStore, s: &str) -> (r: usize)
        requires
            old(store).wf(),
        ensures
            final(store)@.len() == old(store)@.len() + 1,
            forall|i: int| 0 <= i < old(store)@.len() ==> final(store)@[i] == old(store)@[i],
            r == old(store)@.len(),
            final(store).live(r),
            final(store).count(r) == 1,
            final(store).data(r) == s.spec_bytes(),
            final(store).wf(),
    {
        Self::from_vec(store, vstd::string::StrSliceExecFns::as_bytes_vec(s))
    }

    /// Builds the capability identifier of the buffer object.
    pub fn iid() -> (r: SlangUuid)
        ensures
            is_vec_blob_iid(r),
    {
        let r = SlangUuid {
            data1: 0x8ba5fb08,
            data2: 0x5195,
            data3: 0x40e2,
            data4: [0xac, 0x58, 0x0d, 0x98, 0x9c, 0x3a, 0x01, 0x02],
        };
        proof {
            assert(r.data4@ =~= seq![0xacu8, 0x58u8, 0x0du8, 0x98u8, 0x9cu8, 0x3au8, 0x01u8, 0x02u8]);
        }
        r
    }
}

/// First vtable slot.  Asks the object behind `this` whether it supports the
/// capability `uuid` names.
///
/// `uuid` is a possibly-null pointer to the requested identifier, and
/// `out_object` models a possibly-null output slot (`None` stands for a null
/// out-pointer; the inner value is the pointer written through it).  A null
/// `uuid` or a null out-slot is reported as [`E_INVALIDARG`] before the
/// object is touched.  A supported identifier writes the object's own handle
/// to the out-slot, takes one more reference and reports [`S_OK`]; any other
/// identifier writes null and reports [`E_NOINTERFACE`] without touching the
/// count.
pub fn query_interface(
    store: &mut ObjectStore,
    this: usize,
    uuid: Option<&SlangUuid>,
    out_object: &mut Option<Option<usize>>,
) -> (r: i32)
    requires
        old(store).wf(),
        uuid is Some && *old(out_object) is Some ==> old(store).live(this),
        (uuid matches Some(u) && *old(out_object) is Some && supported_iid(*u)) ==> old(store).count(
            this,
        ) < u32::MAX,
    ensures
        final(store).wf(),
        (uuid is None || *old(out_object) is None) ==> r == E_INVALIDARG && final(store)@ == old(
            store,
        )@ && *final(out_object) == *old(out_object),
        (uuid matches Some(u) && *old(out_object) is Some && supported_iid(*u)) ==> {
            &&& r == S_OK
            &&& *final(out_object) == Some(Some(this))
            &&& final(store)@.len() == old(store)@.len()
            &&& forall|i: int|
                0 <= i < old(store)@.len() && i != this ==> final(store)@[i] == old(store)@[i]
            &&& final(store).live(this)
            &&& final(store).count(this) == old(store).count(this) + 1
            &&& final(store).blob(this).data == old(store).blob(this).data
            &&& final(store)@ == spec_add_ref_step(old(store)@, this)
        },
        (uuid matches Some(u) && *old(out_object) is Some && !supported_iid(*u)) ==> {
            &&& r == E_NOINTERFACE
            &&& *final(out_object) == Some(None::<usize>)
            &&& final(store)@ == old(store)@
        },
{
    if out_object.is_none() || uuid.is_none() {
        return E_INVALIDARG;
    }
    let iid = match uuid {
        Some(u) => u,
        None => vstd::pervasive::unreached(),
    };
    let base = iunknown_iid();
    let own = VecBlob::iid();
    if eq_guid(iid, &base) || eq_guid(iid, &own) {
        let slot = &mut store.slots[this];
        match slot {
            Some(blob) => {
                blob.ref_count = blob.ref_count + 1;
            },
            None => vstd::pervasive::unreached(),
        }
        *out_object = Some(Some(this));
        S_OK
    } else {
        *out_object = Some(None);
        E_NOINTERFACE
    }
}

/// Second vtable slot.  Takes one more reference to the object behind `this`
/// and reports the new count.  Never fails; the count staying below the
/// counter's capacity is the caller's obligation, as overflowing it is a
/// protocol violation.
pub fn add_ref(store: &mut ObjectStore, this: usize) -> (r: u32)
    requires
        old(store).wf(),
        old(store).live(this),
        old(store).count(this) < u32::MAX,
    ensures
        final(store).wf(),
        final(store)@.len() == old(store)@.len(),
        forall|i: int| 0 <= i < old(store)@.len() && i != this ==> final(store)@[i] == old(store)@[i],
        final(store).live(this),
        final(store).count(this) == old(store).count(this) + 1,
        final(store).blob(this).data == old(store).blob(this).data,
        final(store)@ == spec_add_ref_step(old(store)@, this),
        r == old(store).count(this) + 1,
{
    let slot = &mut store.slots[this];
    match slot {
        Some(blob) => {
            blob.ref_count = blob.ref_count + 1;
            blob.ref_count
        },
        None => vstd::pervasive::unreached(),
    }
}

/// Third vtable slot.  Gives up one reference to the object behind `this`.
/// When the last reference goes, the object and its payload are reclaimed —
/// the slot empties, the handle is dead — and 0 is reported; otherwise the
/// decremented count comes back and the object lives on.
pub fn release(store: &mut ObjectStore, this: usize) -> (r: u32)
    requires
        old(store).wf(),
        old(store).live(this),
    ensures
        final(store).wf(),
        final(store)@.len() == old(store)@.len(),
        forall|i: int| 0 <= i < old(store)@.len() && i != this ==> final(store)@[i] == old(store)@[i],
        final(store)@ == spec_release_step(old(store)@, this),
        r == spec_release_result(old(store)@, this),
        old(store).count(this) == 1 ==> r == 0 && final(store)@[this as int] is None,
        old(store).count(this) > 1 ==> {
            &&& r == old(store).count(this) - 1
            &&& r >= 1
            &&& final(store).live(this)
            &&& final(store).count(this) == old(store).count(this) - 1
            &&& final(store).blob(this).data == old(store).blob(this).data
        },
{
    let prev = match &store.slots[this] {
        Some(blob) => blob.ref_count,
        None => vstd::pervasive::unreached(),
    };
    if prev == 1 {
        let slot = &mut store.slots[this];
        *slot = None;
        0
    } else {
        let slot = &mut store.slots[this];
        match slot {
            Some(blob) => {
                blob.ref_count = blob.ref_count - 1;
                blob.ref_count
            },
            None => vstd::pervasive::unreached(),
        }
    }
}

/// Buffer-capability vtable slot: read access to the payload.  In place of a
/// raw address, the model hands back a borrow of the owned bytes; it never
/// fails and never changes the count.
pub fn get_buffer_pointer<'a>(store: &'a ObjectStore, this: usize) -> (r: &'a Vec<u8>)
    requires
        store.live(this),
    ensures
        r@ == store.data(this),
{
    match &store.slots[this] {
        Some(blob) => &blob.data,
        None => vstd::pervasive::unreached(),
    }
}

/// Buffer-capability vtable slot: the payload's length in bytes.  Never
/// fails, never mutates.
pub fn get_buffer_size(store: &ObjectStore, this: usize) -> (r: usize)
    requires
        store.live(this),
    ensures
        r == store.data(this).len(),
{
    match &store.slots[this] {
        Some(blob) => blob.data.len(),
        None => vstd::pervasive::unreached(),
    }
}

/// The payload as one slice: the buffer pointer and the buffer size put
/// together, exactly the view a boundary peer would reconstruct from the two
/// accessors.
pub fn as_slice<'a>(store: &'a ObjectStore, this: usize) -> (r: &'a [u8])
    requires
        store.live(this),
    ensures
        r@ == store.data(this),
{
    get_buffer_pointer(store, this).as_slice()
}

/// Round-trip law: a blob constructed from bytes hands exactly those bytes
/// back through its buffer accessors — for any prior store contents and any
/// bytes, the empty sequence included.  The fresh object carries exactly its
/// creation reference.
pub proof fn lemma_blob_round_trip(s: Seq<Option<VecBlob>>, data: Vec<u8>)
    ensures
        ({
            let s2 = spec_create_step(s, data);
            &&& s2[s.len() as int] is Some
            &&& s2[s.len() as int]->Some_0.data@ == data@
            &&& s2[s.len() as int]->Some_0.ref_count == 1
        }),
{
}

/// After `n` add-references, the count has grown by exactly `n` and nothing
/// else in the store has moved.
proof fn lemma_add_refs_effect(s: Seq<Option<VecBlob>>, h: usize, n: nat)
    requires
        h < s.len(),
        s[h as int] is Some,
        s[h as int]->Some_0.ref_count + n <= u32::MAX,
    ensures
        ({
            let s1 = spec_add_refs(s, h, n);
            &&& s1.len() == s.len()
            &&& s1[h as int] is Some
            &&& s1[h as int]->Some_0.ref_count == s[h as int]->Some_0.ref_count + n
            &&& s1[h as int]->Some_0.data == s[h as int]->Some_0.data
            &&& forall|i: int| 0 <= i < s.len() && i != h ==> s1[i] == s[i]
        }),
    decreases n,
{
    if n > 0 {
        lemma_add_refs_effect(s, h, (n - 1) as nat);
    }
}

/// After `k` releases of an object holding at least `k` references, either
/// `k` references are left gone and the object lives on, or — at exactly the
/// count — the slot is empty.  Nothing else in the store moves.
proof fn lemma_releases_effect(s: Seq<Option<VecBlob>>, h: usize, k: nat)
    requires
        h < s.len(),
        s[h as int] is Some,
        s[h as int]->Some_0.ref_count >= 1,
        k <= s[h as int]->Some_0.ref_count,
    ensures
        ({
            let c = s[h as int]->Some_0.ref_count;
            let sk = spec_releases(s, h, k);
            &&& sk.len() == s.len()
            &&& k < c ==> sk[h as int] is Some && sk[h as int]->Some_0.ref_count == c - k
                && sk[h as int]->Some_0.data == s[h as int]->Some_0.data
            &&& k == c ==> sk[h as int] is None
            &&& forall|i: int| 0 <= i < s.len() && i != h ==> sk[i] == s[i]
        }),
    decreases k,
{
    if k > 0 {
        lemma_releases_effect(s, h, (k - 1) as nat);
        let sp = spec_releases(s, h, (k - 1) as nat);
        let sk = spec_releases(s, h, k);
        assert(sk == spec_release_step(sp, h));
        assert forall|i: int| 0 <= i < s.len() && i != h implies sk[i] == s[i] by {
            assert(sp[i] == s[i]);
        }
    }
}

/// Reference-counting law: an object holding only its creation reference,
/// after `n` add-references, needs exactly `n + 1` releases.  Each of the
/// first `n` releases reports the non-zero count that is left and the object
/// stays live; the final release reports 0 and reclaims the slot — the
/// memory comes back exactly once, and no other slot is ever touched.
pub proof fn lemma_ref_counting(s: Seq<Option<VecBlob>>, h: usize, n: nat)
    requires
        h < s.len(),
        s[h as int] is Some,
        s[h as int]->Some_0.ref_count == 1,
        n + 1 <= u32::MAX,
    ensures
        ({
            let s1 = spec_add_refs(s, h, n);
            &&& s1[h as int] is Some
            &&& s1[h as int]->Some_0.ref_count == n + 1
            &&& forall|k: nat|
                k < n ==> (#[trigger] spec_releases(s1, h, k))[h as int] is Some
                    && spec_release_result(spec_releases(s1, h, k), h) == n - k
            &&& spec_releases(s1, h, n)[h as int] is Some
            &&& spec_release_result(spec_releases(s1, h, n), h) == 0
            &&& spec_releases(s1, h, n + 1)[h as int] is None
            &&& forall|i: int|
                0 <= i < s.len() && i != h ==> (#[trigger] spec_releases(s1, h, n + 1)[i]) == s[i]
        }),
{
    lemma_add_refs_effect(s, h, n);
    let s1 = spec_add_refs(s, h, n);
    assert forall|k: nat|
        k < n implies (#[trigger] spec_releases(s1, h, k))[h as int] is Some
        && spec_release_result(spec_releases(s1, h, k), h) == n - k by {
        lemma_releases_effect(s1, h, k);
    }
    lemma_releases_effect(s1, h, n);
    lemma_releases_effect(s1, h, n + 1);
}

} // verus!
