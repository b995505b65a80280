use shader_slang::ComPtr;
use shader_slang::SlangUuid;
use shader_slang::com_impls::E_INVALIDARG;
use shader_slang::com_impls::E_NOINTERFACE;
use shader_slang::com_impls::S_OK;
use shader_slang::com_impls::blob::ObjectStore;
use shader_slang::com_impls::blob::VecBlob;
use shader_slang::com_impls::blob::add_ref;
use shader_slang::com_impls::blob::as_slice;
use shader_slang::com_impls::blob::get_buffer_pointer;
use shader_slang::com_impls::blob::get_buffer_size;
use shader_slang::com_impls::blob::query_interface;
use shader_slang::com_impls::blob::release;
use shader_slang::eq_guid;

#[test]
fn eq_guid_compares_all_fields() {
    let a = SlangUuid {
        data1: 0x8ba5fb08,
        data2: 0x5195,
        data3: 0x40e2,
        data4: [0xac, 0x58, 0x0d, 0x98, 0x9c, 0x3a, 0x01, 0x02],
    };
    let same = SlangUuid { ..a };
    assert!(eq_guid(&a, &same));
    let mut d1 = a;
    d1.data1 = 0;
    assert!(!eq_guid(&a, &d1));
    let mut d2 = a;
    d2.data2 = 0;
    assert!(!eq_guid(&a, &d2));
    let mut d3 = a;
    d3.data3 = 0;
    assert!(!eq_guid(&a, &d3));
    let mut d4 = a;
    d4.data4[7] = 0;
    assert!(!eq_guid(&a, &d4));
}

#[test]
fn blob_round_trip() {
    let mut store = ObjectStore::new();
    let bytes = vec![0u8, 1, 2, 3, 255];
    let h = VecBlob::from_vec(&mut store, bytes.clone());
    assert_eq!(get_buffer_size(&store, h), 5);
    assert_eq!(get_buffer_pointer(&store, h).as_slice(), bytes.as_slice());
    assert_eq!(as_slice(&store, h), bytes.as_slice());
    assert_eq!(release(&mut store, h), 0);
}

#[test]
fn blob_round_trip_empty() {
    let mut store = ObjectStore::new();
    let h = VecBlob::from_vec(&mut store, Vec::new());
    assert_eq!(get_buffer_size(&store, h), 0);
    assert_eq!(as_slice(&store, h), &[] as &[u8]);
    assert_eq!(release(&mut store, h), 0);
}

#[test]
fn blob_from_slice_and_text() {
    let mut store = ObjectStore::new();
    let h1 = VecBlob::from_slice(&mut store, &[7u8, 8, 9]);
    assert_eq!(as_slice(&store, h1), &[7u8, 8, 9]);
    let h2 = VecBlob::from_string(&mut store, String::from("abc"));
    assert_eq!(as_slice(&store, h2), b"abc");
    let h3 = VecBlob::from_str(&mut store, "xyz");
    assert_eq!(as_slice(&store, h3), b"xyz");
    assert_eq!(release(&mut store, h1), 0);
    assert_eq!(release(&mut store, h2), 0);
    assert_eq!(release(&mut store, h3), 0);
}

#[test]
fn reference_counting_returns_memory_once() {
    let mut store = ObjectStore::new();
    let h = VecBlob::from_vec(&mut store, vec![42u8]);
    // Creation carries one reference; take three more.
    assert_eq!(add_ref(&mut store, h), 2);
    assert_eq!(add_ref(&mut store, h), 3);
    assert_eq!(add_ref(&mut store, h), 4);
    // Intermediate releases report the non-zero count that is left, and the
    // payload stays readable.
    assert_eq!(release(&mut store, h), 3);
    assert_eq!(release(&mut store, h), 2);
    assert_eq!(as_slice(&store, h), &[42u8]);
    assert_eq!(release(&mut store, h), 1);
    // The final release reports 0 and reclaims the slot.
    assert_eq!(release(&mut store, h), 0);
}

#[test]
fn query_interface_identity() {
    let mut store = ObjectStore::new();
    let h = VecBlob::from_vec(&mut store, vec![1u8]);
    let own = VecBlob::iid();
    let base = shader_slang::com_impls::iunknown_iid();
    let unrelated = SlangUuid { data1: 1, data2: 2, data3: 3, data4: [4, 5, 6, 7, 8, 9, 10, 11] };

    // The object's own identifier succeeds and takes a reference.
    let mut out: Option<Option<usize>> = Some(None);
    assert_eq!(query_interface(&mut store, h, Some(&own), &mut out), S_OK);
    assert_eq!(out, Some(Some(h)));
    // The base identifier succeeds as well.
    let mut out2: Option<Option<usize>> = Some(None);
    assert_eq!(query_interface(&mut store, h, Some(&base), &mut out2), S_OK);
    assert_eq!(out2, Some(Some(h)));
    // Count is now 3: creation plus two successful queries.
    assert_eq!(release(&mut store, h), 2);

    // An unrelated identifier is refused and the count stays put.
    let mut out3: Option<Option<usize>> = Some(None);
    assert_eq!(query_interface(&mut store, h, Some(&unrelated), &mut out3), E_NOINTERFACE);
    assert_eq!(out3, Some(None));

    // Null identifier or null out-slot: invalid argument, before any count
    // change.
    let mut out4: Option<Option<usize>> = Some(None);
    assert_eq!(query_interface(&mut store, h, None, &mut out4), E_INVALIDARG);
    assert_eq!(out4, Some(None));
    let mut null_out: Option<Option<usize>> = None;
    assert_eq!(query_interface(&mut store, h, Some(&own), &mut null_out), E_INVALIDARG);
    assert_eq!(null_out, None);

    // Still exactly two references left.
    assert_eq!(release(&mut store, h), 1);
    assert_eq!(release(&mut store, h), 0);
}

#[test]
fn com_ptr_releases_exactly_once() {
    let mut store = ObjectStore::new();
    let h = VecBlob::from_vec(&mut store, vec![5u8, 6]);
    let ptr = ComPtr::new(Some(h));
    assert_eq!(ptr.as_raw(), h);
    // Peeks and borrow-forwarding do not touch the count: the single
    // release below still reclaims.
    assert_eq!(ptr.as_raw(), h);
    assert_eq!(ptr.as_slice(&store), &[5u8, 6]);
    assert_eq!(ptr.release(&mut store), 0);
}

#[test]
fn com_ptr_with_outstanding_reference() {
    let mut store = ObjectStore::new();
    let h = VecBlob::from_vec(&mut store, vec![9u8]);
    add_ref(&mut store, h);
    let ptr = ComPtr::new(Some(h));
    // The wrapper gives back exactly its one reference; the other survives.
    assert_eq!(ptr.release(&mut store), 1);
    assert_eq!(as_slice(&store, h), &[9u8]);
    assert_eq!(release(&mut store, h), 0);
}
