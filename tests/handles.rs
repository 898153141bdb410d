use dpdk::eal::RTE_MAX_ETHPORTS;
use dpdk::mbuf::{Origin, PKTMBUF_HEADROOM};
use dpdk::{Eal, Error, Mbuf, Mempool};

fn pool(name: &str, n: u32, elt_size: u32) -> Mempool {
    Mempool::create(name, n, elt_size, 0, -1).expect("pool parameters are valid")
}

#[test]
fn test_constants_exist() {
    let _max_ethports = RTE_MAX_ETHPORTS;
}

#[test]
fn test_eal_init_validates_args() {
    let result = Eal::init(vec!["test\0app"]);
    assert!(result.is_err());
}

#[test]
fn test_mbuf_sizes() {
    assert!(std::mem::size_of::<Mbuf>() <= 16);
}

#[test]
fn test_mempool_name_validation() {
    let result = Mempool::create("test\0pool", 128, 64, 32, -1);
    assert!(result.is_err());
}

#[test]
fn eal_init_rejects_any_argument_with_null() {
    for args in [vec!["app", "-c", "0x1\0"], vec!["\0"], vec!["a", "b\0c", "d"]] {
        assert!(matches!(Eal::init(args), Err(Error::InvalidArgument(_))));
    }
}

#[test]
fn eal_init_accepts_plain_arguments() {
    let eal = Eal::init(vec!["basic-init", "-c", "0x1", "-n", "4"]).unwrap();
    assert_eq!(eal.lcore_count(), 1);
    assert_eq!(eal.lcore_id(), 0);
    assert_eq!(eal.get_main_lcore(), 0);
    assert!(Eal::init(Vec::new()).is_ok());
}

#[test]
fn mempool_name_with_null_is_invalid_argument() {
    for name in ["\0", "pool\0", "\0pool", "a\0b"] {
        assert!(matches!(
            Mempool::create(name, 128, 64, 32, -1),
            Err(Error::InvalidArgument(_))
        ));
    }
}

#[test]
fn mempool_rejects_bad_parameters() {
    // cache larger than the largest per-core cache
    assert!(matches!(Mempool::create("a", 100000, 64, 513, -1), Err(Error::Mempool(_))));
    // cache flush threshold above the capacity: 100 * 3 / 2 = 150 > 149
    assert!(matches!(Mempool::create("b", 149, 64, 100, -1), Err(Error::Mempool(_))));
    assert!(Mempool::create("c", 150, 64, 100, -1).is_ok());
    // element too large for a packet buffer
    assert!(matches!(Mempool::create("d", 8, 65536, 0, -1), Err(Error::Mempool(_))));
    assert!(Mempool::create("e", 8, 65535, 0, -1).is_ok());
}

#[test]
fn mempool_starts_with_everything_available() {
    let p = Mempool::create("packet_pool", 8192, 2048, 256, -1).unwrap();
    assert_eq!(p.avail_count(), 8192);
    assert_eq!(p.in_use_count(), 0);
    assert_eq!(p.elt_size(), 2048);
    assert_eq!(p.name(), "packet_pool");
}

#[test]
fn allocate_from_empty_pool_fails_and_keeps_counts() {
    let mut p = pool("empty", 0, 256);
    assert!(matches!(Mbuf::allocate(&mut p), Err(Error::Mbuf(_))));
    assert_eq!(p.in_use_count(), 0);

    let mut q = pool("one", 1, 256);
    let m = Mbuf::allocate(&mut q).unwrap();
    assert!(matches!(Mbuf::allocate(&mut q), Err(Error::Mbuf(_))));
    assert_eq!(q.in_use_count(), 1);
    assert_eq!(q.avail_count(), 0);
    m.free(&mut q);
    assert_eq!(q.in_use_count(), 0);
}

#[test]
fn allocations_are_counted() {
    let mut p = pool("counted", 10, 256);
    let mut held = Vec::new();
    for k in 1..=7u32 {
        held.push(Mbuf::allocate(&mut p).unwrap());
        assert_eq!(p.in_use_count(), k);
        assert_eq!(p.avail_count() + p.in_use_count(), 10);
    }
    for m in held {
        m.free(&mut p);
    }
    assert_eq!(p.in_use_count(), 0);
}

#[test]
fn fresh_buffer_layout() {
    let mut p = pool("layout", 4, 2048);
    let m = Mbuf::allocate(&mut p).unwrap();
    assert_eq!(m.data_len(), 0);
    assert_eq!(m.pkt_len(), 0);
    assert!(m.data().is_empty());
    let mut small = pool("small", 4, 100);
    let mut s = Mbuf::allocate(&mut small).unwrap();
    // no tailroom when the element is smaller than the headroom
    assert!(s.append(1).is_err());
    assert_eq!(s.prepend(100).unwrap().len(), 100);
    assert!(s.prepend(1).is_err());
    assert_eq!(PKTMBUF_HEADROOM, 128);
}

#[test]
fn append_grows_by_exactly_len() {
    let mut p = pool("append", 4, 2048);
    let mut m = Mbuf::allocate(&mut p).unwrap();
    for (len, total) in [(64u16, 64u16), (0, 64), (100, 164)] {
        let view = m.append(len).unwrap();
        assert_eq!(view.len(), len as usize);
        assert_eq!(m.data_len(), total);
        assert_eq!(m.pkt_len(), total as u32);
    }
}

#[test]
fn append_past_tailroom_fails_without_change() {
    let mut p = pool("tail", 4, 2048);
    let mut m = Mbuf::allocate(&mut p).unwrap();
    // 2048 - 128 = 1920 bytes of tailroom
    assert!(matches!(m.append(1921), Err(Error::Mbuf(_))));
    assert_eq!(m.data_len(), 0);
    assert_eq!(m.append(1920).unwrap().len(), 1920);
    assert!(matches!(m.append(1), Err(Error::Mbuf(_))));
    assert_eq!(m.data_len(), 1920);
}

#[test]
fn written_bytes_show_in_data() {
    let mut p = pool("write", 4, 2048);
    let mut m = Mbuf::allocate(&mut p).unwrap();
    let view = m.append(4).unwrap();
    view.copy_from_slice(&[1, 2, 3, 4]);
    let head = m.prepend(2).unwrap();
    head.copy_from_slice(&[9, 8]);
    assert_eq!(m.data(), &[9, 8, 1, 2, 3, 4]);
    assert_eq!(m.data_len(), 6);
    m.data_mut()[5] = 40;
    assert_eq!(m.data(), &[9, 8, 1, 2, 3, 40]);
    assert!(matches!(m.prepend(127), Err(Error::Mbuf(_))));
    assert_eq!(m.data_len(), 6);
    assert_eq!(m.prepend(126).unwrap().len(), 126);
    assert_eq!(m.data_len(), 132);
}

#[test]
fn borrowed_release_leaves_pool_alone() {
    let mut p = pool("borrow", 2, 512);
    let mut owner = Mbuf::allocate(&mut p).unwrap();
    owner.append(3).unwrap().copy_from_slice(&[5, 6, 7]);
    let borrowed = Mbuf::from_raw(owner.as_ptr().clone());
    assert_eq!(borrowed.data(), &[5, 6, 7]);
    assert_eq!(borrowed.pkt_len(), 3);
    borrowed.free(&mut p);
    assert_eq!(p.in_use_count(), 1);
    owner.free(&mut p);
    assert_eq!(p.in_use_count(), 0);
    assert_eq!(p.avail_count(), 2);
    let again = Mbuf::allocate(&mut p).unwrap();
    assert_eq!(again.data_len(), 0);
    again.free(&mut p);
    assert_eq!(p.in_use_count(), 0);
    assert_eq!(Origin::Owned, Origin::Owned);
}

#[test]
fn pool_handle_exposes_its_structure() {
    let p = pool("raw", 3, 64);
    let raw = p.as_ptr();
    assert!(format!("{:?}", raw).contains("raw"));
}

#[test]
fn from_errno_maps_known_and_unknown_codes() {
    let cases = [
        (-1, "Operation not permitted"),
        (-2, "No such file or directory"),
        (-12, "Out of memory"),
        (-22, "Invalid argument"),
        (-95, "Operation not supported"),
        (-7, "Unknown error code: -7"),
        (0, "Unknown error code: 0"),
        (1234, "Unknown error code: 1234"),
        (i32::MIN, "Unknown error code: -2147483648"),
    ];
    for (code, text) in cases {
        match Error::from_errno(code) {
            Error::Dpdk { code: c, message } => {
                assert_eq!(c, code);
                assert_eq!(message, text);
            }
            other => panic!("unexpected {:?}", other),
        }
    }
}

#[test]
fn end_to_end_session() {
    let eal = Eal::init(vec!["basic-init", "-c", "0x1", "-n", "4"]).unwrap();
    assert_eq!(eal.lcore_count(), 1);
    let mut p = Mempool::create("packet_pool", 8192, 2048, 256, -1).unwrap();
    let mut bufs = Vec::new();
    for _ in 0..5 {
        bufs.push(Mbuf::allocate(&mut p).unwrap());
    }
    assert_eq!(p.in_use_count(), 5);
    {
        let first = &mut bufs[0];
        let data = first.append(64).unwrap();
        for (i, byte) in data.iter_mut().enumerate() {
            *byte = (i % 256) as u8;
        }
        assert_eq!(first.data_len(), 64);
        assert_eq!(&first.data()[..10], &[0, 1, 2, 3, 4, 5, 6, 7, 8, 9]);
    }
    for m in bufs {
        m.free(&mut p);
    }
    assert_eq!(p.in_use_count(), 0);
    assert_eq!(p.avail_count(), 8192);
    drop(p);
    drop(eal);
}
