use dashmap::shard::Shard;

fn utf8_mut<const N: usize>(b: &mut [u8; N]) -> Result<&mut str, &mut [u8; N]> {
    if std::str::from_utf8(b).is_ok() {
        Ok(std::str::from_utf8_mut(b).unwrap())
    } else {
        Err(b)
    }
}

#[test]
fn map_exposes_projection_and_key() {
    let mut data = Shard::new();
    data.insert("k", (1u32, 2u32));
    let r = data.get(&"k").unwrap();
    let m = r.map(|p| &p.1);
    assert_eq!(*m.value(), 2);
    assert_eq!(*m.key(), "k");
    let (k, v) = m.pair();
    assert_eq!((*k, *v), ("k", 2));
}

#[test]
fn chained_map_matches_composition() {
    let mut data = Shard::new();
    data.insert(7u64, ((10u8, 20u8), 30u8));
    let once = data.get(&7).unwrap().map(|p| &p.0).map(|q| &q.1);
    let whole = data.get(&7).unwrap().map(|p| &(p.0).1);
    assert_eq!(*once.value(), 20);
    assert_eq!(*once, *whole);
    assert_eq!(*once.key(), 7);
}

#[test]
fn failed_try_map_returns_same_reference() {
    let mut data = Shard::new();
    data.insert(1u32, [5u8, 6u8]);
    let r = data.get(&1).unwrap();
    let back = match r.try_map(|_| None::<&u8>) {
        Ok(_) => panic!("projection should have failed"),
        Err(r) => r,
    };
    assert_eq!(back.value(), &[5u8, 6u8]);
    assert_eq!(*back.key(), 1);
    let m = back.map(|a| &a[1]);
    assert_eq!(*m.value(), 6);
}

#[test]
fn failed_try_map_mut_keeps_write_access() {
    let mut data = Shard::new();
    data.insert("bytes", [0xffu8, b'a']);
    if let Some(w) = data.get_mut(&"bytes") {
        let mut w = match w.try_map(|b| utf8_mut(b)) {
            Ok(_) => panic!("invalid text must not project"),
            Err(w) => w,
        };
        assert_eq!(w.value(), &[0xffu8, b'a']);
        w.value_mut()[0] = b'z';
        assert_eq!(*w, *b"za");
    }
    assert_eq!(data.get(&"bytes").unwrap().value(), b"za");
}

#[test]
fn failed_mapped_try_map_keeps_part() {
    let mut data = Shard::new();
    data.insert(3u8, *b"abc");
    if let Some(w) = data.get_mut(&3) {
        let s = w.try_map(|b| utf8_mut(b)).unwrap();
        let mut s = match s.try_map(|s: &mut str| if s.len() > 10 { Ok(&mut s[..10]) } else { Err(s) }) {
            Ok(_) => panic!("prefix longer than the text"),
            Err(s) => s,
        };
        assert_eq!(s.value(), "abc");
        s.make_ascii_uppercase();
        assert_eq!(*s.key(), 3);
    }
    assert_eq!(data.get(&3).unwrap().value(), b"ABC");
}

#[test]
fn downgrade_reads_last_write() {
    let mut data = Shard::new();
    data.insert(9i64, 100i64);
    let mut w = data.get_mut(&9).unwrap();
    *w += 5;
    let r = w.downgrade();
    assert_eq!(*r.value(), 105);
    assert_eq!(*r.key(), 9);
    drop(r);
    assert_eq!(*data.get(&9).unwrap(), 105);
}

#[test]
fn split_halves_are_independent() {
    let mut data = Shard::new();
    data.insert("buf", vec![1u8, 2, 3, 4, 5]);
    if let Some(w) = data.get_mut(&"buf") {
        let (mut left, right) = w.map_split(|v| v.split_at_mut(2));
        assert_eq!(*left.key(), "buf");
        assert_eq!(*right.key(), "buf");
        left.value_mut()[0] = 9;
        left[1] = 8;
        assert_eq!(right.value(), &[3u8, 4, 5]);
        assert_eq!(left.value(), &[9u8, 8]);
        drop(left);
        assert_eq!(right.pair().1, &[3u8, 4, 5]);
    }
    assert_eq!(data.get(&"buf").unwrap().value(), &vec![9u8, 8, 3, 4, 5]);
}

#[test]
fn split_read_halves_share_key() {
    let mut data = Shard::new();
    data.insert(4u16, (String::from("left"), 12u32));
    let (a, b) = data.get(&4).unwrap().map_split(|p| (&p.0, &p.1));
    assert_eq!(a.pair(), (&4u16, &String::from("left")));
    assert_eq!(*b.key(), 4);
    assert_eq!(*b, 12);
    drop(a);
    assert_eq!(*b.value(), 12);
}

#[test]
fn mapped_mut_map_and_pair_mut() {
    let mut data = Shard::new();
    data.insert('x', (1i32, (2i32, 3i32)));
    if let Some(w) = data.get_mut(&'x') {
        let inner = w.map(|p| &mut p.1);
        let mut last = inner.map(|q| &mut q.1);
        {
            let (k, v) = last.pair_mut();
            assert_eq!(*k, 'x');
            *v = 30;
        }
        assert_eq!(*last.value(), 30);
        *last += 1;
        assert_eq!(last.pair(), (&'x', &31));
    }
    assert_eq!(*data.get(&'x').unwrap(), (1, (2, 31)));
}

#[test]
fn ref_mut_pair_and_key() {
    let mut data = Shard::new();
    data.insert(1u8, 10u8);
    let mut w = data.get_mut(&1).unwrap();
    assert_eq!(*w.key(), 1);
    {
        let (k, v) = w.pair_mut();
        *v += *k;
    }
    assert_eq!(w.pair(), (&1u8, &11u8));
    assert_eq!(*w, 11);
}

#[test]
fn missing_key_gives_none() {
    let mut data: Shard<&str, u32> = Shard::new();
    assert!(data.get(&"absent").is_none());
    assert!(data.get_mut(&"absent").is_none());
    data.insert("present", 1);
    assert!(data.get(&"absent").is_none());
    assert!(data.get_mut(&"absent").is_none());
}

#[test]
fn insert_replaces_and_returns_old_value() {
    let mut data = Shard::new();
    assert_eq!(data.insert(5u32, "a"), None);
    assert_eq!(data.insert(6u32, "b"), None);
    assert_eq!(data.insert(5u32, "c"), Some("a"));
    assert_eq!(*data.get(&5).unwrap(), "c");
    assert_eq!(*data.get(&6).unwrap(), "b");
}
