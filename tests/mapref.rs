use dashmap::shard::Shard;

struct Data(String, String);

fn utf8_mut<const N: usize>(b: &mut [u8; N]) -> Result<&mut str, &mut [u8; N]> {
    if std::str::from_utf8(b).is_ok() {
        Ok(std::str::from_utf8_mut(b).unwrap())
    } else {
        Err(b)
    }
}

fn prefix_mut(s: &mut str, n: usize) -> Result<&mut str, &mut str> {
    if s.get(..n).is_some() {
        Ok(s.get_mut(..n).unwrap())
    } else {
        Err(s)
    }
}

#[test]
fn downgrade() {
    let mut data = Shard::new();
    data.insert("test", "test");
    if let Some(mut w_ref) = data.get_mut(&"test") {
        *w_ref.value_mut() = "test2";
        let r_ref = w_ref.downgrade();
        assert_eq!(*r_ref.value(), "test2");
    };
}

#[test]
fn mapped_mut() {
    let mut data = Shard::new();
    data.insert("test", *b"test");
    if let Some(b_ref) = data.get_mut(&"test") {
        let mut s_ref = b_ref.try_map(|b| utf8_mut(b)).unwrap();
        s_ref.value_mut().make_ascii_uppercase();
    }

    assert_eq!(data.get(&"test").unwrap().value(), b"TEST");
}

#[test]
fn mapped_mut_again() {
    let mut data = Shard::new();
    data.insert("test", *b"hello world");
    if let Some(b_ref) = data.get_mut(&"test") {
        let s_ref = b_ref.try_map(|b| utf8_mut(b)).unwrap();
        let mut hello_ref = s_ref.try_map(|s| prefix_mut(s, 5)).unwrap();
        hello_ref.value_mut().make_ascii_uppercase();
    }

    assert_eq!(data.get(&"test").unwrap().value(), b"HELLO world");
}

#[test]
fn mapped_ref() {
    let mut data = Shard::new();
    data.insert("test", *b"test");
    if let Some(b_ref) = data.get(&"test") {
        let s_ref = b_ref.try_map(|b| std::str::from_utf8(b).ok()).unwrap();

        assert_eq!(s_ref.value(), "test");
    };
}

#[test]
fn ref_map_split() {
    let mut data = Shard::new();
    data.insert("test", Data("hello".to_string(), "world".to_string()));
    if let Some(b_ref) = data.get(&"test") {
        let (l_ref, r_ref) = b_ref.map_split(|d| (&d.0, &d.1));

        assert_eq!(l_ref.value(), "hello");
        assert_eq!(r_ref.value(), "world");
    };
}

#[test]
fn ref_mut_map_split() {
    let mut data = Shard::new();
    data.insert("test", "hello world".to_string());
    if let Some(b_ref) = data.get_mut(&"test") {
        let (mut l_ref, r_ref) = b_ref.map_split(|d| d.split_at_mut(5));

        assert_eq!(l_ref.value(), "hello");
        assert_eq!(r_ref.value(), " world");
        l_ref.make_ascii_uppercase();
    };
    let Some(b_ref) = data.get(&"test") else { panic!("") };
    assert_eq!(b_ref.value(), "HELLO world");
}

#[test]
fn mapped_ref_again() {
    let mut data = Shard::new();
    data.insert("test", *b"hello world");
    if let Some(b_ref) = data.get(&"test") {
        let s_ref = b_ref.try_map(|b| std::str::from_utf8(b).ok()).unwrap();
        let hello_ref = s_ref.try_map(|s| s.get(..5)).unwrap();

        assert_eq!(hello_ref.value(), "hello");
    };
}
