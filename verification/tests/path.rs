use cyme::error::Error;
use cyme::usb::path::PortPath;

#[test]
fn depth_and_root() {
    let root = PortPath::new(1, vec![]);
    assert_eq!(root.depth(), 0);
    assert!(root.is_root_hub());
    assert_eq!(root.parent(), None);
    let path = PortPath::new(2, vec![1, 4, 2]);
    assert_eq!(path.bus(), 2);
    assert_eq!(path.ports(), &vec![1, 4, 2]);
    assert_eq!(path.depth(), 3);
    assert!(!path.is_root_hub());
}

#[test]
fn parent_drops_the_last_port() {
    let path = PortPath::new(2, vec![1, 4, 2]);
    assert_eq!(path.parent(), Some(PortPath::new(2, vec![1, 4])));
    assert_eq!(path.parent().unwrap().parent(), Some(PortPath::new(2, vec![1])));
    assert_eq!(PortPath::new(2, vec![1]).parent(), Some(PortPath::new(2, vec![])));
    assert_eq!(path.trunk(), PortPath::new(2, vec![]));
}

#[test]
fn same_address() {
    let path = PortPath::new(2, vec![1, 4]);
    assert!(path.same_as(&PortPath::new(2, vec![1, 4])));
    assert!(!path.same_as(&PortPath::new(3, vec![1, 4])));
    assert!(!path.same_as(&PortPath::new(2, vec![1, 5])));
    assert!(!path.same_as(&PortPath::new(2, vec![1])));
    assert!(!path.same_as(&PortPath::new(2, vec![1, 4, 1])));
}

#[test]
fn order_is_by_bus_then_port_by_port() {
    let paths = [
        PortPath::new(1, vec![]),
        PortPath::new(1, vec![1]),
        PortPath::new(1, vec![1, 1]),
        PortPath::new(1, vec![1, 2]),
        PortPath::new(1, vec![2]),
        PortPath::new(2, vec![]),
        PortPath::new(2, vec![1]),
    ];
    for (i, a) in paths.iter().enumerate() {
        for (j, b) in paths.iter().enumerate() {
            assert_eq!(a.precedes(b), i < j, "{:?} {:?}", a, b);
        }
    }
}

#[test]
fn text_of_a_path() {
    assert_eq!(PortPath::new(1, vec![]).to_string(), "1-0");
    assert_eq!(PortPath::new(1, vec![2]).to_string(), "1-2");
    assert_eq!(PortPath::new(3, vec![1, 4, 2]).to_string(), "3-1.4.2");
    assert_eq!(PortPath::new(255, vec![100, 9, 10, 255]).to_string(), "255-100.9.10.255");
    assert_eq!(PortPath::new(0, vec![0, 7]).to_string(), "0-0.7");
}

#[test]
fn path_of_a_text() {
    assert_eq!(PortPath::parse("1-0"), Ok(PortPath::new(1, vec![])));
    assert_eq!(PortPath::parse("1-2"), Ok(PortPath::new(1, vec![2])));
    assert_eq!(PortPath::parse("3-1.4.2"), Ok(PortPath::new(3, vec![1, 4, 2])));
    assert_eq!(PortPath::parse("255-100.9.10.255"), Ok(PortPath::new(255, vec![100, 9, 10, 255])));
    assert_eq!(PortPath::parse("0-0.7"), Ok(PortPath::new(0, vec![0, 7])));
    assert_eq!(PortPath::parse("12-250"), Ok(PortPath::new(12, vec![250])));
}

#[test]
fn texts_that_are_no_paths() {
    for text in [
        "", "1", "1-", "-1", "1-2.", "1-.2", "1--2", "1-2-3", "1.2-3", "a-1", "1-a", "1-2 ", " 1-2",
        "01-2", "1-02", "1-2.03", "256-1", "1-256", "1-1000", "1-2..3", "１-2", "1-2\n",
    ] {
        assert_eq!(PortPath::parse(text), Err(Error::InvalidPath), "{:?}", text);
    }
}

#[test]
fn text_and_path_round_trip() {
    for bus in [0u8, 1, 9, 10, 99, 100, 255] {
        for ports in [vec![], vec![1], vec![0, 1], vec![255], vec![10, 20, 30], vec![1; 12]] {
            let path = PortPath::new(bus, ports);
            assert_eq!(PortPath::parse(&path.to_string()), Ok(path));
        }
    }
    for text in ["1-0", "7-1", "7-1.2.3", "200-200.200"] {
        assert_eq!(PortPath::parse(text).unwrap().to_string(), text);
    }
    // The port 0 alone is written as the root hub is, and read as the root hub.
    assert_eq!(PortPath::parse(&PortPath::new(4, vec![0]).to_string()), Ok(PortPath::new(4, vec![])));
}
