use cardinals::{Cardinal, CardinalValues};

const ALL: [Cardinal; 4] = [Cardinal::East, Cardinal::North, Cardinal::West, Cardinal::South];

fn sample() -> CardinalValues<i32> {
    CardinalValues { east: 1, north: 2, west: 3, south: 4 }
}

#[test]
fn index_each_direction() {
    let v = sample();
    assert_eq!(*v.index(Cardinal::East), 1);
    assert_eq!(*v.index(Cardinal::North), 2);
    assert_eq!(*v.index(Cardinal::West), 3);
    assert_eq!(*v.index(Cardinal::South), 4);
}

#[test]
fn map_then_index() {
    let v = sample();
    let f = |x: i32| x * 10 + 1;
    let m = v.map(f);
    for c in ALL {
        assert_eq!(*m.index(c), f(*v.index(c)));
    }
    assert_eq!(m, CardinalValues { east: 11, north: 21, west: 31, south: 41 });
}

#[test]
fn map_changes_type() {
    let v = sample();
    let m = v.map(|x: i32| x % 2 == 0);
    assert_eq!(m, CardinalValues { east: false, north: true, west: false, south: true });
}

#[test]
fn into_iter_order() {
    let mut it = sample().into_iter();
    assert_eq!(it.next(), Some(1));
    assert_eq!(it.next(), Some(2));
    assert_eq!(it.next(), Some(3));
    assert_eq!(it.next(), Some(4));
    assert_eq!(it.next(), None);
    assert_eq!(it.next(), None);
}

#[test]
fn enumerate_order() {
    let mut it = sample().into_iter().enumerate();
    assert_eq!(it.next(), Some((Cardinal::East, 1)));
    assert_eq!(it.next(), Some((Cardinal::North, 2)));
    assert_eq!(it.next(), Some((Cardinal::West, 3)));
    assert_eq!(it.next(), Some((Cardinal::South, 4)));
    assert_eq!(it.next(), None);
}

#[test]
fn enumerate_after_next_skips_consumed() {
    let mut it = sample().into_iter();
    assert_eq!(it.next(), Some(1));
    let mut e = it.enumerate();
    assert_eq!(e.next(), Some((Cardinal::North, 2)));
    assert_eq!(e.next(), Some((Cardinal::West, 3)));
    assert_eq!(e.next(), Some((Cardinal::South, 4)));
    assert_eq!(e.next(), None);
}

#[test]
fn iteration_keeps_every_value() {
    let v = CardinalValues { east: 7, north: 7, west: 9, south: 5 };
    let mut plain = Vec::new();
    let mut it = v.into_iter();
    while let Some(x) = it.next() {
        plain.push(x);
    }
    let mut pairs = Vec::new();
    let mut e = v.into_iter().enumerate();
    while let Some(p) = e.next() {
        pairs.push(p);
    }
    assert_eq!(plain.len(), 4);
    assert_eq!(pairs.len(), 4);
    let mut a = plain.clone();
    a.sort();
    assert_eq!(a, vec![5, 7, 7, 9]);
    let mut b: Vec<i32> = pairs.iter().map(|p| p.1).collect();
    b.sort();
    assert_eq!(b, vec![5, 7, 7, 9]);
    for (c, x) in pairs {
        assert_eq!(*v.index(c), x);
    }
}

#[test]
fn default_and_ordering() {
    let d: CardinalValues<u8> = CardinalValues::default();
    assert_eq!(d, CardinalValues { east: 0, north: 0, west: 0, south: 0 });
    let a = CardinalValues { east: 1, north: 9, west: 9, south: 9 };
    let b = CardinalValues { east: 2, north: 0, west: 0, south: 0 };
    assert!(a < b);
    let c = CardinalValues { east: 1, north: 9, west: 9, south: 8 };
    assert!(c < a);
}
