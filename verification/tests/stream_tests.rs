use greachers::stream::{SeedStream, SliceExt};

#[test]
fn first_draws_of_seed_zero_are_exact() {
    let mut rng = SeedStream::new(0);
    assert_eq!(rng.range(0, 100), 32);
    assert_eq!(rng.small_range(0, 10), 3);
    assert_eq!(rng.byte_range(0, 255), 140);
    assert_eq!(rng.range(3, 5), 3);
}

#[test]
fn same_seed_gives_the_same_draws() {
    for seed in [0u64, 1, 2, 77, u64::MAX] {
        let mut a = SeedStream::new(seed);
        let mut b = SeedStream::new(seed);
        for _ in 0..100 {
            assert_eq!(a.range(0, 1_000_000), b.range(0, 1_000_000));
            assert_eq!(a.small_range(-5, 5), b.small_range(-5, 5));
            assert_eq!(a.byte_range(0, 255), b.byte_range(0, 255));
        }
    }
}

#[test]
fn different_seeds_give_different_streams() {
    let mut a = SeedStream::new(1);
    let mut b = SeedStream::new(2);
    let xs: Vec<usize> = (0..20).map(|_| a.range(0, 1_000_000)).collect();
    let ys: Vec<usize> = (0..20).map(|_| b.range(0, 1_000_000)).collect();
    assert_ne!(xs, ys);
}

#[test]
fn draws_stay_in_their_range() {
    let mut rng = SeedStream::new(5);
    for _ in 0..500 {
        let n = rng.range(3, 5);
        assert!(n == 3 || n == 4);
        let s = rng.small_range(-2, 2);
        assert!((-2..2).contains(&s));
        let b = rng.byte_range(10, 12);
        assert!((10..=12).contains(&b));
    }
}

#[test]
fn a_range_of_one_number_gives_that_number() {
    let mut rng = SeedStream::new(8);
    assert_eq!(rng.range(7, 8), 7);
    assert_eq!(rng.small_range(-1, 0), -1);
    assert_eq!(rng.byte_range(200, 200), 200);
}

#[test]
fn draws_reach_every_number_of_a_small_range() {
    let mut rng = SeedStream::new(13);
    let mut seen = [false; 4];
    for _ in 0..200 {
        seen[rng.range(0, 4)] = true;
    }
    assert_eq!(seen, [true; 4]);
}

#[test]
fn random_picks_the_item_at_the_drawn_index() {
    let items: Vec<u32> = (100..150).collect();
    for seed in 0..20u64 {
        let mut a = SeedStream::new(seed);
        let mut b = SeedStream::new(seed);
        let picked = *items.as_slice().random(&mut a);
        let at = b.range(0, items.len());
        assert_eq!(picked, items[at]);
        assert_eq!(a.range(0, 1000), b.range(0, 1000));
    }
}

#[test]
fn random_on_one_item_picks_it() {
    let items = ["only"];
    let mut rng = SeedStream::new(0);
    assert_eq!(*items.random(&mut rng), "only");
}
