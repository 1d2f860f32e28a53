use flatus::prng::Mulberry32;

#[test]
fn deterministic_with_same_seed() {
    let mut a = Mulberry32::new(42);
    let mut b = Mulberry32::new(42);
    for _ in 0..1024 {
        assert_eq!(a.next_u32(), b.next_u32());
    }
}

#[test]
fn first_draws_match_reference_mulberry32() {
    let mut r = Mulberry32::new(1);
    assert_eq!(r.next_u32(), 2_693_262_067);
    assert_eq!(r.next_u32(), 11_749_833);
    assert_eq!(r.next_u32(), 2_265_367_787);
    let mut r = Mulberry32::new(42);
    assert_eq!(r.next_u32(), 2_581_720_956);
    assert_eq!(r.next_u32(), 1_925_393_290);
    assert_eq!(r.next_u32(), 3_661_312_704);
}

#[test]
fn zero_seed_avoids_degenerate_state() {
    let mut zero = Mulberry32::new(0);
    assert_eq!(zero.next_u32(), 1_541_420_728);
    assert_eq!(zero.next_u32(), 454_851_044);
    // Halves that cancel fold to zero as well and take the same replacement.
    let mut folded = Mulberry32::new((5u64 << 32) | 5);
    assert_eq!(folded.next_u32(), 1_541_420_728);
}

#[test]
fn upper_seed_bits_change_the_stream() {
    let mut low = Mulberry32::new(7);
    let mut high = Mulberry32::new((1u64 << 40) | 7);
    let a: Vec<u32> = (0..8).map(|_| low.next_u32()).collect();
    let b: Vec<u32> = (0..8).map(|_| high.next_u32()).collect();
    assert_ne!(a, b);
}

#[test]
fn clone_continues_the_same_stream() {
    let mut a = Mulberry32::new(99);
    a.next_u32();
    let mut b = a.clone();
    for _ in 0..16 {
        assert_eq!(a.next_u32(), b.next_u32());
    }
}
