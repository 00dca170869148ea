use osch::sync::{AtomicF32, Sharer};
use std::sync::atomic::Ordering;

#[test]
fn sync_atomic_f32_load() {
    let a = AtomicF32::from_bits(3.212f32.to_bits());
    assert_eq!(f32::from_bits(a.load_bits(Ordering::Relaxed)), 3.212)
}

#[test]
fn atomic_f32_store() {
    let a = AtomicF32::from_bits(3.212f32.to_bits());
    a.store_bits(4.1f32.to_bits(), Ordering::Relaxed);
    assert_eq!(f32::from_bits(a.load_bits(Ordering::Relaxed)), 4.1)
}

#[test]
fn atomic_f32_swap() {
    let a = AtomicF32::from_bits(3.212f32.to_bits());
    assert_eq!(f32::from_bits(a.swap_bits(4.1f32.to_bits(), Ordering::Relaxed)), 3.212);
    assert_eq!(f32::from_bits(a.load_bits(Ordering::Relaxed)), 4.1)
}

#[test]
fn utils_atomic_f32_load() {
    let a = AtomicF32::from_bits(3.212f32.to_bits());
    assert_eq!(f32::from_bits(a.load_bits(Ordering::Relaxed)), 3.212)
}

#[test]
fn test_stuff() {
    let mut _sharer = Sharer::new(AtomicF32::from_bits(3.1f32.to_bits()), 1);
    let shared = _sharer.get_shared();
    _sharer.owned += 1;
    _sharer.shared.load_bits(Ordering::Relaxed);
    shared.store_bits(444f32.to_bits(), Ordering::Relaxed);
    assert_eq!(_sharer.owned, 2);
    assert_eq!(f32::from_bits(_sharer.shared.load_bits(Ordering::Relaxed)), 444.);
}

#[test]
fn store_then_load_round_trips_floats() {
    let a = AtomicF32::from_bits(0.0f32.to_bits());
    for x in [0.0f32, -0.0, 1.5, -7.25, f32::MIN_POSITIVE, f32::MAX, f32::MIN, 1e-45] {
        a.store_bits(x.to_bits(), Ordering::Relaxed);
        let y = f32::from_bits(a.load_bits(Ordering::Relaxed));
        assert_eq!(y, x);
        assert_eq!(y.to_bits(), x.to_bits());
    }
}

#[test]
fn swap_returns_previous_value() {
    let a = AtomicF32::from_bits(1.0f32.to_bits());
    assert_eq!(f32::from_bits(a.swap_bits(2.0f32.to_bits(), Ordering::SeqCst)), 1.0);
    assert_eq!(f32::from_bits(a.swap_bits((-3.5f32).to_bits(), Ordering::SeqCst)), 2.0);
    assert_eq!(f32::from_bits(a.load_bits(Ordering::SeqCst)), -3.5);
}

#[test]
fn shared_handles_see_one_value() {
    let sharer = Sharer::new(AtomicF32::from_bits(1.0f32.to_bits()), "owned");
    let h1 = sharer.get_shared();
    let h2 = sharer.get_shared();
    h1.store_bits(5.0f32.to_bits(), Ordering::Relaxed);
    assert_eq!(f32::from_bits(h2.load_bits(Ordering::Relaxed)), 5.0);
    assert_eq!(f32::from_bits(sharer.shared.load_bits(Ordering::Relaxed)), 5.0);
    assert_eq!(std::sync::Arc::strong_count(&sharer.shared), 3);
    assert_eq!(sharer.owned, "owned");
}
