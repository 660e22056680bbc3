use atomic_id::AtomicId;
use atomic_id::SharedState;

#[test]
fn test_gen64() {
    let state = SharedState::new();
    let id = AtomicId::<64>::new(&state, 1);
    println!("Generated ID: {}", id);
    let id = AtomicId::<64>::base36(&state, 1);
    println!("Generated ID: {}", id);
    let id = AtomicId::<64>::base58(&state, 1);
    println!("Generated ID: {}", id);
    let id = AtomicId::<64>::base91(&state, 1);
    println!("Generated ID: {}", id);
    let id = AtomicId::<64>::hex(&state, 1);
    println!("Generated ID: {}", id);
}

#[test]
fn test_gen128() {
    let state = SharedState::new();
    let id = AtomicId::<128>::base36(&state, 1);
    println!("Generated ID: {}", id);
}

#[test]
fn test_gen256() {
    let state = SharedState::new();
    let id = AtomicId::<256>::base36(&state, 1);
    println!("Generated ID: {}", id);
}
