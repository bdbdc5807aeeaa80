use smart_pointers::SharedPointer;
use std::cell::{Cell, RefCell};
use std::rc::Rc;
use std::sync::RwLock;

/// Counts how often it is dropped.
struct Tracker {
    drops: Rc<Cell<u32>>,
}

impl Drop for Tracker {
    fn drop(&mut self) {
        self.drops.set(self.drops.get() + 1);
    }
}

#[test]
fn shared_pointer_pointer_creation() {
    // Generate a random value
    let value = rand::random::<i32>();

    // store it in a SharedPointer
    let pointer = SharedPointer::new(value);

    // check whether the value was stored correctly
    assert_eq!(*pointer, value);
}

#[test]
fn shared_pointer_pointer_manipulation() {
    // Generate a random value
    let mut value = rand::random::<i64>();

    // Store it in a RefCell in a SharedPointer
    let pointer = SharedPointer::new(RefCell::new(value));

    // Take a reference to the value in the RefCell
    let mut reference = pointer.borrow_mut();

    // Check whether it was stored correctly
    assert_eq!(*reference, value);

    // Generate a new value and store it in the pointer
    value = rand::random();
    *reference = value;

    // Check whether the value was changed correctly
    assert_eq!(*reference, value);
}

#[test]
fn shared_pointer_default() {
    // Get the default value of a type
    let value = u16::default();

    // Create a default SharedPointer to the same type
    let pointer = SharedPointer::<u16>::default();

    // Check whether the values are the same
    assert_eq!(*pointer, value);
}

#[test]
fn shared_pointer_cloning() {
    // Generate a random value
    let value = rand::random::<f64>();

    // Store it in a SharedPointer
    let pointer = SharedPointer::new(value);

    // Get the reference count
    let mut reference_count = pointer.reference_count();

    // Check whether it is 1
    assert_eq!(reference_count, 1);
    {
        // Clone the Shared Pointer
        let cloned_pointer = pointer.clone();

        // Check whether the values and pointers are the same
        assert_eq!(*pointer, *cloned_pointer);
        assert!(pointer.same_record(&cloned_pointer));
        assert!(std::ptr::eq(pointer.as_ref(), cloned_pointer.as_ref()));

        // Get the reference count
        reference_count = pointer.reference_count();

        // Check whether the reference count is 2
        assert_eq!(reference_count, 2);
        assert_eq!(cloned_pointer.reference_count(), 2);
    }

    // Get the reference count
    reference_count = pointer.reference_count();

    // Check whether the reference count is 1
    assert_eq!(reference_count, 1);
}

#[test]
fn shared_pointer_debug() {
    // Generate a random value
    let value = rand::random::<u8>();

    // Store it in a SharedPointer
    let pointer = SharedPointer::new(value);

    // Check whether the pointer is printed as expected
    assert_eq!(format!("{:?}", pointer), format!("SharedPointer({value})"));
}

#[test]
fn shared_pointer_format_is_the_label_around_the_pointee() {
    assert_eq!(SharedPointer::new(42u8).format().as_deref(), Some("SharedPointer(42)"));
    assert_eq!(SharedPointer::new(-7i64).format().as_deref(), Some("SharedPointer(-7)"));
    assert_eq!(
        SharedPointer::new(String::from("a b")).format().as_deref(),
        Some("SharedPointer(\"a b\")")
    );
    let pointer = SharedPointer::new((1u8, 'x'));
    assert_eq!(pointer.format(), Some(format!("{:?}", pointer)));
    assert_eq!(pointer.clone().format().as_deref(), Some("SharedPointer((1, 'x'))"));
}

#[test]
fn shared_pointer_default_of_other_types() {
    assert_eq!(*SharedPointer::<i64>::default(), 0);
    assert_eq!(*SharedPointer::<String>::default(), "");
    assert_eq!(SharedPointer::<Vec<u8>>::default().reference_count(), 1);
}

#[test]
fn shared_pointer_starts_with_one_owner() {
    assert_eq!(SharedPointer::new(0u8).reference_count(), 1);
    assert_eq!(SharedPointer::new(String::new()).reference_count(), 1);
}

#[test]
fn shared_pointer_counts_every_clone() {
    let pointer = SharedPointer::new(5u32);
    let mut clones = Vec::new();
    for expected in 2..=10 {
        clones.push(pointer.clone());
        assert_eq!(pointer.reference_count(), expected);
        assert_eq!(clones[0].reference_count(), expected);
    }
    for expected in (1..=9).rev() {
        clones.pop();
        assert_eq!(pointer.reference_count(), expected);
    }
}

#[test]
fn shared_pointer_clone_of_a_clone_is_the_same_record() {
    let pointer = SharedPointer::new(vec![1, 2, 3]);
    let second = pointer.clone();
    let third = second.clone();
    assert!(pointer.same_record(&third));
    assert!(third.same_record(&second));
    assert_eq!(*third, vec![1, 2, 3]);
    assert_eq!(third.reference_count(), 3);
}

#[test]
fn shared_pointer_equal_values_are_not_one_record() {
    let left = SharedPointer::new(7u32);
    let right = SharedPointer::new(7u32);
    assert_eq!(*left, *right);
    assert!(!left.same_record(&right));
    assert!(left.same_record(&left));
    assert_eq!(left.reference_count(), 1);
    assert_eq!(right.reference_count(), 1);
}

#[test]
fn shared_pointer_write_behind_a_lock_is_seen_by_every_owner() {
    let pointer = SharedPointer::new(RefCell::new(1u32));
    let alias = pointer.clone();
    *alias.borrow_mut() = 2;
    assert_eq!(*pointer.borrow(), 2);
}

#[test]
fn shared_pointer_record_outlives_the_first_handle() {
    let alias = {
        let pointer = SharedPointer::new(String::from("kept"));
        pointer.clone()
    };
    assert_eq!(*alias, "kept");
    assert_eq!(alias.reference_count(), 1);
}

#[test]
fn shared_pointer_drops_the_pointee_with_the_last_handle() {
    let drops = Rc::new(Cell::new(0));
    let pointer = SharedPointer::new(Tracker { drops: Rc::clone(&drops) });
    let second = pointer.clone();
    let third = second.clone();
    assert_eq!(third.drops.get(), 0);

    drop(pointer);
    assert_eq!(drops.get(), 0);
    assert_eq!(second.reference_count(), 2);

    drop(third);
    assert_eq!(drops.get(), 0);
    assert_eq!(second.reference_count(), 1);

    drop(second);
    assert_eq!(drops.get(), 1);
}

#[test]
fn shared_pointer_to_a_zero_sized_value() {
    let pointer = SharedPointer::new(());
    assert_eq!(*pointer, ());
    let alias = pointer.clone();
    assert_eq!(*alias, ());
    assert_eq!(pointer.reference_count(), 2);
    assert_eq!(pointer.format().as_deref(), Some("SharedPointer(())"));
}

#[test]
fn shared_pointer_debug_ignores_the_pretty_flag() {
    let pointer = SharedPointer::new(vec![1u8, 2]);
    assert_eq!(format!("{:?}", pointer), "SharedPointer([1, 2])");
    assert_eq!(format!("{:#?}", pointer), "SharedPointer([1, 2])");
}

#[test]
fn shared_pointer_may_cross_threads() {
    fn crosses_threads<T: Send + Sync>(_value: &T) -> bool {
        true
    }
    let pointer = SharedPointer::new(RwLock::new(vec![1]));
    assert!(crosses_threads(&pointer));
    assert!(crosses_threads(&pointer.clone()));
}

#[test]
fn shared_pointer_clones_append_in_turn() {
    const SIZE: usize = 1_000;
    let vec = SharedPointer::new(RwLock::new(vec![]));
    for _ in 0..SIZE {
        let vec = vec.clone();
        for _ in 0..SIZE {
            let vec = vec.clone();
            if let Ok(mut vec) = vec.write() {
                vec.push(1);
            };
        }
        assert_eq!(vec.reference_count(), 2);
    }

    let slice = vec.read().unwrap();
    let slice = slice.as_slice();
    assert_eq!(slice.len(), SIZE * SIZE);
    assert!(slice.iter().all(|&value| value == 1));
    assert_eq!(vec.reference_count(), 1);
}
