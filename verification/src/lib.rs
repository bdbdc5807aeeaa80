//! Two owning heap handles with value semantics.
//!
//! [`UniquePointer`] is the sole owner of one heap block: moving the handle
//! moves the ownership, cloning it allocates a second block, and the block is
//! released when the handle goes out of scope.
//!
//! [`SharedPointer`] is one of several owners of a reference-counted record.
//! Cloning it allocates nothing; the record is released together with its last
//! handle. It counts atomically and may cross threads. Because its count lives
//! behind a shared reference, contracts on it speak of the pointee only.
//!
//! [`LocalHeap`] holds reference-counted records for a single thread of
//! control and counts them with plain arithmetic. There the count is part of
//! the state that every operation receives, so the whole counting protocol is
//! stated and proved: one more owner per clone, one fewer per destroyed handle,
//! and the record freed exactly when the last owner leaves.
pub mod demo;
pub mod heap_view;
pub mod local_heap;
pub mod rendering;
pub mod shared_pointer;
pub mod unique_pointer;

pub use heap_view::{HeapView, PointerView, RecordView};
pub use local_heap::{LocalHeap, LocalPointer};
pub use shared_pointer::SharedPointer;
pub use unique_pointer::UniquePointer;
