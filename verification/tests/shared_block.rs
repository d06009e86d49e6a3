use sync_primitives::arc::Arc;

use std::cell::Cell;
use std::rc::Rc;

/// A payload that records how many times it has been finalized.
struct FinalizeProbe {
    hits: Rc<Cell<u32>>,
}

impl Drop for FinalizeProbe {
    fn drop(&mut self) {
        self.hits.set(self.hits.get() + 1);
    }
}

#[test]
fn test() {
    let hits = Rc::new(Cell::new(0u32));
    let mut block = Arc::new(("hello", FinalizeProbe { hits: Rc::clone(&hits) }));
    block.clone_handle();
    assert_eq!(block.read().0, "hello");
    assert_eq!(block.read().0, "hello");
    // One handle goes: the payload must survive, since the other remains.
    drop(block.drop_handle());
    assert_eq!(hits.get(), 0);
    assert_eq!(block.read().0, "hello");
    // The last handle goes: now the payload is finalized, exactly once.
    drop(block.drop_handle());
    assert_eq!(hits.get(), 1);
}

#[test]
fn get_mut_is_granted_exactly_to_the_sole_handle() {
    let mut block = Arc::new(10u64);
    block.clone_handle();
    assert!(Arc::get_mut(&mut block).is_none());
    drop(block.drop_handle());
    match Arc::get_mut(&mut block) {
        Some(v) => *v = 11,
        None => panic!("a sole handle must get the view"),
    }
    assert_eq!(*block.read(), 11);
}

#[test]
fn payload_is_never_finalized_early_and_never_twice() {
    let hits = Rc::new(Cell::new(0u32));
    let mut block = Arc::new(FinalizeProbe { hits: Rc::clone(&hits) });
    for _ in 0..5 {
        block.clone_handle();
    }
    for _ in 0..5 {
        assert!(block.drop_handle().is_none());
        assert_eq!(hits.get(), 0);
    }
    let last = block.drop_handle();
    assert!(last.is_some());
    drop(last);
    assert_eq!(hits.get(), 1);
}
