use amuseing::errors::OutOfBoundsError;
use amuseing::queue::{Queue, RepeatMode};

#[test]
fn queue_iteration_all_test() {
    let mut queue: Queue<u32> = Queue::new(RepeatMode::All);
    queue.extend(vec![1, 2, 3]);
    assert_eq!(queue.next_item(), Some(&1));
    assert_eq!(queue.next_item(), Some(&2));
    assert_eq!(queue.next_item(), Some(&3));
    assert_eq!(queue.next_item(), Some(&1));
    assert_eq!(queue.next_item(), Some(&2));
}

#[test]
fn queue_iteration_off_test() {
    let mut queue: Queue<u32> = Queue::new(RepeatMode::Off);
    queue.extend(vec![1, 2, 3]);
    assert_eq!(queue.next_item(), Some(&1));
    assert_eq!(queue.next_item(), Some(&2));
    assert_eq!(queue.next_item(), Some(&3));
    assert_eq!(queue.next_item(), None);
    assert_eq!(queue.next_item(), None);
}

#[test]
fn queue_iteration_single_test() {
    let mut queue: Queue<u32> = Queue::new(RepeatMode::Single);
    queue.extend(vec![1, 2, 3]);
    assert_eq!(queue.next_item(), Some(&1));
    assert_eq!(queue.next_item(), Some(&1));
    assert_eq!(queue.next_item(), Some(&1));
}

#[test]
fn test_skip() {
    let items: Vec<u32> = vec![1, 5, 3, 7, 8, 6, 9, 4];
    let mut queue = Queue::new(RepeatMode::Off);
    queue.extend(items);
    queue.skip(2);
    assert_eq!(queue.next_item(), Some(&3));
    // one position ahead of the current item (3, at index 2)
    queue.skip(1);
    assert_eq!(queue.next_item(), Some(&7));
}

#[test]
fn test_push() {
    let mut queue = Queue::new(RepeatMode::Off);
    queue.push(6);
    queue.push(4);
    assert_eq!(queue.items().as_slice(), &[6, 4]);
}

#[test]
fn test_remove() {
    let mut queue = Queue::new(RepeatMode::Off);
    queue.extend(vec![1, 6, 3, 9, 2]);
    // A fresh queue starts at index 0, so removing at 3 leaves it there.
    queue.remove(3);
    assert_eq!(queue.items().as_slice(), &[1, 6, 3, 2]);
    queue.jump(2).unwrap();
    queue.remove(0);
    assert_eq!(queue.items().as_slice(), &[6, 3, 2]);
    assert_eq!(queue.index(), 1);
}

// Under `All`, a row of len + k calls repeats the row of the first len
// calls.
#[test]
fn test_wraparound_period() {
    let mut queue: Queue<u32> = Queue::new(RepeatMode::All);
    queue.extend(vec![10, 20, 30]);
    let mut results: Vec<u32> = Vec::new();
    for _ in 0..8 {
        results.push(*queue.next_item().unwrap());
    }
    for i in 0..5 {
        assert_eq!(results[i + 3], results[i]);
    }
    assert_eq!(results, vec![10, 20, 30, 10, 20, 30, 10, 20]);
}

// Under `Off`, the queue is consumed once: after len calls every further
// call returns None; right after the len-th call the current item is still
// the last one, and once the index has clamped past it the current item is
// gone.
#[test]
fn test_off_exhaustion() {
    let mut queue: Queue<u32> = Queue::new(RepeatMode::Off);
    queue.extend(vec![1, 2, 3]);
    for _ in 0..3 {
        assert!(queue.next_item().is_some());
    }
    assert_eq!(queue.current(), Some(&3));
    assert_eq!(queue.next_item(), None);
    assert_eq!(queue.next_item(), None);
    assert_eq!(queue.current(), None);
    assert_eq!(queue.index(), 3);
}

// Under `Single`, every call returns the same item as the first, also when
// iteration starts away from the front.
#[test]
fn test_single_stable_after_jump() {
    let mut queue: Queue<u32> = Queue::new(RepeatMode::Single);
    queue.extend(vec![1, 2, 3]);
    queue.jump(1).unwrap();
    assert_eq!(queue.next_item(), Some(&2));
    assert_eq!(queue.next_item(), Some(&2));
    assert_eq!(queue.next_item(), Some(&2));
}

// jump(n) pins the following call to the item at n, whatever the repeat
// mode; n == len yields None, and only n beyond the length is rejected.
#[test]
fn test_jump_pins_next_item() {
    let mut queue: Queue<u32> = Queue::new(RepeatMode::All);
    queue.extend(vec![5, 6, 7]);
    assert_eq!(queue.next_item(), Some(&5));
    queue.jump(2).unwrap();
    assert_eq!(queue.next_item(), Some(&7));
    queue.jump(0).unwrap();
    assert_eq!(queue.next_item(), Some(&5));
    // at the length the pinned position holds nothing, also under `All`
    queue.jump(3).unwrap();
    assert_eq!(queue.next_item(), None);

    let mut off: Queue<u32> = Queue::new(RepeatMode::Off);
    off.extend(vec![5, 6, 7]);
    off.jump(3).unwrap();
    assert_eq!(off.next_item(), None);
    assert_eq!(
        off.jump(4),
        Err(OutOfBoundsError::High { value: 4, max: 3 })
    );
}

// rewind(n) pins the following call to the item n behind the current one,
// wrapping backward past index 0 when n exceeds the current index.
#[test]
fn test_rewind_wraps_backward() {
    let mut queue: Queue<u32> = Queue::new(RepeatMode::Off);
    queue.extend(vec![1, 2, 3]);
    assert_eq!(queue.next_item(), Some(&1));
    assert_eq!(queue.next_item(), Some(&2));
    // index is 1; two steps back wraps to the tail
    queue.rewind(2);
    assert_eq!(queue.next_item(), Some(&3));
    // one step back from the tail
    queue.rewind(1);
    assert_eq!(queue.next_item(), Some(&2));
}

// skip(0) pins the current item itself: the following call replays it.
#[test]
fn test_skip_zero_replays_current() {
    let mut queue: Queue<u32> = Queue::new(RepeatMode::Off);
    queue.extend(vec![1, 2, 3]);
    assert_eq!(queue.next_item(), Some(&1));
    queue.skip(0);
    assert_eq!(queue.index(), 0);
    assert_eq!(queue.next_item(), Some(&1));
}

// Under `Off`, skipping past the end clamps to the length and the queue is
// consumed; under `All` it wraps around.
#[test]
fn test_skip_clamps_or_wraps() {
    let mut off: Queue<u32> = Queue::new(RepeatMode::Off);
    off.extend(vec![1, 2, 3]);
    off.skip(10);
    assert_eq!(off.next_item(), None);
    assert_eq!(off.index(), 3);

    let mut all: Queue<u32> = Queue::new(RepeatMode::All);
    all.extend(vec![1, 2, 3]);
    all.skip(10);
    assert_eq!(all.next_item(), Some(&2));
}

// insert before or at the current index shifts it right, keeping the
// current item stable; insert after it leaves it alone.
#[test]
fn test_insert_adjusts_index() {
    let mut queue: Queue<u32> = Queue::new(RepeatMode::Off);
    queue.extend(vec![1, 2, 3]);
    queue.jump(1).unwrap();
    assert_eq!(queue.current(), Some(&2));
    queue.insert(0, 9);
    assert_eq!(queue.items().as_slice(), &[9, 1, 2, 3]);
    assert_eq!(queue.index(), 2);
    assert_eq!(queue.current(), Some(&2));
    queue.insert(3, 8);
    assert_eq!(queue.items().as_slice(), &[9, 1, 2, 8, 3]);
    assert_eq!(queue.index(), 2);
}

// Navigation on an empty queue is a no-op: next_item and current return
// None, jump(0) succeeds, skip and rewind stay at index 0.
#[test]
fn test_empty_queue_navigation() {
    let mut queue: Queue<u32> = Queue::new(RepeatMode::All);
    assert_eq!(queue.next_item(), None);
    assert_eq!(queue.current(), None);
    assert_eq!(queue.jump(0), Ok(()));
    queue.skip(5);
    assert_eq!(queue.index(), 0);
    queue.rewind(7);
    assert_eq!(queue.index(), 0);
    assert!(queue.is_empty());
}

#[test]
fn test_clear_resets_iteration() {
    let mut queue: Queue<u32> = Queue::new(RepeatMode::All);
    queue.extend(vec![1, 2, 3]);
    queue.next_item();
    queue.next_item();
    queue.clear();
    assert!(queue.is_empty());
    assert_eq!(queue.index(), 0);
    queue.extend(vec![4, 5]);
    assert_eq!(queue.next_item(), Some(&4));
}

#[test]
fn test_set_repeat_mode_keeps_position() {
    let mut queue: Queue<u32> = Queue::new(RepeatMode::Off);
    queue.extend(vec![1, 2, 3]);
    queue.next_item();
    queue.next_item();
    queue.set_repeat_mode(RepeatMode::All);
    assert_eq!(queue.repeat_mode(), RepeatMode::All);
    assert_eq!(queue.index(), 1);
    assert_eq!(queue.next_item(), Some(&3));
    assert_eq!(queue.next_item(), Some(&1));
}

#[test]
fn test_repeat_mode_cycle() {
    assert_eq!(RepeatMode::All.next(), RepeatMode::Single);
    assert_eq!(RepeatMode::Single.next(), RepeatMode::Off);
    assert_eq!(RepeatMode::Off.next(), RepeatMode::All);
}
