//! The fixed-capacity vector, the flat buffers and the rolling history.

use toolbox::containers::buffer::Buffer2;
use toolbox::containers::buffer::Buffer3;
use toolbox::containers::heapless::HeaplessVec;
use toolbox::containers::rolling_history::RollingHistory;

#[test]
fn vec_iter() {
    let mut vec = HeaplessVec::<i32, 20>::new();
    vec.push(1);
    vec.push(2);
    vec.push(3);
    let mut iter = vec.iter();
    assert!(iter.next().unwrap() == 1);
    assert!(iter.next().unwrap() == 2);
    assert!(iter.next().unwrap() == 3);
    assert!(iter.next().is_none());
}

#[test]
fn vec_iter_mut() {
    let mut vec = HeaplessVec::<i32, 5>::new();
    vec.push(1);
    vec.push(1);
    for index in 0..vec.len() {
        let value = vec.get(index);
        vec.set(index, value + 1);
    }
    let mut iter = vec.iter();
    assert!(iter.next().unwrap() == 2);
    assert!(iter.next().unwrap() == 2);
    assert!(iter.next().is_none());
}

#[test]
fn vec_index() {
    let mut vec = HeaplessVec::<i32, 5>::new();
    vec.push(10);
    assert!(vec.get(0) == 10);
}

#[test]
fn vec_index_mut() {
    let mut vec = HeaplessVec::<i32, 5>::new();
    vec.push(10);
    vec.set(0, 100);
    assert!(vec.get(0) == 100);
}

#[test]
fn vec_capacity_and_pop() {
    let mut vec = HeaplessVec::<i32, 2>::new();
    assert!(vec.is_empty());
    assert!(vec.pop().is_none());
    assert!(vec.push(1) == Some(()));
    assert!(vec.push(2) == Some(()));
    assert!(vec.push(3).is_none());
    assert!(vec.len() == 2);
    assert!(vec.pop() == Some(2));
    assert!(vec.len() == 1);
    vec.clear();
    assert!(vec.is_empty());
}

#[test]
fn buffer2_access() {
    let mut buffer = Buffer2::new(4, 3, 0u8);
    assert!(buffer.inbounds(3, 2));
    assert!(!buffer.inbounds(4, 0));
    assert!(buffer.get(4, 0).is_none());
    assert!(buffer.get(1, 2) == Some(0));
    assert!(buffer.set(1, 2, 9) == Some(()));
    assert!(buffer.get(1, 2) == Some(9));
    assert!(buffer.get_unchecked(1, 2) == 9);
    assert!(buffer.set(9, 9, 7).is_none());
    buffer.set_unchecked(0, 0, 5);
    assert!(buffer.get_unchecked(0, 0) == 5);
    buffer.clear();
    assert!(buffer.get(1, 2) == Some(0));
    assert!(buffer.get(0, 0) == Some(0));
}

#[test]
fn buffer3_access() {
    let mut buffer = Buffer3::new(2, 3, 4, 1u16);
    assert!(buffer.inbounds(1, 2, 3));
    assert!(!buffer.inbounds(1, 2, 4));
    assert!(buffer.get(0, 0, 4).is_none());
    assert!(buffer.get(1, 2, 3) == Some(1));
    assert!(buffer.set(1, 0, 2, 8) == Some(()));
    assert!(buffer.get_unchecked(1, 0, 2) == 8);
    assert!(buffer.set(2, 0, 0, 8).is_none());
    buffer.clear();
    assert!(buffer.get(1, 0, 2) == Some(1));
}

#[test]
fn rolling_history_drops_the_oldest() {
    let mut history = RollingHistory::build(2);
    assert!(history.push(1) == Some(()));
    assert!(history.push(2) == Some(()));
    assert!(history.push(3) == Some(()));
    // The log now holds three entries, one past the bound: the next push
    // drops the oldest.
    assert!(history.push(4).is_none());
    let entries: Vec<i32> = history.log.iter().copied().collect();
    assert!(entries == vec![2, 3, 4]);
    assert!(history.len == 2);
}
