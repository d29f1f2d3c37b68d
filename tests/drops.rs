use std::cell::RefCell;
use std::rc::Rc;

use small_iter::IntoSmallIterExt;

/// Records its label in a shared log when dropped.
#[derive(Debug)]
struct Logged {
    label: i32,
    log: Rc<RefCell<Vec<i32>>>,
}

impl Drop for Logged {
    fn drop(&mut self) {
        self.log.borrow_mut().push(self.label);
    }
}

fn logged(labels: &[i32], log: &Rc<RefCell<Vec<i32>>>) -> Box<[Logged]> {
    labels
        .iter()
        .map(|&label| Logged { label, log: Rc::clone(log) })
        .collect()
}

#[test]
fn drop_after_one_yield_drops_the_rest_once() {
    let log = Rc::new(RefCell::new(Vec::new()));
    let mut iter = logged(&[1, 2, 3], &log).into_small_iter();
    let first = iter.next().unwrap();
    assert_eq!(first.label, 1);
    drop(iter);
    assert_eq!(*log.borrow(), vec![2, 3]);
    drop(first);
    assert_eq!(*log.borrow(), vec![2, 3, 1]);
}

#[test]
fn drop_without_yield_drops_all_once() {
    let log = Rc::new(RefCell::new(Vec::new()));
    let iter = logged(&[1, 2, 3], &log).into_small_iter();
    drop(iter);
    assert_eq!(*log.borrow(), vec![1, 2, 3]);
}

#[test]
fn drop_after_exhaustion_drops_nothing() {
    let log = Rc::new(RefCell::new(Vec::new()));
    let mut iter = logged(&[1, 2, 3], &log).into_small_iter();
    let mut out = Vec::new();
    while let Some(t) = iter.next() {
        out.push(t);
    }
    assert!(log.borrow().is_empty());
    drop(iter);
    assert!(log.borrow().is_empty());
    drop(out);
    assert_eq!(*log.borrow(), vec![1, 2, 3]);
}
