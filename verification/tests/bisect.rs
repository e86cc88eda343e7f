use std::cell::{Cell, RefCell};
use testify::krate::bisect::{Locator, Part, Step};
use testify::krate::run_or_locate_error;

/// An operation that fails on every part that holds `bad`, and counts its calls.
fn failing_on<'a>(
    bad: &'a [u32],
    calls: &'a Cell<usize>,
) -> impl Fn(&[u32]) -> Result<usize, String> + 'a {
    move |part: &[u32]| {
        calls.set(calls.get() + 1);
        match part.iter().find(|item| bad.contains(item)) {
            Some(item) => Err(format!("bad item {item}")),
            None => Ok(part.len()),
        }
    }
}

fn ceil_log2(n: usize) -> usize {
    let mut d = 0;
    while (1usize << d) < n {
        d += 1;
    }
    d
}

#[test]
fn a_success_on_the_whole_list_is_returned_at_once() {
    let items: Vec<u32> = (0..10).collect();
    let calls = Cell::new(0);
    let r = run_or_locate_error(&items, failing_on(&[], &calls));
    assert_eq!(r, Ok(10));
    assert_eq!(calls.get(), 1);
}

#[test]
fn a_single_item_that_fails_is_blamed() {
    let items = vec![7u32];
    let calls = Cell::new(0);
    let r = run_or_locate_error(&items, failing_on(&[7], &calls));
    assert_eq!(r, Err((vec![&7u32], "bad item 7".to_string())));
    assert_eq!(calls.get(), 1);
}

#[test]
fn the_one_failing_item_is_found_whichever_it_is() {
    for n in 1..40usize {
        let items: Vec<u32> = (0..n as u32).collect();
        for k in 0..n {
            let calls = Cell::new(0);
            let bad = [k as u32];
            let r = run_or_locate_error(&items, failing_on(&bad, &calls));
            assert_eq!(r, Err((vec![&items[k]], format!("bad item {k}"))));
            assert!(calls.get() <= 2 * ceil_log2(n) + 1, "n = {n}, k = {k}");
        }
    }
}

#[test]
fn the_last_item_is_found_in_one_try_per_cut() {
    for n in 1..200usize {
        let items: Vec<u32> = (0..n as u32).collect();
        let calls = Cell::new(0);
        let bad = [(n - 1) as u32];
        let r = run_or_locate_error(&items, failing_on(&bad, &calls));
        assert_eq!(r, Err((vec![&items[n - 1]], format!("bad item {}", n - 1))));
        assert_eq!(calls.get(), ceil_log2(n) + 1, "n = {n}");
    }
}

#[test]
fn the_first_of_four_items_takes_five_tries() {
    let items = vec![0u32, 1, 2, 3];
    let tried: RefCell<Vec<Vec<u32>>> = RefCell::new(vec![]);
    let r = run_or_locate_error(&items, |part: &[u32]| {
        tried.borrow_mut().push(part.to_vec());
        if part.contains(&0) {
            Err("bad")
        } else {
            Ok(())
        }
    });
    assert_eq!(r, Err((vec![&0u32], "bad")));
    assert_eq!(
        *tried.borrow(),
        vec![vec![0, 1, 2, 3], vec![2, 3], vec![0, 1], vec![1], vec![0]]
    );
}

#[test]
fn the_first_of_three_items_meets_the_tight_bound() {
    let items = vec![0u32, 1, 2];
    let calls = Cell::new(0);
    let r = run_or_locate_error(&items, failing_on(&[0], &calls));
    assert_eq!(r, Err((vec![&0u32], "bad item 0".to_string())));
    assert_eq!(calls.get(), 3);
}

#[test]
fn the_later_half_is_tried_first() {
    let items = vec![0u32, 1, 2, 3, 4];
    let tried: RefCell<Vec<Vec<u32>>> = RefCell::new(vec![]);
    let r = run_or_locate_error(&items, |part: &[u32]| {
        tried.borrow_mut().push(part.to_vec());
        if part.contains(&1) || part.contains(&4) {
            Err(part.len())
        } else {
            Ok(())
        }
    });
    assert_eq!(r, Err((vec![&4u32], 1)));
    assert_eq!(*tried.borrow(), vec![vec![0, 1, 2, 3, 4], vec![2, 3, 4], vec![3, 4], vec![4]]);
}

#[test]
fn a_failure_of_items_together_blames_the_shortest_failing_part() {
    // the operation fails only where 6 and 7 are together, or 0 to 3 together
    let items: Vec<u32> = (0..8).collect();
    let together = |part: &[u32], a: u32, b: u32| part.contains(&a) && part.contains(&b);
    let r = run_or_locate_error(&items, |part: &[u32]| {
        if together(part, 6, 7) || together(part, 0, 3) {
            Err(part.to_vec())
        } else {
            Ok(())
        }
    });
    // [6, 7] fails and neither of its halves does; [0, 1, 2, 3] fails later and is longer
    assert_eq!(r, Err((vec![&6u32, &7u32], vec![6, 7])));
}

#[test]
fn of_two_failing_parts_of_one_length_the_later_tried_is_blamed() {
    let items: Vec<u32> = (0..4).collect();
    let together = |part: &[u32], a: u32, b: u32| part.contains(&a) && part.contains(&b);
    let r = run_or_locate_error(&items, |part: &[u32]| {
        if together(part, 2, 3) || together(part, 0, 1) {
            Err(part.to_vec())
        } else {
            Ok(())
        }
    });
    assert_eq!(r, Err((vec![&0u32, &1u32], vec![0, 1])));
}

#[test]
fn the_search_goes_step_by_step() {
    let locator: Locator<&str> = Locator::new(4);
    assert_eq!(locator.current(), Part { start: 0, end: 4 });
    let locator = match locator.observe(Some("whole")) {
        Step::Next(next) => next,
        _ => panic!("the search goes on after a failure of four items"),
    };
    assert_eq!(locator.current(), Part { start: 2, end: 4 });
    let locator = match locator.observe(None) {
        Step::Next(next) => next,
        _ => panic!("the search goes on while parts are left"),
    };
    assert_eq!(locator.current(), Part { start: 0, end: 2 });
    let locator = match locator.observe(None) {
        Step::Blamed { part, error } => {
            assert_eq!(part, Part { start: 0, end: 4 });
            assert_eq!(error, "whole");
            return;
        },
        Step::Next(next) => next,
        Step::Passed => panic!("a search that has seen a failure does not pass"),
    };
    let _ = locator;
    panic!("no part was left to try");
}

#[test]
fn a_search_passes_only_on_the_first_try() {
    let locator: Locator<()> = Locator::new(3);
    assert!(matches!(locator.observe(None), Step::Passed));
}
