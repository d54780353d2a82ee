use memocache::counter::Counter;

#[test]
fn calling_next_directly() {
    let mut counter = Counter::new();
    assert_eq!(Some(1), counter.next());
    assert_eq!(Some(2), counter.next());
    assert_eq!(Some(3), counter.next());
    assert_eq!(Some(4), counter.next());
    assert_eq!(Some(5), counter.next());
    assert_eq!(None, counter.next());
}

#[test]
fn other_iter_methods_on_counter() {
    // Zip a counter with a second counter advanced by one, add the pairs,
    // keep the sums divisible by three, and total them; spelled with
    // `next` since `Counter` offers no iterator adapters.
    let mut counter = Counter::new();
    let mut shifted = Counter::new();
    shifted.next();
    let mut s: u32 = 0;
    loop {
        match (counter.next(), shifted.next()) {
            (Some(x), Some(y)) => {
                let sum = x + y;
                if sum % 3 == 0 {
                    s += sum;
                }
            }
            _ => break,
        }
    }
    assert_eq!(12, s);
}

#[test]
fn exhausted_counter_stays_exhausted() {
    let mut counter = Counter::new();
    for _ in 0..5 {
        counter.next();
    }
    assert_eq!(None, counter.next());
    assert_eq!(None, counter.next());
}
