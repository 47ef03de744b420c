use goose::selector::{checked_total, expand, select, SelectorError};

#[test]
fn nothing_can_be_picked_from_nothing() {
    let empty: Vec<usize> = vec![];
    assert_eq!(select(&empty, 5), Err(SelectorError::EmptySelector));
    assert_eq!(expand(&empty), Err(SelectorError::EmptySelector));
    assert_eq!(checked_total(&empty), Err(SelectorError::EmptySelector));
}

#[test]
fn weights_have_to_be_at_least_one_and_countable() {
    assert_eq!(select(&vec![1, 0, 3], 5), Err(SelectorError::ZeroWeight));
    assert_eq!(expand(&vec![0]), Err(SelectorError::ZeroWeight));
    assert_eq!(select(&vec![usize::MAX, 1], 5), Err(SelectorError::TooHeavy));
    assert_eq!(checked_total(&vec![usize::MAX]), Ok(usize::MAX));
}

#[test]
fn each_index_owns_as_many_tickets_as_its_weight() {
    let weights = vec![1, 2, 3];
    let picks: Vec<usize> = (0..12).map(|ticket| select(&weights, ticket).unwrap()).collect();
    assert_eq!(picks, vec![0, 1, 1, 2, 2, 2, 0, 1, 1, 2, 2, 2]);
}

#[test]
fn expansion_is_ascending_and_by_weight() {
    assert_eq!(expand(&vec![1, 2, 3]).unwrap(), vec![0, 1, 1, 2, 2, 2]);
    assert_eq!(expand(&vec![6, 9, 3]).unwrap().len(), 18);
    assert_eq!(expand(&vec![4]).unwrap(), vec![0, 0, 0, 0]);
}

#[test]
fn selections_are_in_proportion_to_the_weights() {
    let weights = vec![1, 2, 3];
    let mut counts = [0usize; 3];
    // A small generator of scattered numbers, seeded so that the test is repeatable.
    let mut state: u64 = 0x2545F4914F6CDD1D;
    let draws = 12000;
    for _ in 0..draws {
        state ^= state << 13;
        state ^= state >> 7;
        state ^= state << 17;
        let index = select(&weights, (state >> 16) as usize).unwrap();
        counts[index] += 1;
    }
    for (index, weight) in weights.iter().enumerate() {
        let expected = draws * weight / 6;
        let tolerance = expected / 20;
        assert!(
            counts[index] + tolerance >= expected && counts[index] <= expected + tolerance,
            "index {} was picked {} times, expected about {}",
            index,
            counts[index],
            expected
        );
    }
}
