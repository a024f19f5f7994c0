use musicgpt::delay_pattern_mask_ids::DelayedPatternMaskIds;

#[test]
fn test_last_delayed_masked() {
    let mut ids = DelayedPatternMaskIds::<4>::new();
    assert_eq!(ids.last_delayed_masked(0), vec![0, 0, 0, 0]);
    ids.push(vec![1, 2, 3, 4]);
    assert_eq!(ids.last_delayed_masked(0), vec![1, 0, 0, 0]);
    ids.push(vec![5, 6, 7, 8]);
    assert_eq!(ids.last_delayed_masked(0), vec![5, 6, 0, 0]);
    ids.push(vec![9, 10, 11, 12]);
    assert_eq!(ids.last_delayed_masked(0), vec![9, 10, 11, 0]);
    ids.push(vec![13, 14, 15, 16]);
    assert_eq!(ids.last_delayed_masked(0), vec![13, 14, 15, 16]);
    ids.push(vec![17, 18, 19, 20]);
    assert_eq!(ids.last_delayed_masked(0), vec![17, 18, 19, 20]);
}

#[test]
fn test_last_de_delayed() {
    let mut ids = DelayedPatternMaskIds::<4>::new();
    assert_eq!(ids.last_de_delayed(), None);
    ids.push(vec![1, 2, 3, 4]);
    assert_eq!(ids.last_de_delayed(), None);
    ids.push(vec![5, 6, 7, 8]);
    assert_eq!(ids.last_de_delayed(), None);
    ids.push(vec![9, 10, 11, 12]);
    assert_eq!(ids.last_de_delayed(), None);
    ids.push(vec![13, 14, 15, 16]);
    assert_eq!(ids.last_de_delayed(), Some(vec![1, 6, 11, 16]));
    ids.push(vec![17, 18, 19, 20]);
    assert_eq!(ids.last_de_delayed(), Some(vec![5, 10, 15, 20]));
}

#[test]
fn delayed_mask_uses_pad_until_codebook_starts() {
    let mut ids = DelayedPatternMaskIds::<3>::new();
    ids.push(vec![7, 8, 9]);
    assert_eq!(ids.last_delayed_masked(-1), vec![7, -1, -1]);
    ids.push(vec![10, 11, 12]);
    assert_eq!(ids.last_delayed_masked(-1), vec![10, 11, -1]);
    ids.push(vec![13, 14, 15]);
    assert_eq!(ids.last_delayed_masked(-1), vec![13, 14, 15]);
}

#[test]
fn de_delayed_read_is_idempotent_and_advances_on_push() {
    let mut ids = DelayedPatternMaskIds::<2>::new();
    ids.push(vec![1, 2]);
    assert_eq!(ids.last_de_delayed(), None);
    ids.push(vec![3, 4]);
    assert_eq!(ids.last_de_delayed(), Some(vec![1, 4]));
    assert_eq!(ids.last_de_delayed(), Some(vec![1, 4]));
    ids.push(vec![5, 6]);
    assert_eq!(ids.last_de_delayed(), Some(vec![3, 6]));
}

#[test]
fn single_codebook_has_no_delay() {
    let mut ids = DelayedPatternMaskIds::<1>::new();
    assert_eq!(ids.last_de_delayed(), None);
    ids.push(vec![42]);
    assert_eq!(ids.last_delayed_masked(0), vec![42]);
    assert_eq!(ids.last_de_delayed(), Some(vec![42]));
}
