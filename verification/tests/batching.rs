use edenapi::batching::split_into_batches;

#[test]
fn test_split_into_batches() {
    let keys = vec![1, 2, 3];
    let result = split_into_batches(keys, Some(2), None);
    assert_eq!(vec![vec![1, 2], vec![3]], result);

    let keys = vec![1, 2, 3, 4];
    let result = split_into_batches(keys, Some(2), None);
    assert_eq!(vec![vec![1, 2], vec![3, 4]], result);

    let keys = vec![1, 2, 3, 4, 5, 6, 7, 8, 9, 10];
    let result = split_into_batches(keys, Some(4), Some(3));
    assert_eq!(
        vec![vec![1, 2, 3, 4], vec![5, 6, 7, 8], vec![9], vec![10]],
        result
    );

    let keys = vec![1, 2, 3, 4, 5, 6, 7, 8, 9, 10];
    let result = split_into_batches(keys, Some(4), None);
    assert_eq!(
        vec![vec![1, 2, 3, 4], vec![5, 6, 7, 8], vec![9, 10]],
        result
    );
}

#[test]
fn batches_without_size_form_one_batch() {
    let result = split_into_batches(vec![1, 2, 3], None, Some(5));
    assert_eq!(vec![vec![1, 2, 3]], result);
}

#[test]
fn empty_keys_without_size_form_one_empty_batch() {
    let result: Vec<Vec<u8>> = split_into_batches(Vec::new(), None, None);
    assert_eq!(vec![Vec::<u8>::new()], result);
}

#[test]
fn empty_keys_with_size_form_no_batch() {
    let result: Vec<Vec<u8>> = split_into_batches(Vec::new(), Some(3), Some(2));
    assert!(result.is_empty());
}

#[test]
fn small_chunks_become_single_key_batches() {
    let result = split_into_batches(vec![1, 2, 3, 4, 5], Some(2), Some(2));
    assert_eq!(vec![vec![1, 2], vec![3, 4], vec![5]], result);
    let result = split_into_batches(vec![1, 2, 3, 4, 5, 6, 7], Some(5), Some(3));
    assert_eq!(vec![vec![1, 2, 3, 4, 5], vec![6], vec![7]], result);
}

#[test]
fn batches_put_back_together_give_the_keys() {
    let keys: Vec<u32> = (0..37).collect();
    for size in 1..12 {
        for min in [None, Some(1), Some(3), Some(7), Some(20)] {
            let batches = split_into_batches(keys.clone(), Some(size), min);
            let joined: Vec<u32> = batches.iter().flatten().copied().collect();
            assert_eq!(keys, joined);
            for b in &batches {
                assert!(!b.is_empty() && b.len() <= size);
                if let Some(m) = min {
                    assert!(b.len() >= m || b.len() == 1);
                }
            }
        }
    }
}
