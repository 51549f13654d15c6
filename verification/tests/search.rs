use cache_search::{
    capacity_hint, find, find_jump, find_jump_with_size, find_with_hint, get_optimal_jump_size, jump_size,
    linear_search, prefers_binary_search, smallest_capacity, CacheGeometry, CacheKind, HINT_LEVEL,
};

fn fibonacci() -> Vec<i32> {
    vec![
        0, 1, 1, 2, 3, 5, 8, 13, 21, 34, 55, 89, 144, 233, 377, 610, 987, 1597, 2584, 4181, 6765,
        10946, 17711, 28657, 46368, 75025, 121393, 196418, 317811,
    ]
}

#[test]
fn test_find_jump() {
    let vec = vec![
        0, 1, 1, 2, 3, 5, 8, 13, 21, 34, 55, 89, 144, 233, 377, 610, 987, 1597, 2584, 4181, 6765,
        10946, 17711, 28657, 46368, 75025, 121393, 196418, 317811,
    ];
    assert_eq!(Some(0), find_jump(&vec, &0));
    assert_eq!(Some(4), find_jump(&vec, &3));
    assert_eq!(Some(5), find_jump(&vec, &5));
    assert_eq!(Some(6), find_jump(&vec, &8));
    assert_eq!(Some(9), find_jump(&vec, &34));
    assert_eq!(Some(10), find_jump(&vec, &55));
    assert_eq!(Some(11), find_jump(&vec, &89));
    assert_eq!(Some(28), find_jump(&vec, &317811));
    assert_eq!(None, find_jump(&vec, &500));
}

#[test]
fn stride_is_the_integer_square_root() {
    assert_eq!(jump_size(0), 0);
    assert_eq!(jump_size(1), 0);
    assert_eq!(jump_size(2), 1);
    assert_eq!(jump_size(3), 1);
    assert_eq!(jump_size(4), 2);
    assert_eq!(jump_size(8), 2);
    assert_eq!(jump_size(9), 3);
    assert_eq!(jump_size(29), 5);
    assert_eq!(jump_size(99), 9);
    assert_eq!(jump_size(100), 10);
    assert_eq!(jump_size(1_000_000), 1000);
    assert_eq!(jump_size(999_999), 999);
}

#[test]
fn stride_of_the_largest_lengths() {
    let root = jump_size(usize::MAX) as u128;
    let len = usize::MAX as u128;
    assert!(root * root <= len);
    assert!((root + 1) * (root + 1) > len);
    assert_eq!(jump_size(u32::MAX as usize), 65535);
}

#[test]
fn stride_of_a_vector_goes_by_its_length() {
    assert_eq!(get_optimal_jump_size(&fibonacci()), 5);
    assert_eq!(get_optimal_jump_size(&Vec::<u8>::new()), 0);
    assert_eq!(get_optimal_jump_size(&vec![7u64]), 0);
    assert_eq!(get_optimal_jump_size(&vec![1u8, 2, 3, 4]), 2);
}

#[test]
fn every_element_is_found_and_nothing_else() {
    let vec = fibonacci();
    for target in -2..=320_000 {
        let present = vec.contains(&target);
        match find_jump(&vec, &target) {
            Some(at) => {
                assert!(present);
                assert_eq!(vec[at], target);
            }
            None => assert!(!present),
        }
    }
}

#[test]
fn empty_and_single_element_vectors() {
    let empty: Vec<i64> = Vec::new();
    assert_eq!(find_jump(&empty, &3), None);
    assert_eq!(find(&empty, &3), None);
    assert_eq!(find_with_hint(&empty, &3, Some(0)), None);
    assert_eq!(find_with_hint(&empty, &3, None), None);
    let one = vec![42i64];
    assert_eq!(find_jump(&one, &42), Some(0));
    assert_eq!(find_jump(&one, &41), None);
    assert_eq!(find_jump(&one, &43), None);
    assert_eq!(find(&one, &42), Some(0));
    assert_eq!(find(&one, &41), None);
    assert_eq!(find(&one, &43), None);
}

#[test]
fn duplicates_give_a_position_that_holds_the_target() {
    let vec = vec![1, 1, 2];
    let at = find_jump(&vec, &1).unwrap();
    assert_eq!(vec[at], 1);
    let at = find(&vec, &1).unwrap();
    assert_eq!(vec[at], 1);
    assert_eq!(find_jump(&vec, &2), Some(2));
}

#[test]
fn a_matching_probe_wins_over_earlier_matches() {
    // The stride of three elements is 1, so position 1 is probed first.
    assert_eq!(find_jump(&vec![1, 1, 2], &1), Some(1));
    // With stride 2 the probe at 2 matches although 1 matches too.
    assert_eq!(find_jump_with_size(&vec![0, 5, 5, 5, 9], &5, 2), Some(2));
    // With stride 4 the probe at 4 is greater and the block is scanned.
    assert_eq!(find_jump_with_size(&vec![0, 5, 5, 5, 9], &5, 4), Some(1));
    // With stride 3 the probe at 3 matches.
    assert_eq!(find_jump_with_size(&vec![0, 5, 5, 5, 9], &5, 3), Some(3));
}

#[test]
fn stride_zero_scans_everything() {
    let vec = vec![2u8, 4, 4, 6];
    assert_eq!(find_jump_with_size(&vec, &2, 0), Some(0));
    assert_eq!(find_jump_with_size(&vec, &4, 0), Some(1));
    assert_eq!(find_jump_with_size(&vec, &6, 0), Some(3));
    assert_eq!(find_jump_with_size(&vec, &5, 0), None);
    assert_eq!(find_jump_with_size(&Vec::<u8>::new(), &5, 0), None);
}

#[test]
fn strides_beyond_the_length_scan_everything() {
    let vec = vec![2u8, 4, 4, 6];
    assert_eq!(find_jump_with_size(&vec, &4, 4), Some(1));
    assert_eq!(find_jump_with_size(&vec, &4, 100), Some(1));
    assert_eq!(find_jump_with_size(&vec, &6, usize::MAX), Some(3));
    assert_eq!(find_jump_with_size(&vec, &7, usize::MAX), None);
    assert_eq!(find_jump_with_size(&vec, &6, usize::MAX / 2 + 1), Some(3));
}

#[test]
fn every_stride_agrees_on_presence() {
    let vec = fibonacci();
    for stride in 0..40 {
        for target in -1..400 {
            let found = find_jump_with_size(&vec, &target, stride);
            assert_eq!(found.is_some(), vec.contains(&target));
            if let Some(at) = found {
                assert_eq!(vec[at], target);
            }
        }
    }
}

#[test]
fn last_block_is_scanned_when_no_probe_is_greater() {
    let vec: Vec<u32> = (0..10).collect();
    // Probes at 3, 6 and 9: position 9 is a probe, 7 and 8 lie in the block before it.
    assert_eq!(find_jump_with_size(&vec, &9, 3), Some(9));
    assert_eq!(find_jump_with_size(&vec, &8, 3), Some(8));
    // Probes at 4 and 8: position 9 lies in the last, shorter block.
    assert_eq!(find_jump_with_size(&vec, &9, 4), Some(9));
    assert_eq!(find_jump_with_size(&vec, &10, 4), None);
    assert_eq!(find_jump_with_size(&vec, &0, 4), Some(0));
}

#[test]
fn linear_search_returns_the_first_match_of_the_range() {
    let vec = vec![3, 5, 5, 5, 8];
    assert_eq!(linear_search(&vec, &5, 0, 5), Some(1));
    assert_eq!(linear_search(&vec, &5, 2, 5), Some(2));
    assert_eq!(linear_search(&vec, &5, 3, 4), Some(3));
    assert_eq!(linear_search(&vec, &5, 4, 5), None);
    assert_eq!(linear_search(&vec, &3, 1, 5), None);
    assert_eq!(linear_search(&vec, &8, 0, 4), None);
    assert_eq!(linear_search(&vec, &8, 0, 5), Some(4));
    assert_eq!(linear_search(&vec, &5, 2, 2), None);
    assert_eq!(linear_search(&vec, &5, 5, 5), None);
}

#[test]
fn find_agrees_with_find_jump_on_presence() {
    let vec = fibonacci();
    for target in -2..=1000 {
        let by_find = find(&vec, &target);
        let by_jump = find_jump(&vec, &target);
        assert_eq!(by_find.is_some(), by_jump.is_some());
        if let Some(at) = by_find {
            assert_eq!(vec[at], target);
        }
    }
    assert_eq!(find(&vec, &317811), Some(28));
    assert_eq!(find(&vec, &500), None);
}

#[test]
fn every_hint_agrees_on_presence() {
    let vec = fibonacci();
    let hints = [None, Some(0), Some(4), Some(5), Some(6), Some(1 << 20), Some(u64::MAX)];
    for hint in hints {
        for target in -2..=1000 {
            let found = find_with_hint(&vec, &target, hint);
            assert_eq!(found.is_some(), vec.contains(&target));
            if let Some(at) = found {
                assert_eq!(vec[at], target);
            }
        }
    }
}

#[test]
fn without_a_hint_or_with_a_large_one_the_search_jumps() {
    let vec = vec![0, 5, 5, 5, 5, 5, 5, 5, 9];
    // Nine elements give the stride 3, and the probe at 3 matches.
    assert_eq!(find_jump(&vec, &5), Some(3));
    assert_eq!(find_with_hint(&vec, &5, None), Some(3));
    assert_eq!(find_with_hint(&vec, &5, Some(4)), Some(3));
    assert_eq!(find_with_hint(&vec, &5, Some(u64::MAX)), Some(3));
}

#[test]
fn a_small_hint_gives_a_binary_search() {
    let vec: Vec<u32> = (0..100).map(|n| n * 2).collect();
    for target in 0..200 {
        let found = find_with_hint(&vec, &target, Some(10));
        assert_eq!(found, vec.binary_search(&target).ok());
        assert_eq!(found, find_with_hint(&vec, &target, Some(0)));
    }
}

#[test]
fn the_choice_turns_at_the_stride() {
    assert!(prefers_binary_search(Some(5), 5));
    assert!(prefers_binary_search(Some(4), 5));
    assert!(!prefers_binary_search(Some(6), 5));
    assert!(prefers_binary_search(Some(0), 0));
    assert!(!prefers_binary_search(Some(1), 0));
    assert!(!prefers_binary_search(None, 0));
    assert!(!prefers_binary_search(None, usize::MAX));
    assert!(prefers_binary_search(Some(0), usize::MAX));
    assert!(!prefers_binary_search(Some(u64::MAX), 7));
}

#[test]
fn repeated_searches_give_the_same_answer() {
    let vec = fibonacci();
    for target in [0, 1, 2, 55, 500, 317811] {
        assert_eq!(find_jump(&vec, &target), find_jump(&vec, &target));
        assert_eq!(find(&vec, &target), find(&vec, &target));
        assert_eq!(
            find_with_hint(&vec, &target, Some(3)),
            find_with_hint(&vec, &target, Some(3))
        );
    }
}

#[test]
fn searches_work_on_other_ordered_types() {
    let bytes = vec![1u8, 3, 5, 7, 9, 11];
    assert_eq!(find_jump(&bytes, &7), Some(3));
    assert_eq!(find_jump(&bytes, &8), None);
    let pairs = vec![(0u8, 1i16), (0, 2), (1, -5), (1, 0), (2, 2)];
    assert_eq!(find_jump(&pairs, &(1, -5)), Some(2));
    assert_eq!(find_jump(&pairs, &(1, -4)), None);
    assert_eq!(find(&pairs, &(2, 2)), Some(4));
    let negative = vec![-9i64, -4, -1, 0, 3];
    assert_eq!(find_jump(&negative, &-9), Some(0));
    assert_eq!(find_jump(&negative, &3), Some(4));
    assert_eq!(find(&negative, &-2), None);
}

fn cache(level: u8, kind: CacheKind, sets: u32, associativity: u16, line_size: u16) -> CacheGeometry {
    CacheGeometry { level, kind, sets, associativity, line_size }
}

#[test]
fn capacity_is_sets_times_ways_times_line_size() {
    assert_eq!(cache(1, CacheKind::Data, 64, 8, 64).capacity(), 32768);
    assert_eq!(cache(2, CacheKind::Unified, 1024, 4, 64).capacity(), 262144);
    assert_eq!(cache(3, CacheKind::Data, 0, 4, 64).capacity(), 0);
    assert_eq!(cache(3, CacheKind::Data, 1, 1, 1).capacity(), 1);
    assert_eq!(
        cache(2, CacheKind::Data, u32::MAX, u16::MAX, u16::MAX).capacity(),
        4294967295u64 * 65535 * 65535
    );
}

#[test]
fn smallest_capacity_of_the_level_and_kind() {
    let caches = vec![
        cache(1, CacheKind::Data, 64, 8, 64),
        cache(1, CacheKind::Instruction, 64, 8, 64),
        cache(2, CacheKind::Data, 1024, 8, 64),
        cache(2, CacheKind::Data, 512, 8, 64),
        cache(2, CacheKind::Data, 2048, 8, 64),
        cache(2, CacheKind::Unified, 16, 2, 64),
        cache(3, CacheKind::Unified, 8192, 16, 64),
    ];
    assert_eq!(smallest_capacity(&caches, HINT_LEVEL, CacheKind::Data), Some(262144));
    assert_eq!(smallest_capacity(&caches, 2, CacheKind::Unified), Some(2048));
    assert_eq!(smallest_capacity(&caches, 1, CacheKind::Data), Some(32768));
    assert_eq!(smallest_capacity(&caches, 3, CacheKind::Data), None);
    assert_eq!(smallest_capacity(&caches, 2, CacheKind::Instruction), None);
    assert_eq!(smallest_capacity(&caches, 0, CacheKind::Null), None);
    assert_eq!(smallest_capacity(&Vec::new(), 2, CacheKind::Data), None);
}

#[test]
fn the_hint_level_is_two() {
    assert_eq!(HINT_LEVEL, 2);
}

#[test]
fn hint_of_a_report_is_the_least_level_two_data_capacity() {
    let report = Some(vec![
        cache(1, CacheKind::Data, 64, 8, 64),
        cache(2, CacheKind::Data, 1024, 8, 64),
        cache(2, CacheKind::Data, 512, 8, 64),
        cache(2, CacheKind::Unified, 16, 2, 64),
        cache(3, CacheKind::Data, 1, 1, 1),
    ]);
    assert_eq!(capacity_hint(&report), Some(262144));
    let unified_only = Some(vec![
        cache(1, CacheKind::Data, 64, 8, 64),
        cache(2, CacheKind::Unified, 1024, 8, 64),
    ]);
    assert_eq!(capacity_hint(&unified_only), None);
    assert_eq!(capacity_hint(&Some(Vec::new())), None);
    assert_eq!(capacity_hint(&None), None);
}
