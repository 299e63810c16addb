use kube_cache::backoff::{backoff_base, backoff_delay, jittered, BACKOFF_CAP_MS, BACKOFF_INITIAL_MS};

#[test]
fn backoff_doubles_from_one_second_to_the_cap() {
    let expected = [1000, 2000, 4000, 8000, 16000, 30000, 30000, 30000];
    for (attempt, ms) in expected.iter().enumerate() {
        assert_eq!(backoff_base(attempt as u32), *ms);
    }
    assert_eq!(backoff_base(u32::MAX), 30000);
    assert_eq!(BACKOFF_INITIAL_MS, 1000);
    assert_eq!(BACKOFF_CAP_MS, 30000);
}

#[test]
fn jitter_stays_within_a_fifth() {
    for base in [0u64, 1, 5, 1000, 30000] {
        for sample in [0u64, 1, 399, 400, 401, 12345678901234567, u64::MAX] {
            let d = jittered(base, sample);
            assert!(d * 5 + 4 >= base * 4, "{} for base {}", d, base);
            assert!(d * 5 <= base * 6, "{} for base {}", d, base);
        }
    }
}

#[test]
fn jitter_has_exact_values() {
    assert_eq!(jittered(1000, 0), 800);
    assert_eq!(jittered(1000, 200), 1000);
    assert_eq!(jittered(1000, 400), 1200);
    assert_eq!(jittered(1000, 401), 800);
    assert_eq!(jittered(30000, 12000), 36000);
    assert_eq!(jittered(0, 77), 0);
}

#[test]
fn jitter_reaches_every_delay_in_range() {
    let mut seen = std::collections::BTreeSet::new();
    for sample in 0..401u64 {
        seen.insert(jittered(1000, sample));
    }
    assert_eq!(seen.len(), 401);
    assert_eq!(seen.iter().next(), Some(&800));
    assert_eq!(seen.iter().next_back(), Some(&1200));
}

#[test]
fn backoff_delay_is_the_jittered_base() {
    assert_eq!(backoff_delay(0, 0), 800);
    assert_eq!(backoff_delay(0, 400), 1200);
    assert_eq!(backoff_delay(3, 3200), 9600);
    assert_eq!(backoff_delay(9, 0), 24000);
    assert_eq!(backoff_delay(9, 12000), 36000);
}
