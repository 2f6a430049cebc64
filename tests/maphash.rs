use maphash::count_class::count_class_lookup_16;
use maphash::coverage_map::{ByteMap, CoverageMap};
use maphash::fingerprint::fingerprint;
use maphash::maphash::{check_fingerprints, MapHashingObserver, VerificationError, Verdict};
use maphash::report::{hex_string, mismatch_message, report_line, Stage};
use maphash::settings::MapHashingObserverSettings;

fn all_settings() -> Vec<MapHashingObserverSettings> {
    let mut out = Vec::new();
    for bits in 0..16u8 {
        out.push(MapHashingObserverSettings::new(
            bits & 1 != 0,
            bits & 2 != 0,
            bits & 4 != 0,
            bits & 8 != 0,
        ));
    }
    out
}

fn edges(len: usize) -> ByteMap {
    ByteMap::new("edges", vec![0u8; len], 0)
}

#[test]
fn settings_keep_each_flag() {
    for bits in 0..16u8 {
        let s = MapHashingObserverSettings::new(
            bits & 1 != 0,
            bits & 2 != 0,
            bits & 4 != 0,
            bits & 8 != 0,
        );
        assert_eq!(s.assert_different(), bits & 1 != 0);
        assert_eq!(s.err_if_same(), bits & 2 != 0);
        assert_eq!(s.print_crcs(), bits & 4 != 0);
        assert_eq!(s.log_crcs(), bits & 8 != 0);
        assert_eq!(s, s.clone());
    }
    assert_ne!(
        MapHashingObserverSettings::new(true, false, false, false),
        MapHashingObserverSettings::new(false, true, false, false)
    );
}

#[test]
fn fingerprint_known_vectors() {
    assert_eq!(fingerprint(&[0u8; 16]), 0xecbb4b55);
    assert_eq!(fingerprint(b"123456789"), 0xcbf43926);
    assert_eq!(fingerprint(&[]), 0);
    let mut one = [0u8; 16];
    one[0] = 1;
    assert_eq!(fingerprint(&one), 0x42d3dac4);
}

#[test]
fn fingerprint_is_deterministic() {
    let a = vec![3u8, 1, 4, 1, 5, 9, 2, 6];
    let b = a.clone();
    assert_eq!(fingerprint(&a), fingerprint(&b));
    assert_eq!(fingerprint(&a), fingerprint(&a));
}

#[test]
fn hex_formatting() {
    assert_eq!(hex_string(0), "0x0");
    assert_eq!(hex_string(15), "0xf");
    assert_eq!(hex_string(16), "0x10");
    assert_eq!(hex_string(0xecbb4b55), "0xecbb4b55");
    assert_eq!(hex_string(u32::MAX), "0xffffffff");
}

#[test]
fn report_lines_have_the_console_format() {
    assert_eq!(report_line(Stage::Pre, "edges", 0x1f), "pre_hash for edges: 0x1f");
    assert_eq!(report_line(Stage::Post, "cmp", 0), "post_hash for cmp: 0x0");
    assert_eq!(
        mismatch_message("edges", 10, 10),
        "Pre hash 0xa and post hash 0xa for map edges should be different"
    );
}

#[test]
fn verdicts_follow_the_settings() {
    for s in all_settings() {
        assert_eq!(check_fingerprints(&s, None, 7), Verdict::Pass);
        assert_eq!(check_fingerprints(&s, Some(6), 7), Verdict::Pass);
        let expected = if s.err_if_same() {
            Verdict::Same
        } else if s.assert_different() {
            Verdict::Violation
        } else {
            Verdict::Pass
        };
        assert_eq!(check_fingerprints(&s, Some(7), 7), expected);
    }
}

#[test]
fn post_without_pre_never_fails() {
    for s in all_settings() {
        let mut w = MapHashingObserver::new(edges(16), s);
        assert_eq!(w.last_pre_hash(), None);
        let (_, outcome) = w.post_exec();
        assert!(outcome.is_ok());
    }
}

#[test]
fn print_gives_two_lines_per_cycle() {
    for s in all_settings() {
        let mut w = MapHashingObserver::new(edges(16), s);
        let pre = w.pre_exec().unwrap();
        *w.get_mut(3) = 1;
        let (post, _) = w.post_exec();
        let printed = pre.print.iter().count() + post.print.iter().count();
        let logged = pre.log.iter().count() + post.log.iter().count();
        assert_eq!(printed, if s.print_crcs() { 2 } else { 0 });
        assert_eq!(logged, if s.log_crcs() { 2 } else { 0 });
        if s.print_crcs() {
            assert_eq!(pre.print.unwrap(), "pre_hash for edges: 0xecbb4b55");
            assert_eq!(post.print.unwrap(), format!("post_hash for edges: {:#x}", fingerprint(&w.to_vec())));
        }
        if s.log_crcs() {
            assert_eq!(pre.log.unwrap(), "pre_hash for edges: 0xecbb4b55");
        }
    }
}

#[test]
fn unchanged_map_with_err_if_same_is_recoverable() {
    let s = MapHashingObserverSettings::new(true, true, false, false);
    let mut w = MapHashingObserver::new(edges(16), s);
    w.pre_exec().unwrap();
    assert_eq!(w.last_pre_hash(), Some(0xecbb4b55));
    let (_, outcome) = w.post_exec();
    match outcome {
        Err(e @ VerificationError::HashesEqual { .. }) => {
            assert!(!e.is_fatal());
            assert_eq!(
                e.message(),
                "Pre hash 0xecbb4b55 and post hash 0xecbb4b55 for map edges should be different"
            );
        }
        other => panic!("unexpected outcome {:?}", other),
    }
}

#[test]
fn unchanged_map_with_assert_different_is_fatal() {
    let s = MapHashingObserverSettings::new(true, false, false, false);
    let mut w = MapHashingObserver::new(edges(16), s);
    w.pre_exec().unwrap();
    let (_, outcome) = w.post_exec();
    match outcome {
        Err(e @ VerificationError::InvariantViolated { .. }) => {
            assert!(e.is_fatal());
            assert_eq!(
                e.message(),
                "Pre hash 0xecbb4b55 and post hash 0xecbb4b55 for map edges should be different"
            );
        }
        other => panic!("unexpected outcome {:?}", other),
    }
}

#[test]
fn unchanged_map_without_checks_passes() {
    let s = MapHashingObserverSettings::new(false, false, false, false);
    let mut w = MapHashingObserver::new(edges(16), s);
    w.pre_exec().unwrap();
    let (report, outcome) = w.post_exec();
    assert!(outcome.is_ok());
    assert!(report.print.is_none() && report.log.is_none());
}

#[test]
fn changed_map_passes_under_every_setting() {
    for s in all_settings() {
        let mut w = MapHashingObserver::new(edges(16), s);
        w.pre_exec().unwrap();
        *w.get_mut(0) = 1;
        let (_, outcome) = w.post_exec();
        assert!(outcome.is_ok());
    }
}

#[test]
fn pre_exec_resets_the_byte_map() {
    let s = MapHashingObserverSettings::new(false, false, false, false);
    let mut w = MapHashingObserver::new(ByteMap::new("edges", vec![1, 2, 3], 0), s);
    w.pre_exec().unwrap();
    assert_eq!(w.to_vec(), vec![0, 0, 0]);
    assert_eq!(w.last_pre_hash(), Some(fingerprint(&[0, 0, 0])));
}

fn next(seed: &mut u64) -> u64 {
    *seed = seed.wrapping_mul(6364136223846793005).wrapping_add(1442695040888963407);
    *seed >> 33
}

#[test]
fn forwarding_matches_the_unwrapped_map() {
    let mut seed = 42u64;
    for round in 0..50 {
        let len = (next(&mut seed) % 40) as usize;
        let initial = (next(&mut seed) % 3) as u8;
        let entries: Vec<u8> = (0..len).map(|_| (next(&mut seed) % 4) as u8).collect();
        let mut plain = ByteMap::new("edges", entries.clone(), initial);
        let s = MapHashingObserverSettings::new(round % 2 == 0, false, false, false);
        let mut w = MapHashingObserver::new(ByteMap::new("edges", entries, initial), s);

        assert_eq!(w.name(), plain.name());
        assert_eq!(w.len(), plain.len());
        assert_eq!(w.initial(), plain.initial());
        assert_eq!(w.usable_count(), plain.usable_count());
        assert_eq!(w.count_bytes(), plain.count_bytes());
        assert_eq!(w.hash(), plain.hash());
        assert_eq!(w.to_vec(), plain.to_vec());
        assert_eq!(w.as_slice(), plain.as_slice());
        let indexes: Vec<usize> = (0..10).map(|_| (next(&mut seed) % 50) as usize).collect();
        assert_eq!(w.how_many_set(&indexes), plain.how_many_set(&indexes));
        for i in 0..len {
            assert_eq!(w.get(i), plain.get(i));
        }
        if len > 0 {
            let i = (next(&mut seed) as usize) % len;
            *w.get_mut(i) = 9;
            *plain.get_mut(i) = 9;
            assert_eq!(w.to_vec(), plain.to_vec());
        }
        let cut = (next(&mut seed) % 50) as usize;
        w.truncate(cut);
        plain.truncate(cut);
        assert_eq!(w.to_vec(), plain.to_vec());
        assert_eq!(w.reset_map(), plain.reset_map());
        assert_eq!(w.to_vec(), plain.to_vec());
        assert_eq!(w.pre_observe_first(), plain.pre_observe_first());
        assert_eq!(w.post_observe_first(), plain.post_observe_first());
        assert_eq!(w.pre_observe_second(), plain.pre_observe_second());
        assert_eq!(w.post_observe_second(), plain.post_observe_second());
        assert_eq!(w.to_vec(), plain.to_vec());
    }
}

#[test]
fn byte_map_counts() {
    let mut m = ByteMap::new("edges", vec![0, 1, 0, 2, 0], 0);
    assert_eq!(m.count_bytes(), 2);
    assert_eq!(m.how_many_set(&[1, 1, 2, 3, 99]), 3);
    assert_eq!(m.hash(), fingerprint(&[0, 1, 0, 2, 0]) as u64);
    m.truncate(10);
    assert_eq!(m.len(), 5);
    m.truncate(2);
    assert_eq!(m.to_vec(), vec![0, 1]);
    m.truncate(0);
    assert_eq!(m.len(), 0);
    assert_eq!(m.count_bytes(), 0);
    let mut full = ByteMap::new("full", vec![7; 4], 7);
    assert_eq!(full.count_bytes(), 0);
    *full.get_mut(2) = 0;
    assert_eq!(full.count_bytes(), 1);
    full.reset_map().unwrap();
    assert_eq!(full.to_vec(), vec![7; 4]);
}

#[test]
fn empty_map_cycle() {
    let s = MapHashingObserverSettings::new(false, true, true, false);
    let mut w = MapHashingObserver::new(edges(0), s);
    let pre = w.pre_exec().unwrap();
    assert_eq!(pre.print.unwrap(), "pre_hash for edges: 0x0");
    let (_, outcome) = w.post_exec();
    assert!(matches!(outcome, Err(VerificationError::HashesEqual { pre: 0, post: 0, .. })));
}

#[test]
fn into_inner_returns_the_base() {
    let s = MapHashingObserverSettings::new(false, false, false, false);
    let w = MapHashingObserver::new(ByteMap::new("edges", vec![4, 5], 0), s);
    assert_eq!(w.settings(), s);
    assert_eq!(w.base().to_vec(), vec![4, 5]);
    assert_eq!(w.into_inner().to_vec(), vec![4, 5]);
}

#[test]
fn count_class_table() {
    let t = count_class_lookup_16();
    assert_eq!(t.len(), 65536);
    assert_eq!(t[0], 0);
    assert_eq!(t[3], 4);
    assert_eq!(t[0x0305], 0x0408);
    assert_eq!(t[0xff20], 0x8040);
    assert_eq!(t[0x7f80], 0x4080);
    assert_eq!(t[0xffff], 0x8080);
}

#[test]
fn name_is_stable_across_a_cycle() {
    let s = MapHashingObserverSettings::new(false, false, true, true);
    let mut w = MapHashingObserver::new(edges(8), s);
    assert_eq!(w.name(), "edges");
    w.pre_exec().unwrap();
    *w.get_mut(1) = 2;
    w.post_exec().1.unwrap();
    w.truncate(4);
    w.reset_map().unwrap();
    w.pre_observe_first().unwrap();
    w.post_observe_second().unwrap();
    assert_eq!(w.name(), "edges");
}

#[test]
fn as_mut_slice_writes_reach_the_map() {
    let s = MapHashingObserverSettings::new(false, false, false, false);
    let mut w = MapHashingObserver::new(ByteMap::new("edges", vec![0, 0, 0], 0), s);
    w.as_mut_slice()[2] = 5;
    assert_eq!(w.to_vec(), vec![0, 0, 5]);
    assert_eq!(w.count_bytes(), 1);
}

#[test]
fn reporting_flags_do_not_change_the_outcome() {
    for bits in 0..4u8 {
        let mut results = Vec::new();
        for report in 0..4u8 {
            let s = MapHashingObserverSettings::new(bits & 1 != 0, bits & 2 != 0, report & 1 != 0, report & 2 != 0);
            let mut w = MapHashingObserver::new(edges(16), s);
            w.pre_exec().unwrap();
            let (_, outcome) = w.post_exec();
            results.push((w.to_vec(), w.last_pre_hash(), format!("{:?}", outcome)));
        }
        assert!(results.iter().all(|r| *r == results[0]));
    }
}
