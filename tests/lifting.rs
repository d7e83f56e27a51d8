use sqllib::config::{default_max_buffered_records, default_workers, RuntimeConfig};
use sqllib::dispatch::{all_profiles, variant_name};
use sqllib::nullable::{lift1, lift2, lift3};
use sqllib::variants::{
    chrN, concat_sN_s, initcapN, overlay4N___, overlay4___N, position_N, split2N_, substring3N__,
    substring3__N, trim_both_s_sN,
};
use std::cell::Cell;

fn s(x: &str) -> String {
    x.to_string()
}

#[test]
fn absent_argument_skips_core_function() {
    let calls = Cell::new(0u32);
    let core = |a: i32, b: i32| {
        calls.set(calls.get() + 1);
        a + b
    };
    assert_eq!(lift2(&core, None, Some(2)), None);
    assert_eq!(lift2(&core, Some(1), None), None);
    assert_eq!(calls.get(), 0);
    assert_eq!(lift2(&core, Some(1), Some(2)), Some(3));
    assert_eq!(calls.get(), 1);
    let core3 = |a: i32, b: i32, c: i32| {
        calls.set(calls.get() + 1);
        a + b + c
    };
    assert_eq!(lift3(&core3, Some(1), Some(2), None), None);
    assert_eq!(calls.get(), 1);
    assert_eq!(lift1(|a: i32| a * 2, Some(4)), Some(8));
}

#[test]
fn variants_propagate_absent_arguments() {
    assert_eq!(substring3N__(None, 2, 3), None);
    assert_eq!(substring3N__(Some(s("hello")), 2, 3), Some(s("ell")));
    assert_eq!(substring3__N(s("hello"), 2, None), None);
    assert_eq!(overlay4N___(Some(s("hello")), s("XY"), 2, 1), Some(s("hXYllo")));
    assert_eq!(overlay4___N(s("hello"), s("XY"), 2, None), None);
    assert_eq!(concat_sN_s(None, s("b")), None);
    assert_eq!(trim_both_s_sN(s("x"), Some(s("xax"))), Some(s("a")));
    assert_eq!(position_N(s("l"), None), None);
    assert_eq!(initcapN(Some(s("ab cd"))), Some(s("Ab Cd")));
    assert_eq!(split2N_(None, s(",")), None);
    assert_eq!(chrN(Some(66)), Some(s("B")));
}

#[test]
fn variant_names_follow_profile() {
    assert_eq!(variant_name("substring3", &vec![true, false, false]), "substring3N__");
    assert_eq!(variant_name("overlay4", &vec![false, false, false, true]), "overlay4___N");
    assert_eq!(variant_name("lower", &vec![]), "lower");
}

#[test]
fn registry_variants_cover_every_profile_once() {
    let registry: Vec<(&str, usize)> = vec![
        ("substring3", 3),
        ("substring2", 2),
        ("position", 2),
        ("overlay4", 4),
        ("overlay3", 3),
        ("replace", 3),
        ("initcap", 1),
        ("array_to_string3", 4),
    ];
    for (base, arity) in registry {
        let profiles = all_profiles(arity);
        assert_eq!(profiles.len(), 1usize << arity);
        let mut names: Vec<String> = profiles.iter().map(|p| variant_name(base, p)).collect();
        names.sort();
        names.dedup();
        assert_eq!(names.len(), 1usize << arity);
        for p in &profiles {
            assert_eq!(p.len(), arity);
        }
    }
}

#[test]
fn configuration_defaults() {
    assert_eq!(default_workers(), 1);
    assert_eq!(default_max_buffered_records(), 1_000_000);
    let c = RuntimeConfig {
        workers: default_workers(),
        cpu_profiler: false,
        min_batch_size_records: 0,
        max_buffering_delay_usecs: 0,
    };
    assert_eq!(c.clone(), c);
}
