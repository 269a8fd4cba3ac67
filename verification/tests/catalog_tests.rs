use sigtrace::SignalCatalog;
use sigtrace::SignalKind;
use sigtrace::TraceProvider;

#[test]
fn enumerates_exactly_num_signals() {
    let cat = SignalCatalog::build(25).unwrap();
    let signals = cat.enumerate_signals();
    assert_eq!(signals.len(), 25);
    for (i, s) in signals.iter().enumerate() {
        assert_eq!(s.name, format!("signal_{i}"));
    }
}

#[test]
fn names_are_unique() {
    let cat = SignalCatalog::build(40).unwrap();
    let signals = cat.enumerate_signals();
    for i in 0..signals.len() {
        for j in 0..signals.len() {
            if i != j {
                assert_ne!(signals[i].name, signals[j].name);
            }
        }
    }
}

#[test]
fn every_tenth_signal_is_a_vector() {
    let cat = SignalCatalog::build(32).unwrap();
    let signals = cat.enumerate_signals();
    for (i, s) in signals.iter().enumerate() {
        if i % 10 == 0 {
            assert_eq!(s.kind, SignalKind::Vector(15, 0));
        } else {
            assert_eq!(s.kind, SignalKind::Bit);
        }
    }
}

#[test]
fn rotation_keys_cycle_mod_16() {
    let cat = SignalCatalog::build(40).unwrap();
    let signals = cat.enumerate_signals();
    for (i, s) in signals.iter().enumerate() {
        assert_eq!(s.rotation_key, (i % 16) as u32);
        assert!(s.rotation_key < 16);
    }
}

#[test]
fn builds_are_identical() {
    let cat1 = SignalCatalog::build(33).unwrap();
    let cat2 = SignalCatalog::build(33).unwrap();
    let s1 = cat1.enumerate_signals();
    let s2 = cat2.enumerate_signals();
    assert_eq!(s1.len(), s2.len());
    for i in 0..s1.len() {
        assert_eq!(s1[i].name, s2[i].name);
        assert_eq!(s1[i].kind, s2[i].kind);
        assert_eq!(s1[i].rotation_key, s2[i].rotation_key);
    }
}

#[test]
fn empty_catalog_is_valid() {
    let cat = SignalCatalog::build(0).unwrap();
    assert_eq!(cat.enumerate_signals().len(), 0);
    assert_eq!(cat.len(), 0);
}

#[test]
fn lookup_resolves_known_names() {
    let cat = SignalCatalog::build(20).unwrap();
    let (key, kind) = cat.lookup(&"signal_0".to_string()).unwrap();
    assert_eq!(key, 0);
    assert_eq!(kind, SignalKind::Vector(15, 0));
    let (key, kind) = cat.lookup(&"signal_17".to_string()).unwrap();
    assert_eq!(key, 1);
    assert_eq!(kind, SignalKind::Bit);
}

#[test]
fn lookup_rejects_unknown_names() {
    let cat = SignalCatalog::build(20).unwrap();
    assert!(cat.lookup(&"signal_20".to_string()).is_none());
    assert!(cat.lookup(&"signal_".to_string()).is_none());
    assert!(cat.lookup(&"something_else".to_string()).is_none());
}

#[test]
fn provider_reports_counts() {
    let p = TraceProvider::new(10, 100).unwrap();
    assert_eq!(p.enumerate_signals().len(), 10);
    assert_eq!(p.cycle_count(), 100);
}

#[test]
fn signal_kind_widths() {
    assert_eq!(SignalKind::Bit.width(), 1);
    assert_eq!(SignalKind::Vector(15, 0).width(), 15);
    assert_eq!(SignalKind::Vector(0, 15).width(), 15);
    assert_eq!(SignalKind::Vector(7, 7).width(), 0);
}
