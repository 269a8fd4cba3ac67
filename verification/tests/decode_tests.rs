use sigtrace::CycleRange;
use sigtrace::DecodeError;
use sigtrace::SignalCatalog;
use sigtrace::decode;
use sigtrace::rotate_right_u64;

fn names(list: &[&str]) -> Vec<String> {
    list.iter().map(|s| s.to_string()).collect()
}

#[test]
fn bit_signal_exposes_rotated_bit() {
    // signal_1 has rotation key 1: its value at cycle c is bit 1 of c.
    let cat = SignalCatalog::build(10).unwrap();
    let m = decode(&cat, &names(&["signal_1"]), CycleRange { start: 0, end: 8 }).unwrap();
    let expect = [false, false, true, true, false, false, true, true];
    assert_eq!(m.cells.len(), 1);
    assert_eq!(m.cells[0].len(), 8);
    for c in 0..8 {
        assert_eq!(m.cells[0][c].len(), 1);
        assert_eq!(m.cells[0][c][0], expect[c]);
    }
}

#[test]
fn bit_signal_matches_rotation_semantics() {
    let cat = SignalCatalog::build(16).unwrap();
    // Every tenth signal is a vector, so signal_10 is left out here.
    let keys: Vec<u32> = (1u32..16).filter(|k| k % 10 != 0).collect();
    let sigs: Vec<String> = keys.iter().map(|i| format!("signal_{i}")).collect();
    let m = decode(&cat, &sigs, CycleRange { start: 90, end: 100 }).unwrap();
    for (j, &key) in keys.iter().enumerate() {
        for (i, cycle) in (90u64..100).enumerate() {
            let want = cycle.rotate_right(key) & 1 != 0;
            assert_eq!(m.cells[j][i], vec![want]);
        }
    }
}

#[test]
fn rotation_helper_agrees_with_std() {
    for &x in &[0u64, 1, 5, 0x8000_0000_0000_0001, u64::MAX, 0xdead_beef] {
        for k in 0u32..70 {
            assert_eq!(rotate_right_u64(x, k), x.rotate_right(k));
        }
    }
}

#[test]
fn vector_signal_renders_cycle_in_binary() {
    // signal_0 is Vector(15, 0): width 15, the low 15 bits of the cycle
    // counter, most-significant first. Cycle 5 is twelve zeros then 101.
    let cat = SignalCatalog::build(10).unwrap();
    let m = decode(&cat, &names(&["signal_0"]), CycleRange { start: 5, end: 6 }).unwrap();
    assert_eq!(m.cells.len(), 1);
    assert_eq!(m.cells[0].len(), 1);
    let cell = &m.cells[0][0];
    assert_eq!(cell.len(), 15);
    let mut expect = vec![false; 12];
    expect.extend([true, false, true]);
    assert_eq!(cell, &expect);
}

#[test]
fn vector_signal_recomputes_every_cycle() {
    let cat = SignalCatalog::build(1).unwrap();
    let m = decode(&cat, &names(&["signal_0"]), CycleRange { start: 0, end: 40 }).unwrap();
    for c in 0u64..40 {
        let cell = &m.cells[0][c as usize];
        for k in 0..15 {
            assert_eq!(cell[k], (c >> (14 - k)) & 1 != 0, "cycle {c} bit {k}");
        }
    }
}

#[test]
fn vector_signal_keeps_only_low_fifteen_bits() {
    let cat = SignalCatalog::build(1).unwrap();
    let m = decode(&cat, &names(&["signal_0"]), CycleRange { start: 70000, end: 70001 })
        .unwrap();
    let cell = &m.cells[0][0];
    for k in 0..15 {
        assert_eq!(cell[k], (70000u64 >> (14 - k)) & 1 != 0);
    }
}

#[test]
fn decode_is_pure() {
    let cat = SignalCatalog::build(12).unwrap();
    let req = names(&["signal_3", "signal_0", "signal_11"]);
    let range = CycleRange { start: 17, end: 53 };
    let m1 = decode(&cat, &req, range).unwrap();
    let m2 = decode(&cat, &req, range).unwrap();
    assert_eq!(m1.cells, m2.cells);
}

#[test]
fn rows_follow_request_order() {
    let cat = SignalCatalog::build(12).unwrap();
    let m = decode(&cat, &names(&["signal_2", "signal_1"]), CycleRange { start: 2, end: 3 })
        .unwrap();
    // At cycle 2, signal_2 (key 2) reads bit 2 = 0; signal_1 (key 1) reads bit 1 = 1.
    assert_eq!(m.cells[0][0], vec![false]);
    assert_eq!(m.cells[1][0], vec![true]);
}

#[test]
fn empty_request_yields_zero_rows() {
    let cat = SignalCatalog::build(10).unwrap();
    let m = decode(&cat, &names(&[]), CycleRange { start: 0, end: 5 }).unwrap();
    assert_eq!(m.cells.len(), 0);
}

#[test]
fn empty_range_yields_zero_columns() {
    let cat = SignalCatalog::build(10).unwrap();
    let m = decode(&cat, &names(&["signal_1", "signal_2"]), CycleRange { start: 7, end: 7 })
        .unwrap();
    assert_eq!(m.cells.len(), 2);
    assert_eq!(m.cells[0].len(), 0);
    assert_eq!(m.cells[1].len(), 0);
}

#[test]
fn unknown_signal_fails_whole_call() {
    let cat = SignalCatalog::build(10).unwrap();
    let err = decode(&cat, &names(&["signal_999999"]), CycleRange { start: 0, end: 1 })
        .unwrap_err();
    let DecodeError::SignalNotFound(name) = err;
    assert_eq!(name, "signal_999999");
}

#[test]
fn first_missing_signal_is_named() {
    let cat = SignalCatalog::build(10).unwrap();
    let err = decode(
        &cat,
        &names(&["signal_1", "signal_42", "signal_77"]),
        CycleRange { start: 0, end: 4 },
    )
        .unwrap_err();
    assert_eq!(err.signal_name().as_str(), "signal_42");
}

#[test]
fn provider_decodes_like_the_free_function() {
    let p = sigtrace::TraceProvider::new(10, 64).unwrap();
    let m = p.decode(&names(&["signal_4"]), CycleRange { start: 16, end: 17 }).unwrap();
    // signal_4 has key 4: bit 4 of cycle 16 is 1.
    assert_eq!(m.cells[0][0], vec![true]);
}
