//! The cycle decoder: materializes a dense bit matrix for a requested
//! subset of signals over a half-open cycle range.

use vstd::prelude::*;
use crate::bits::rotate_right_u64;
use crate::bits::spec_rotate_right_u64;
use crate::catalog::SignalCatalog;
use crate::error::DecodeError;
use crate::signal::SignalKind;

verus! {

/// A half-open interval `[start, end)` of cycle indices.
#[derive(Clone, Copy, PartialEq, Eq, Structural, Debug)]
pub struct CycleRange {
    pub start: u64,
    pub end: u64,
}

impl CycleRange {
    pub open spec fn wf(self) -> bool {
        self.start <= self.end
    }

    /// The number of cycles the range spans.
    pub open spec fn spec_len(self) -> int {
        self.end - self.start
    }
}

/// The decoded output grid: one row per requested signal, one column per
/// cycle, each cell an ordered sequence of booleans (most-significant bit
/// first for vectors).
#[derive(Debug)]
pub struct WaveMatrix {
    pub cells: Vec<Vec<Vec<bool>>>,
}

impl View for WaveMatrix {
    type V = Seq<Seq<Seq<bool>>>;

    open spec fn view(&self) -> Seq<Seq<Seq<bool>>> {
        self.cells.deep_view()
    }
}

/// The booleans one signal yields at one cycle.
///
/// A `Bit` signal exposes bit 0 of the cycle counter rotated right by the
/// signal's rotation key. A `Vector` signal of width `w` exposes the low `w`
/// bits of the cycle counter, most-significant first.
pub open spec fn spec_cell(kind: SignalKind, key: u32, cycle: u64) -> Seq<bool> {
    match kind {
        SignalKind::Bit => seq![(spec_rotate_right_u64(cycle, key) & 1) == 1],
        SignalKind::Vector(a, b) => Seq::new(
            kind.spec_width() as nat,
            |k: int| ((cycle >> ((kind.spec_width() - k - 1) as u64)) & 1) == 1,
        ),
    }
}

/// The catalog index a resolvable name resolves to.
pub open spec fn spec_index_of(c: SignalCatalog, name: Seq<char>) -> int {
    choose|i: int| 0 <= i < c@.len() && (#[trigger] c@[i]).name@ == name
}

/// The booleans the named signal yields at one cycle.
pub open spec fn spec_cell_of(c: SignalCatalog, name: Seq<char>, cycle: u64) -> Seq<bool> {
    let i = spec_index_of(c, name);
    spec_cell(c@[i].kind, c@[i].rotation_key, cycle)
}

/// Whether every requested name resolves against the catalog.
pub open spec fn spec_all_resolve(c: SignalCatalog, names: Seq<Seq<char>>) -> bool {
    forall|j: int| 0 <= j < names.len() ==> c.spec_contains(#[trigger] names[j])
}

/// The whole decoded matrix: row `j` belongs to the `j`-th requested name,
/// column `i` to cycle `range.start + i`.
pub open spec fn spec_wave_matrix(c: SignalCatalog, names: Seq<Seq<char>>, range: CycleRange) -> Seq<
    Seq<Seq<bool>>,
> {
    Seq::new(
        names.len(),
        |j: int|
            Seq::new(
                range.spec_len() as nat,
                |i: int| spec_cell_of(c, names[j], (range.start + i) as u64),
            ),
    )
}

/// Computes one cell. Verified against `spec_cell`.
fn compute_cell(kind: SignalKind, key: u32, cycle: u64) -> (bits: Vec<bool>)
    requires
        kind.spec_width() <= 64,
    ensures
        bits@ == spec_cell(kind, key, cycle),
{
    let mut bits: Vec<bool> = Vec::new();
    match kind {
        SignalKind::Bit => {
            bits.push((rotate_right_u64(cycle, key) & 1) == 1);
            proof {
                assert(bits@ =~= spec_cell(kind, key, cycle));
            }
        },
        SignalKind::Vector(a, b) => {
            let w: u64 = kind.width();
            let mut k: u64 = 0;
            while k < w
                invariant
                    k <= w == kind.spec_width() <= 64,
                    kind matches SignalKind::Vector(_, _),
                    bits@.len() == k,
                    forall|t: int|
                        0 <= t < k ==> bits@[t] == (((cycle >> ((w - t - 1) as u64)) & 1) == 1),
                decreases w - k,
            {
                bits.push(((cycle >> (w - k - 1)) & 1) == 1);
                k = k + 1;
            }
            proof {
                assert(bits@ =~= spec_cell(kind, key, cycle));
            }
        },
    }
    bits
}

/// Decodes the requested signals over the requested cycle range.
///
/// Every requested name is resolved before any output is produced; if one is
/// missing, the whole call fails with `SignalNotFound` naming the first
/// missing signal, and no partial result is returned. On success, row `j`
/// column `i` of the matrix holds exactly the booleans of the `j`-th
/// requested signal at cycle `range.start + i`.
pub fn decode(catalog: &SignalCatalog, names: &Vec<String>, range: CycleRange) -> (r: Result<
    WaveMatrix,
    DecodeError,
>)
    requires
        catalog.wf(),
        range.wf(),
        range.spec_len() <= usize::MAX,
    ensures
        r is Ok <==> spec_all_resolve(*catalog, names.deep_view()),
        r matches Ok(m) ==> m@ == spec_wave_matrix(*catalog, names.deep_view(), range),
        r matches Err(e) ==> exists|j: int|
            {
                &&& 0 <= j < names.deep_view().len()
                &&& !catalog.spec_contains(#[trigger] names.deep_view()[j])
                &&& forall|t: int|
                    0 <= t < j ==> catalog.spec_contains(#[trigger] names.deep_view()[t])
                &&& e@ == names.deep_view()[j]
            },
{
    let ghost nv = names.deep_view();
    let n_names: usize = names.len();

    // Resolve every name before producing any output.
    let mut resolved: Vec<(u32, SignalKind)> = Vec::new();
    let mut j: usize = 0;
    while j < n_names
        invariant
            catalog.wf(),
            nv == names.deep_view(),
            j <= n_names == names@.len(),
            resolved@.len() == j,
            forall|t: int| 0 <= t < j ==> catalog.spec_contains(#[trigger] nv[t]),
            forall|t: int|
                0 <= t < j ==> #[trigger] resolved@[t] == {
                    let i = spec_index_of(*catalog, nv[t]);
                    (catalog@[i].rotation_key, catalog@[i].kind)
                },
        decreases n_names - j,
    {
        match catalog.lookup(&names[j]) {
            Some(entry) => {
                proof {
                    let i = spec_index_of(*catalog, nv[j as int]);
                    assert(0 <= i < catalog@.len() && catalog@[i].name@ == nv[j as int]);
                }
                resolved.push(entry);
            },
            None => {
                return Err(DecodeError::SignalNotFound(names[j].clone()));
            },
        }
        j = j + 1;
    }

    // Materialize the matrix, signal by signal, cycle by cycle.
    let n_cycles: usize = (range.end - range.start) as usize;
    let ghost mspec = spec_wave_matrix(*catalog, nv, range);
    let mut rows: Vec<Vec<Vec<bool>>> = Vec::new();
    let mut s: usize = 0;
    while s < n_names
        invariant
            catalog.wf(),
            nv == names.deep_view(),
            n_names == names@.len(),
            n_cycles == range.spec_len(),
            range.wf(),
            mspec == spec_wave_matrix(*catalog, nv, range),
            resolved@.len() == n_names,
            forall|t: int| 0 <= t < n_names ==> catalog.spec_contains(#[trigger] nv[t]),
            forall|t: int|
                0 <= t < n_names ==> #[trigger] resolved@[t] == {
                    let i = spec_index_of(*catalog, nv[t]);
                    (catalog@[i].rotation_key, catalog@[i].kind)
                },
            s <= n_names,
            rows@.len() == s,
            forall|t: int| 0 <= t < s ==> #[trigger] rows.deep_view()[t] == mspec[t],
        decreases n_names - s,
    {
        let (key, kind) = resolved[s];
        proof {
            let i = spec_index_of(*catalog, nv[s as int]);
            assert(0 <= i < catalog@.len() && catalog@[i].name@ == nv[s as int]);
            assert(catalog@[i].kind == crate::catalog::spec_signal_kind(i as nat));
        }
        let mut row: Vec<Vec<bool>> = Vec::new();
        let mut c: usize = 0;
        while c < n_cycles
            invariant
                c <= n_cycles == range.spec_len(),
                range.wf(),
                kind.spec_width() <= 64,
                row@.len() == c,
                (key, kind) == {
                    let i = spec_index_of(*catalog, nv[s as int]);
                    (catalog@[i].rotation_key, catalog@[i].kind)
                },
                forall|t: int|
                    0 <= t < c ==> #[trigger] row@[t]@ == spec_cell(
                        kind,
                        key,
                        (range.start + t) as u64,
                    ),
            decreases n_cycles - c,
        {
            let cycle: u64 = range.start + (c as u64);
            row.push(compute_cell(kind, key, cycle));
            c = c + 1;
        }
        proof {
            assert forall|t: int| 0 <= t < n_cycles implies row.deep_view()[t] == mspec[s as int][t] by {
                assert(row@[t].deep_view() =~= row@[t]@);
            };
            assert(row.deep_view() =~= mspec[s as int]);
        }
        let ghost prev = rows.deep_view();
        rows.push(row);
        proof {
            assert forall|t: int| 0 <= t < s + 1 implies #[trigger] rows.deep_view()[t]
                == mspec[t] by {
                if t < s {
                    assert(rows.deep_view()[t] == prev[t]);
                } else {
                    assert(rows@[t] == row);
                }
            };
        }
        s = s + 1;
    }
    let m = WaveMatrix { cells: rows };
    proof {
        assert(m@ =~= mspec);
    }
    Ok(m)
}

} // verus!
