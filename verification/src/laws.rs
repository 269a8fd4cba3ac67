//! Laws of the catalog and the decoder, stated and proved once and for all.

use vstd::prelude::*;
use crate::bits::spec_rotate_right_u64;
use crate::catalog::SignalCatalog;
use crate::catalog::lemma_signal_names_unique;
use crate::catalog::spec_signal_name;
use crate::decode::CycleRange;
use crate::decode::spec_index_of;
use crate::decode::spec_wave_matrix;
use crate::signal::SignalKind;

verus! {

/// Law: a well-formed catalog of `n` signals enumerates exactly its `n`
/// entries with pairwise distinct names, and entry `i` is the 16-wide-indexed
/// vector `Vector(15, 0)` exactly when `i` is divisible by 10, a single bit
/// otherwise.
pub proof fn lemma_enumeration(c: SignalCatalog)
    requires
        c.wf(),
    ensures
        forall|i: int, j: int|
            0 <= i < c@.len() && 0 <= j < c@.len() && i != j ==> (#[trigger] c@[i]).name@ != (
            #[trigger] c@[j]).name@,
        forall|i: int|
            0 <= i < c@.len() ==> ((#[trigger] c@[i]).kind == SignalKind::Vector(15, 0) <==> i % 10
                == 0),
        forall|i: int|
            0 <= i < c@.len() ==> ((#[trigger] c@[i]).kind == SignalKind::Bit <==> i % 10 != 0),
{
    assert forall|i: int, j: int|
        0 <= i < c@.len() && 0 <= j < c@.len() && i != j implies (#[trigger] c@[i]).name@ != (
    #[trigger] c@[j]).name@ by {
        lemma_signal_names_unique(i as nat, j as nat);
    };
}

/// Law: every rotation key of a well-formed catalog is `i % 16`, hence lies
/// in `[0, 16)`; and two well-formed catalogs of the same signal count are
/// identical in every field of every entry.
pub proof fn lemma_catalog_deterministic(c1: SignalCatalog, c2: SignalCatalog)
    requires
        c1.wf(),
        c2.wf(),
        c1@.len() == c2@.len(),
    ensures
        forall|i: int|
            0 <= i < c1@.len() ==> (#[trigger] c1@[i]).rotation_key == i % 16
                && c1@[i].rotation_key < 16,
        forall|i: int|
            0 <= i < c1@.len() ==> {
                &&& (#[trigger] c1@[i]).name@ == c2@[i].name@
                &&& c1@[i].kind == c2@[i].kind
                &&& c1@[i].rotation_key == c2@[i].rotation_key
            },
{
}

/// Law: decoding is pure. The decoded matrix is a function of the catalog,
/// the requested names and the range alone, so two successful decodes of
/// identical requests hold bit-identical contents.
pub proof fn lemma_decode_pure(
    c: SignalCatalog,
    names: Seq<Seq<char>>,
    range: CycleRange,
    m1: Seq<Seq<Seq<bool>>>,
    m2: Seq<Seq<Seq<bool>>>,
)
    requires
        m1 == spec_wave_matrix(c, names, range),
        m2 == spec_wave_matrix(c, names, range),
    ensures
        m1 == m2,
{
}

/// The name of signal `i` resolves back to index `i` in a well-formed
/// catalog.
pub proof fn lemma_index_of_name(c: SignalCatalog, i: int)
    requires
        c.wf(),
        0 <= i < c@.len(),
    ensures
        c.spec_contains(spec_signal_name(i as nat)),
        spec_index_of(c, spec_signal_name(i as nat)) == i,
{
    assert(c@[i].name@ == spec_signal_name(i as nat));
    let i0 = spec_index_of(c, spec_signal_name(i as nat));
    assert(0 <= i0 < c@.len() && c@[i0].name@ == spec_signal_name(i as nat));
    if i0 != i {
        lemma_signal_names_unique(i0 as nat, i as nat);
    }
}

/// Law: a `Bit` signal with rotation key `k`, decoded over the one-cycle
/// range `[c, c + 1)`, yields the single boolean that is bit 0 of the
/// right-rotation of `c` by `k` positions.
pub proof fn lemma_bit_cell(cat: SignalCatalog, i: int, range: CycleRange)
    requires
        cat.wf(),
        0 <= i < cat@.len(),
        i % 10 != 0,
        range.wf(),
        range.spec_len() == 1,
    ensures
        ({
            let m = spec_wave_matrix(cat, seq![spec_signal_name(i as nat)], range);
            &&& m.len() == 1
            &&& m[0].len() == 1
            &&& m[0][0] == seq![
                (spec_rotate_right_u64(range.start, cat@[i].rotation_key) & 1) == 1,
            ]
        }),
{
    lemma_index_of_name(cat, i);
    assert(cat@[i].kind == SignalKind::Bit);
}

/// Law: a `Vector(15, 0)` signal decoded over the one-cycle range
/// `[c, c + 1)` yields the low 15 bits of `c`, most-significant first: the
/// boolean at position `k` is bit `14 - k` of `c`.
pub proof fn lemma_vector_cell(cat: SignalCatalog, i: int, range: CycleRange)
    requires
        cat.wf(),
        0 <= i < cat@.len(),
        i % 10 == 0,
        range.wf(),
        range.spec_len() == 1,
    ensures
        ({
            let m = spec_wave_matrix(cat, seq![spec_signal_name(i as nat)], range);
            &&& m.len() == 1
            &&& m[0].len() == 1
            &&& m[0][0].len() == 15
            &&& forall|k: int|
                0 <= k < 15 ==> m[0][0][k] == (((range.start >> ((14 - k) as u64)) & 1) == 1)
        }),
{
    lemma_index_of_name(cat, i);
    assert(cat@[i].kind == SignalKind::Vector(15, 0));
    assert(cat@[i].kind.spec_width() == 15);
}

/// Law: an empty request and an empty range are both valid. With no names
/// the matrix has zero rows; with an empty range it has one row per name,
/// each of zero columns; in general it is rectangular: one row per name, one
/// column per cycle.
pub proof fn lemma_matrix_shape(cat: SignalCatalog, names: Seq<Seq<char>>, range: CycleRange)
    requires
        range.wf(),
    ensures
        spec_wave_matrix(cat, names, range).len() == names.len(),
        forall|j: int|
            0 <= j < names.len() ==> (#[trigger] spec_wave_matrix(cat, names, range)[j]).len()
                == range.spec_len(),
        names.len() == 0 ==> spec_wave_matrix(cat, names, range) =~= Seq::<Seq<Seq<bool>>>::empty(),
{
}

} // verus!
