//! The signal catalog: a deterministic enumeration of signals, and the
//! name-to-metadata mapping the decoder resolves requests against.

use vstd::prelude::*;
use crate::error::SetupError;
use crate::numeral::lemma_decimal_injective;
use crate::numeral::push_decimal;
use crate::numeral::spec_decimal;
use crate::signal::Signal;
use crate::signal::SignalKind;

verus! {

/// The characters every signal name starts with.
pub open spec fn spec_signal_prefix() -> Seq<char> {
    seq!['s', 'i', 'g', 'n', 'a', 'l', '_']
}

/// The name of signal `i`: the fixed prefix followed by `i` in decimal.
pub open spec fn spec_signal_name(i: nat) -> Seq<char> {
    spec_signal_prefix() + spec_decimal(i)
}

/// The kind of signal `i`: every tenth signal is a 15-bit-wide vector, all
/// others are single bits.
pub open spec fn spec_signal_kind(i: nat) -> SignalKind {
    if i % 10 == 0 {
        SignalKind::Vector(15, 0)
    } else {
        SignalKind::Bit
    }
}

/// The rotation key of signal `i`.
pub open spec fn spec_signal_rotation(i: nat) -> u32 {
    (i % 16) as u32
}

/// Distinct signal indices carry distinct names.
pub proof fn lemma_signal_names_unique(i: nat, j: nat)
    requires
        i != j,
    ensures
        spec_signal_name(i) != spec_signal_name(j),
{
    if spec_signal_name(i) == spec_signal_name(j) {
        let p = spec_signal_prefix();
        let a = spec_decimal(i);
        let b = spec_decimal(j);
        assert((p + a).len() == (p + b).len());
        assert forall|k: int| 0 <= k < a.len() implies a[k] == b[k] by {
            assert((p + a)[p.len() + k] == a[k]);
            assert((p + b)[p.len() + k] == b[k]);
        };
        assert(a =~= b);
        lemma_decimal_injective(i, j);
    }
}

/// The catalog of all signals, ordered by index. Built once; read-only
/// afterward.
#[derive(Debug)]
pub struct SignalCatalog {
    signals: Vec<Signal>,
}

impl View for SignalCatalog {
    type V = Seq<Signal>;

    closed spec fn view(&self) -> Seq<Signal> {
        self.signals@
    }
}

impl SignalCatalog {
    /// Every entry of the catalog is the signal its index prescribes: the
    /// synthetic name, the kind rule, and the rotation key `i % 16`.
    pub open spec fn wf(self) -> bool {
        forall|i: int|
            0 <= i < self@.len() ==> {
                &&& (#[trigger] self@[i]).name@ == spec_signal_name(i as nat)
                &&& self@[i].kind == spec_signal_kind(i as nat)
                &&& self@[i].rotation_key == spec_signal_rotation(i as nat)
            }
    }

    /// Whether some catalog entry carries this name.
    pub open spec fn spec_contains(self, name: Seq<char>) -> bool {
        exists|i: int| 0 <= i < self@.len() && (#[trigger] self@[i]).name@ == name
    }

    /// Builds the catalog for `num_signals` signals. Fails only when the
    /// count cannot be represented by the platform's collection size.
    pub fn build(num_signals: u64) -> (r: Result<SignalCatalog, SetupError>)
        ensures
            match r {
                Ok(c) => num_signals <= usize::MAX && c@.len() == num_signals && c.wf(),
                Err(e) => num_signals > usize::MAX && e == (SetupError::CountTooLarge {
                    count: num_signals,
                }),
            },
    {
        if num_signals > usize::MAX as u64 {
            return Err(SetupError::CountTooLarge { count: num_signals });
        }
        let mut signals: Vec<Signal> = Vec::new();
        let mut i: u64 = 0;
        proof {
            reveal_strlit("signal_");
        }
        while i < num_signals
            invariant
                i <= num_signals,
                signals@.len() == i,
                forall|j: int|
                    0 <= j < i ==> {
                        &&& (#[trigger] signals@[j]).name@ == spec_signal_name(j as nat)
                        &&& signals@[j].kind == spec_signal_kind(j as nat)
                        &&& signals@[j].rotation_key == spec_signal_rotation(j as nat)
                    },
            decreases num_signals - i,
        {
            let mut name: String = "signal_".to_owned();
            proof {
                reveal_strlit("signal_");
                assert(name@ =~= spec_signal_prefix());
            }
            push_decimal(&mut name, i);
            let kind = if i % 10 == 0 {
                SignalKind::Vector(15, 0)
            } else {
                SignalKind::Bit
            };
            let rotation_key: u32 = (i % 16) as u32;
            signals.push(Signal { name, kind, rotation_key });
            i = i + 1;
        }
        Ok(SignalCatalog { signals })
    }

    /// The ordered sequence of all signals, for enumeration by the host.
    pub fn enumerate_signals(&self) -> (r: &Vec<Signal>)
        ensures
            r@ == self@,
    {
        &self.signals
    }

    /// The number of signals in the catalog.
    pub fn len(&self) -> (n: usize)
        ensures
            n == self@.len(),
    {
        self.signals.len()
    }

    /// Resolves a name to its rotation key and kind; `None` exactly when no
    /// signal of the catalog carries the name.
    pub fn lookup(&self, name: &String) -> (r: Option<(u32, SignalKind)>)
        requires
            self.wf(),
        ensures
            r is Some <==> self.spec_contains(name@),
            forall|i: int|
                0 <= i < self@.len() && (#[trigger] self@[i]).name@ == name@ ==> r == Some(
                    (self@[i].rotation_key, self@[i].kind),
                ),
    {
        let n = self.signals.len();
        let mut j: usize = 0;
        while j < n
            invariant
                self.wf(),
                j <= n == self@.len(),
                forall|t: int| 0 <= t < j ==> (#[trigger] self@[t]).name@ != name@,
            decreases n - j,
        {
            if name.eq(&self.signals[j].name) {
                proof {
                    assert forall|i: int|
                        0 <= i < self@.len() && (#[trigger] self@[i]).name@ == name@ implies i
                        == j by {
                        if i != j {
                            lemma_signal_names_unique(i as nat, j as nat);
                        }
                    };
                }
                return Some((self.signals[j].rotation_key, self.signals[j].kind));
            }
            j = j + 1;
        }
        None
    }
}

} // verus!
