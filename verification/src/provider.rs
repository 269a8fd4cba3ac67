//! The trace provider: owns the immutable catalog and the declared cycle
//! count, and serves enumeration, cycle-count and decode requests.

use vstd::prelude::*;
use crate::catalog::SignalCatalog;
use crate::decode::CycleRange;
use crate::decode::WaveMatrix;
use crate::decode::spec_all_resolve;
use crate::decode::spec_wave_matrix;
use crate::error::DecodeError;
use crate::error::SetupError;
use crate::error::SetupErrorModel;
use crate::header::parse_header;
use crate::header::spec_parse_header;
use crate::signal::Signal;

verus! {

/// A provider of synthetic signal traces: a read-only catalog plus the total
/// number of cycles it reports to the host.
#[derive(Debug)]
pub struct TraceProvider {
    catalog: SignalCatalog,
    num_cycles: u64,
}

impl TraceProvider {
    pub closed spec fn spec_catalog(self) -> SignalCatalog {
        self.catalog
    }

    pub closed spec fn spec_num_cycles(self) -> u64 {
        self.num_cycles
    }

    pub open spec fn wf(self) -> bool {
        self.spec_catalog().wf()
    }

    /// Builds a provider for `num_signals` signals over `num_cycles` cycles.
    /// Fails only when the signal count cannot be represented by the
    /// platform's collection size.
    pub fn new(num_signals: u64, num_cycles: u64) -> (r: Result<TraceProvider, SetupError>)
        ensures
            match r {
                Ok(p) => {
                    &&& num_signals <= usize::MAX
                    &&& p.wf()
                    &&& p.spec_catalog()@.len() == num_signals
                    &&& p.spec_num_cycles() == num_cycles
                },
                Err(e) => num_signals > usize::MAX && e@ == (SetupErrorModel::CountTooLarge {
                    count: num_signals,
                }),
            },
    {
        match SignalCatalog::build(num_signals) {
            Ok(catalog) => Ok(TraceProvider { catalog, num_cycles }),
            Err(e) => Err(e),
        }
    }

    /// Builds a provider from the header text of a source: the second-to-last
    /// whitespace-delimited token declares the signal count, the last one the
    /// cycle count. `source` identifies where the text came from, for error
    /// reporting.
    pub fn from_header(text: &str, source: &str) -> (r: Result<TraceProvider, SetupError>)
        ensures
            match spec_parse_header(text@, source@) {
                Err(me) => r matches Err(e) && e@ == me,
                Ok(counts) => {
                    if counts.0 <= usize::MAX {
                        &&& r matches Ok(p)
                        &&& p.wf()
                        &&& p.spec_catalog()@.len() == counts.0
                        &&& p.spec_num_cycles() == counts.1
                    } else {
                        r matches Err(e) && e@ == (SetupErrorModel::CountTooLarge {
                            count: counts.0,
                        })
                    }
                },
            },
    {
        match parse_header(text, source) {
            Ok((num_signals, num_cycles)) => TraceProvider::new(num_signals, num_cycles),
            Err(e) => Err(e),
        }
    }

    /// The ordered sequence of all signals the provider can supply.
    pub fn enumerate_signals(&self) -> (r: &Vec<Signal>)
        ensures
            r@ == self.spec_catalog()@,
    {
        self.catalog.enumerate_signals()
    }

    /// The total number of valid cycles.
    pub fn cycle_count(&self) -> (n: u64)
        ensures
            n == self.spec_num_cycles(),
    {
        self.num_cycles
    }

    /// Decodes the requested signals over the requested cycle range; see
    /// [`crate::decode::decode`].
    pub fn decode(&self, names: &Vec<String>, range: CycleRange) -> (r: Result<
        WaveMatrix,
        DecodeError,
    >)
        requires
            self.wf(),
            range.wf(),
            range.spec_len() <= usize::MAX,
        ensures
            r is Ok <==> spec_all_resolve(self.spec_catalog(), names.deep_view()),
            r matches Ok(m) ==> m@ == spec_wave_matrix(
                self.spec_catalog(),
                names.deep_view(),
                range,
            ),
            r matches Err(e) ==> exists|j: int|
                {
                    &&& 0 <= j < names.deep_view().len()
                    &&& !self.spec_catalog().spec_contains(#[trigger] names.deep_view()[j])
                    &&& forall|t: int|
                        0 <= t < j ==> self.spec_catalog().spec_contains(
                            #[trigger] names.deep_view()[t],
                        )
                    &&& e@ == names.deep_view()[j]
                },
    {
        crate::decode::decode(&self.catalog, names, range)
    }
}

} // verus!
