//! A deterministic signal-trace data provider.
//!
//! The library enumerates a catalog of synthetic signals and decodes, for any
//! subset of signal names and any half-open cycle range, a dense matrix of
//! per-cycle bit values derived purely from the cycle counter.

mod bits;
mod catalog;
mod decode;
mod error;
mod header;
mod laws;
mod numeral;
mod provider;
mod signal;

pub use bits::rotate_right_u64;
pub use bits::spec_rotate_right_u64;
pub use catalog::SignalCatalog;
pub use catalog::lemma_signal_names_unique;
pub use catalog::spec_signal_kind;
pub use catalog::spec_signal_name;
pub use catalog::spec_signal_prefix;
pub use catalog::spec_signal_rotation;
pub use decode::CycleRange;
pub use decode::WaveMatrix;
pub use decode::decode;
pub use decode::spec_all_resolve;
pub use decode::spec_cell;
pub use decode::spec_cell_of;
pub use decode::spec_index_of;
pub use decode::spec_wave_matrix;
pub use error::DecodeError;
pub use error::HeaderField;
pub use error::SetupError;
pub use error::SetupErrorModel;
pub use header::parse_header;
pub use header::spec_header_tokens;
pub use header::spec_parse_header;
pub use laws::lemma_bit_cell;
pub use laws::lemma_catalog_deterministic;
pub use laws::lemma_decode_pure;
pub use laws::lemma_enumeration;
pub use laws::lemma_index_of_name;
pub use laws::lemma_matrix_shape;
pub use laws::lemma_vector_cell;
pub use numeral::parse_u64_numeral;
pub use numeral::push_decimal;
pub use numeral::spec_decimal;
pub use numeral::spec_decimal_value;
pub use numeral::spec_is_u64_numeral;
pub use numeral::spec_numeral_body;
pub use provider::TraceProvider;
pub use signal::Signal;
pub use signal::SignalKind;
