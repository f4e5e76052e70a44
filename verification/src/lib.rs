//! Parameter subsystem of a multi-parameter reverberation effect.
//!
//! The crate owns the fixed catalogue of 45 named controls, a snapshot type
//! holding one value per control, a lossless codec between a snapshot and the
//! flat 45-slot wire array, an accessor addressing single controls by
//! identifier, and the text-to-value layer that classifies engine display
//! text per control.
//!
//! Control values are carried as the raw bit patterns of IEEE 754
//! single-precision numbers (`u32`): the wire format is a sequence of such
//! values, and the codec passes continuous controls through bit-for-bit.

mod conversion;
mod params;

pub use conversion::NumericRule;
pub use conversion::ParseOutcome;
pub use conversion::contains_sub;
pub use conversion::effective_rule;
pub use conversion::is_keyword;
pub use conversion::is_num_start;
pub use conversion::is_output_level;
pub use conversion::kw_enabled;
pub use conversion::kw_ms;
pub use conversion::kw_muted;
pub use conversion::kw_post;
pub use conversion::matches_at;
pub use conversion::no_num_start;
pub use conversion::norm_of;
pub use conversion::parse_outcome;
pub use conversion::rule_spec;
pub use conversion::seq_has_sub;
pub use conversion::trim_of;
pub use conversion::upper_bytes_of;
pub use params::LateMode;
pub use params::ParamId;
pub use params::Program;
pub use params::bool_bits;
pub use params::bool_to_param;
pub use params::dark_plate;
pub use params::dark_plate_spec;
pub use params::from_ordinal_spec;
pub use params::ge_half;
pub use params::get_spec;
pub use params::is_coded;
pub use params::lemma_accessor_matches_codec;
pub use params::lemma_array_round_trip;
pub use params::lemma_bool_codec_round_trip;
pub use params::lemma_from_ordinal_round_trip;
pub use params::lemma_get_after_set;
pub use params::lemma_ordinal_round_trip;
pub use params::mode_bits;
pub use params::mode_of_bits;
pub use params::ordinal_spec;
pub use params::param_to_bool;
pub use params::program_of_seq;
pub use params::program_seq;
pub use params::set_spec;
