//! Generation and textual rendering of UUID version 7 identifiers.
//!
//! A version 7 identifier is a 16-byte value that embeds a 48-bit
//! millisecond timestamp, a fixed version nibble, a fixed variant marker,
//! and random fill. This crate builds such values and renders them as
//! hexadecimal text under a small set of formatting options.

pub mod gen;
pub mod layout;
pub mod render;

pub use gen::generate_lines;
pub use gen::generate_v7;
pub use gen::is_rendered_v7;

pub use layout::build_v7;
pub use layout::is_v7;
pub use layout::lemma_timestamp_round_trip;
pub use layout::lemma_v7_markers;
pub use layout::spec_timestamp_of;
pub use layout::spec_v7_bytes;
pub use layout::TS_MASK;
pub use render::fold_lower;
pub use render::fold_lower_char;
pub use render::format_uuid;
pub use render::lemma_render_deterministic;
pub use render::lemma_render_lengths;
pub use render::lemma_round_trip;
pub use render::spec_byte_hex;
pub use render::spec_format;
pub use render::spec_hex_digit;
pub use render::spec_hex_range;
pub use render::strip_hyphens;
