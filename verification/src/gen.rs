//! Generation of identifiers from the wall clock and the thread-local
//! random generator.

use rand::Rng;
use vstd::prelude::*;

verus! {

use crate::layout::build_v7;
use crate::layout::is_v7;
use crate::layout::lemma_v7_markers;
use crate::layout::spec_v7_bytes;
use crate::render::format_uuid;
use crate::render::spec_format;

/// Relies on `std::time::SystemTime::now`: the wall clock read as whole
/// milliseconds since the Unix epoch, or `None` when the clock reports
/// a time before the epoch. Nothing can be promised of the value read.
#[verifier::external_body]
fn now_unix_millis() -> (r: Option<u64>) {
    match std::time::SystemTime::now().duration_since(std::time::UNIX_EPOCH) {
        Ok(d) => Some(d.as_millis() as u64),
        Err(_) => None,
    }
}

/// Relies on `rand::rng` and `rand::Rng::fill_bytes`: the thread-local
/// generator fills the buffer with random bytes. Nothing can be
/// promised of the values drawn.
#[verifier::external_body]
fn random_fill() -> (r: [u8; 10]) {
    let mut buf = [0u8; 10];
    rand::rng().fill_bytes(&mut buf);
    buf
}

/// Builds one fresh identifier from the current wall-clock time and ten
/// random bytes, or returns `None` when the clock reports a pre-epoch
/// time. Whatever the clock and the generator returned, a produced
/// identifier carries the version 7 layout of `spec_v7_bytes`, with its
/// fixed version and variant markers.
pub fn generate_v7() -> (r: Option<[u8; 16]>)
    ensures
        r matches Some(id) ==> is_v7(id@),
        r matches Some(id) ==> exists|ms: u64, fill: Seq<u8>|
            fill.len() == 10 && id@ == spec_v7_bytes(ms, fill),
{
    match now_unix_millis() {
        Some(ms) => {
            let fill = random_fill();
            let id = build_v7(ms, &fill);
            proof {
                lemma_v7_markers(ms, fill@);
                assert(fill@.len() == 10 && id@ == spec_v7_bytes(ms, fill@));
            }
            Some(id)
        },
        None => None,
    }
}

/// The text is the rendering, under the given options, of some
/// well-formed version 7 identifier.
pub open spec fn is_rendered_v7(l: Seq<char>, no_hyphen: bool, braced: bool, upper: bool) -> bool {
    exists|id: Seq<u8>| is_v7(id) && l == spec_format(id, no_hyphen, braced, upper)
}

/// Generates `count` identifiers and renders each under the given
/// options, one string per identifier in generation order, or returns
/// `None` when the clock reports a pre-epoch time during the run.
/// Every line is the rendering of some well-formed version 7
/// identifier.
pub fn generate_lines(count: usize, no_hyphen: bool, braced: bool, upper: bool) -> (r: Option<
    Vec<String>,
>)
    ensures
        r matches Some(lines) ==> lines@.len() == count,
        r matches Some(lines) ==> forall|i: int|
            0 <= i < count ==> #[trigger] is_rendered_v7(lines@[i]@, no_hyphen, braced, upper),
{
    let mut lines: Vec<String> = Vec::new();
    let mut k: usize = 0;
    while k < count
        invariant
            k <= count,
            lines@.len() == k,
            forall|i: int|
                0 <= i < k ==> #[trigger] is_rendered_v7(lines@[i]@, no_hyphen, braced, upper),
        decreases count - k,
    {
        match generate_v7() {
            Some(id) => {
                let line = format_uuid(id, no_hyphen, braced, upper);
                lines.push(line);
                k = k + 1;
                proof {
                    assert(is_v7(id@) && line@ == spec_format(id@, no_hyphen, braced, upper));
                    assert(is_rendered_v7(line@, no_hyphen, braced, upper));
                }
            },
            None => {
                return None;
            },
        }
    }
    Some(lines)
}

} // verus!
