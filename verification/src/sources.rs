//! The two things that an operation takes from the machine it runs on: the
//! time and a random suffix. Nothing is known of either before it is read.

use rand::Rng;
use vstd::prelude::*;

verus! {

/// The error of the random source.
#[verifier::external_type_specification]
#[verifier::external_body]
pub struct ExRandError(rand::Error);

/// Whether the text ends in the offset of UTC, written out: `+00:00`.
pub open spec fn spec_carries_utc_offset(text: Seq<char>) -> bool {
    text.len() >= 6 && text.subrange(text.len() - 6, text.len() as int) == seq![
        '+',
        '0',
        '0',
        ':',
        '0',
        '0',
    ]
}

/// Calls `chrono::Utc::now` and formats the time with `%+`: date, `T`, time
/// with fractional seconds where there are any, and the offset. Not proved
/// here: that the text ends in `+00:00`, the offset that chrono writes for
/// UTC. Nothing else is claimed of the text, which depends on the clock.
/// `now` panics where the clock stands before 1970.
#[verifier::external_body]
pub(crate) fn now_timestamp() -> (text: String)
    ensures
        spec_carries_utc_offset(text@),
{
    chrono::Utc::now().format("%+").to_string()
}

/// Calls `rand::Rng::try_fill` on `rand::thread_rng()` with four bytes.
/// Nothing is claimed of the bytes, nor of when the source fails.
/// `thread_rng` panics where the generator cannot be seeded.
#[verifier::external_body]
pub(crate) fn draw_suffix() -> (drawn: Result<[u8; 4], rand::Error>) {
    let mut code: [u8; 4] = [0u8; 4];
    match rand::thread_rng().try_fill(&mut code) {
        Ok(()) => Ok(code),
        Err(error) => Err(error),
    }
}

} // verus!
