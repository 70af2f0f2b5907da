//! A small verified library around a parallel-reduction bridge: it sums a
//! borrowed sequence of unsigned integers on a work-stealing thread pool and
//! resolves the one-shot handoff outcome that carries the single result back
//! to a cooperatively scheduled caller. Beside the bridge stand a few verified
//! utilities: a bit-flag permission set, a branded identifier, and
//! assertion-style division helpers.

pub mod bitflags;
pub mod brands;
pub mod errors;
pub mod reduce;
