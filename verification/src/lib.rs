//! A staged builder whose per-field completion state is part of its type.
//!
//! Two fields (`a`, `b`) have to be set exactly once, one field (`c`) at
//! least once, each further value being added to what it holds.  Only a
//! builder on which all three have their value can be finalized.
//!
//! [`lattice`] describes the phases of one field and its two
//! disciplines.  [`machine`] puts three fields side by side into the
//! builder's state machine and proves its laws.  [`marker`] has the
//! phases as types.  [`builder`] is the executable builder: it offers a
//! setter only on the types whose phase admits the call, so a call
//! sequence that the lattice rejects does not compile.
//!
//! ```text
//! let data = build().cc(1).aa(2).bb(3).cc(4).go();
//! // data == Data { a: 2, b: 3, c: 5 }
//! ```

pub mod builder;
pub mod lattice;
pub mod machine;
pub mod marker;
mod sealed;

pub use builder::{build, Build, Data};
pub use marker::{Allowed, Done, State, ToDo};
