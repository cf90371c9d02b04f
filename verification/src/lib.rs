//! A two-case outcome type, `B`, with the operations that let a sequence of
//! steps stop at the first alternate case.
//!
//! - `outcome`: the type, its two predicates and `map`.
//! - `propagate`: `branch`, `from_output` and `from_residual`, from which a
//!   chain with early exit is built.
//! - `reshape`: conversion to and from `Result` and `Option`.
//! - `container`: taking a payload out.
//! - `report`: how a process ends with an outcome as its final value.

pub mod container;
pub mod outcome;
pub mod propagate;
pub mod report;
pub mod reshape;

pub use container::Container;
pub use outcome::B;
pub use report::Report;
pub use reshape::ReShape;
