//! Butcher tableaux for the Dormand-Prince family of explicit Runge-Kutta
//! methods.
//!
//! A Butcher tableau is the set of fixed coefficients (`a`, `b`, `c`, ...)
//! that parameterizes one Runge-Kutta integration scheme.  This crate holds
//! two of them:
//!
//! * [`Dopri54`]: the 7-stage method of order 5 with an embedded order-4
//!   error estimator and order-4 dense output;
//! * [`Dopri853`]: the 16-stage method of order 8 with embedded order-5/3
//!   error estimators and order-7 dense output.
//!
//! Every coefficient is a fixed double-precision constant.  Verified code
//! cannot manipulate floating-point values, so each coefficient is stored
//! and returned as the bit pattern of its IEEE 754 binary64 representation,
//! held in a `u64`; a caller recovers the number itself with
//! `f64::from_bits`.  What this crate verifies is the part of the problem
//! where bugs can hide: the triangular and ragged table shapes, the
//! 1-indexed subscript arithmetic over 0-indexed storage, and the rejection
//! of every out-of-range subscript.  Each accessor returns `Some` of exactly
//! the table entry for a valid mathematical subscript and `None` otherwise,
//! and the tables a constructed value holds are pinned, entry by entry, to
//! the published constants.

pub mod dopri54;
pub mod dopri853;

pub use dopri54::Dopri54;
pub use dopri853::Dopri853;
