//! Exact, integer-valued core of a QPSK modulator.
//!
//! The library turns a bit string and three integer frequencies into a
//! sample-by-sample modulation plan: the in-phase and quadrature NRZ levels of
//! every sample, together with the exact carrier phase of that sample as a
//! fraction of a turn. Evaluating the trigonometric functions and scaling by
//! the carrier amplitude is left to the caller.
pub mod bits;
pub mod params;
pub mod timebase;
pub mod carrier;
pub mod nrz;
pub mod modulator;
pub mod sink;
