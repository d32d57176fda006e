//! Pairwise overlap rates for Gaussian mixture components.
//!
//! A mixture of N weighted Gaussian components yields one overlap score per
//! unordered component pair. For a pair, the two-component sub-mixture's
//! density is sampled along the line through the two means; strict local
//! maxima (peaks) and minima (saddles) of that sampled sequence decide
//! whether the sub-mixture looks unimodal (full overlap) or bimodal (the
//! overlap is the first saddle density over the smallest peak density).
//!
//! This crate holds the discrete core of that pipeline: input shape
//! validation, pair enumeration, extrema scanning, and the verdict derived
//! from the scan. Density values enter as IEEE-754 double bit patterns, kept
//! in `u64`; on bit patterns of nonnegative doubles, unsigned integer order
//! coincides with numeric order, so every comparison the core makes is the
//! comparison the densities themselves would make. Evaluating the densities
//! is floating-point work and stays with the caller.

pub mod adapter;
pub mod error;
pub mod pairs;
pub mod scan;
pub mod verdict;
