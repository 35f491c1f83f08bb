//! A triangle-mesh part whose vertices are driven parametrically: named
//! attributes apply scalar-controlled transforms (translate / rotate / scale)
//! to selected subsets of vertices, so that changing one number reshapes the
//! part consistently.
//!
//! Coordinates are IEEE-754 double-precision values carried as their bit
//! patterns ([`scalar::Scalar`]); the arithmetic itself is performed by the
//! `rustc_apfloat` and `ieee-apsqrt` crates, while everything built on top
//! of it — vectors, homogeneous matrices, faces, selections, alterations
//! and attributes — is verified against exact contracts.

pub mod errors;
pub mod scalar;
pub mod angle;
pub mod vector;
pub mod matrix;
pub mod triangle;
pub mod face;
pub mod geometry;
pub mod alteration;
pub mod selection;
pub mod attribute;
pub mod utilities;
