//! Errors raised when parsing a textual rectangle specification.
//!
//! These are the only recoverable failures in the crate: every geometry
//! operation is a total function over well-formed inputs.

use vstd::prelude::*;

verus! {

/// The input does not match the slurp style `"{x},{y} {w}x{h}"`.
#[derive(Debug, PartialEq, Eq, Structural, Clone, Copy)]
pub struct NotSlurpStyleError;

/// The input does not match the xrectsel style `"{w}x{h}+{x}+{y}"`.
#[derive(Debug, PartialEq, Eq, Structural, Clone, Copy)]
pub struct NotXRectSelStyleError;

/// The input matches neither of the two supported rectangle formats.
#[derive(Debug, PartialEq, Eq, Structural, Clone, Copy)]
pub struct UnparseableRectError;

} // verus!
