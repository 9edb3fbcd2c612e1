//! The completion latch, as `crossbeam_utils::sync::Parker` provides it: a
//! token that is absent at first, that the signalling side makes available,
//! and for which the waiting side blocks.
//!
//! Whether the token is there at a given moment depends on the other
//! thread, so the declarations below promise nothing beyond the calls
//! themselves.

use crossbeam_utils::sync::{Parker, Unparker};
use vstd::prelude::*;

verus! {

/// The waiting side of a latch: `crossbeam_utils::sync::Parker`.
#[verifier::external_type_specification]
#[verifier::external_body]
pub struct ExParker(Parker);

/// The signalling side of a latch: `crossbeam_utils::sync::Unparker`.
#[verifier::external_type_specification]
#[verifier::external_body]
pub struct ExUnparker(Unparker);

/// `Parker::new`: a latch whose token is absent.
///
/// Trusted: nothing of the result.
pub assume_specification[ Parker::new ]() -> (parker: Parker)
;

/// `Parker::unparker`: the signalling side that belongs to this latch.
///
/// Trusted: nothing of the result.
pub assume_specification<'a>[ Parker::unparker ](parker: &'a Parker) -> (unparker: &'a Unparker)
;

/// `Unparker::clone`: one more handle on the same signalling side.
///
/// Trusted: nothing of the result.
pub assume_specification[ <Unparker as Clone>::clone ](unparker: &Unparker) -> (copy: Unparker)
;

/// `Unparker::unpark`: makes the token available, and wakes the waiting
/// side if it is blocked.
///
/// Trusted: that the call returns.
pub assume_specification[ Unparker::unpark ](unparker: &Unparker)
;

/// `Parker::park`: blocks until the token is available, and takes it. With
/// no signal the call blocks for ever.
///
/// Trusted: nothing beyond the call.
pub assume_specification[ Parker::park ](parker: &Parker)
;

} // verus!
