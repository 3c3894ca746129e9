//! Verified core of an incremental JPEG XL streaming codec protocol.
//!
//! The crate models the event-driven control flow that surrounds a codec
//! backend: feeding input in arbitrarily sized chunks, negotiating output
//! buffers, dispatching pixel callbacks, accumulating encoder output into a
//! growable byte stream, and (de)serializing gain-map bundles.  The actual
//! transform/entropy coding is an external collaborator and is out of scope;
//! everything here is pure protocol logic with machine-checked contracts.

pub mod accumulator;
pub mod bundle;
pub mod color;
pub mod common;
pub mod decoder;
pub mod decoder_enum;
pub mod decoder_struct;
pub mod dispatcher;
pub mod encoder_enum;
pub mod error;
pub mod feeder;
pub mod metadata;
pub mod negotiator;

use vstd::prelude::*;

verus! {

} // verus!
