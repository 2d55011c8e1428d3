//! A peer-to-peer chat node's verified core.
//!
//! * [`content_id`]: content-derived message identifiers.
//! * [`id_set`]: sets of textual identifiers.
//! * [`driver`]: the overlay driver, one step per event, with an exact model.
//! * [`laws`]: what holds over whole runs of the driver.
//! * [`settings`]: the node's compiled-in parameters.
//! * [`host`]: small commands offered to the front end.
use vstd::prelude::*;

pub mod content_id;
pub mod id_set;
pub mod driver;
pub mod laws;
pub mod settings;
pub mod host;

verus! {

} // verus!
