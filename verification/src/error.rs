//! Error taxonomy of the sensor core.

use vstd::prelude::*;

verus! {

/// Why a single bus transaction set failed.  Calibration and measurement
/// assembly propagate these causes unchanged: the caller decides whether to
/// retry or abort.
#[derive(Clone, Copy, Debug, PartialEq, Eq, Structural)]
pub enum SensorError {
    /// The bus transaction itself failed with an I/O error.
    BusIo,
    /// The device is absent or returned a malformed response.
    BadDevice,
    /// The transaction did not complete in time; also reported by a scripted
    /// link whose prepared readings are exhausted (a stalled bus).
    Timeout,
}

} // verus!
