//! Transport of a scalar mass density across a rectangular grid by a flow
//! field. This library holds the parts of the pipeline that decide rather
//! than compute with floats: grid geometry, the stencil pass that writes
//! interior cells and holds the boundary fixed, upwind selection, the double
//! buffer of the density field, centring of the initial image, validation of
//! a run's configuration, and the schedule of a run. The host supplies the
//! per-cell arithmetic as closures and performs the actions of the schedule.
pub mod config;
pub mod field;
pub mod grid;
pub mod placement;
pub mod schedule;
