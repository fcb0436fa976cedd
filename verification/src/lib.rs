//! Hydraulic system of a twin-engine transport aircraft.
//!
//! Three loops (green, yellow, blue) are fed by engine-driven and electric
//! pumps, and a power transfer unit couples the green and the yellow loop.
//! Each loop is a lumped model: a reservoir, a body that has to be primed,
//! a compressible high-pressure section, a gas-charged accumulator and a
//! static leak. The system is advanced at a fixed step of 100 ms, whatever
//! the frame rate of the host.
//!
//! All quantities are decimal fixed-point numbers ([`fixed::Fixed`]) in psi,
//! US gallons, gallons per second and seconds. Every operation on them is
//! total: results are rounded toward zero and clamped to the representable
//! range, so that a step never fails and gives the same result on every
//! machine.
//!
//! * [`fixed`], [`units`], [`interpolation`]: numbers, constants and table
//!   lookup.
//! * [`pump`], [`ptu`], [`hyd_loop`]: the components and their steps.
//! * [`accumulator`], [`balance`], [`standstill`]: what holds of a loop from
//!   step to step.
//! * [`a320`], [`overhead`], [`simulation`]: the system of the aircraft, its
//!   push-buttons and what the host hands to it.
//! * [`actuator`], [`history`]: consumers and the record of a run.
pub mod fixed;
pub mod units;
pub mod interpolation;
pub mod simulation;
pub mod overhead;
pub mod hyd_loop;
pub mod accumulator;
pub mod balance;
pub mod standstill;
pub mod ptu;
pub mod pump;
pub mod actuator;
pub mod a320;
pub mod history;
