//! Astrocartography core library.
//!
//! Computes, for a birth instant, the world-map geometry of planetary angular
//! lines (MC, IC, ASC, DSC), their zodiac-aspect analogues and paran
//! latitudes, and scores a city catalogue against those lines with a
//! distance-decayed influence field.
//!
//! All geometry and scoring is carried out in fixed-point integer units so
//! that every result is deterministic and machine-checkable:
//! angles in micro-degrees, Julian Dates in milliseconds of a day,
//! distances in metres, unit-interval values (sines, decay kernels) in
//! parts per 10^12 or per 10^6 as each module states.

pub mod angle;
pub mod calendar;
pub mod chart;
pub mod ephemeris;
pub mod fixmath;
pub mod frames;
pub mod geo;
pub mod houses;
pub mod lines;
pub mod rank;
pub mod scoring;
pub mod scout;
pub mod timescale;
pub mod trig;
pub mod tz;
