//! Laws: what the tests and readings of the probes mean, said of the events and
//! texts themselves.
pub mod cells;
pub mod decisions;
pub mod events;
pub mod files;
pub mod grids;
pub mod imports;
pub mod leaks;
pub mod loads;
pub mod outcome;
pub mod routines;
pub mod runs;
pub mod saves;
pub mod steps;
pub mod tabs;
pub mod targets;
pub mod texts;
pub mod trips;
pub mod words;
