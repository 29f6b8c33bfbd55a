//! Capture engine for full-page screenshots taken through several browser
//! tabs: which URLs survive parsing, how they are split over the tabs, what
//! each tab's worker does next, and what is reported for each outcome.
//!
//! The library decides; the program around it talks to the browser, the
//! network and the disk, and hands back what happened.

pub mod urls;
pub mod target;
pub mod partition;
pub mod outcome;
pub mod worker;
pub mod source;
pub mod settings;
pub mod run;
