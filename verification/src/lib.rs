//! A minimal desktop-application scaffold: a greeting command and the
//! platform-dependent startup sequence, stated and proved.
//!
//! The GUI framework itself (window management, event loop, menu rendering)
//! is an external collaborator; what this library owns is the pure logic:
//! how the greeting string is formed, which startup actions run on which
//! platform and in what order, and how a setup failure propagates.

pub mod greeting;
pub mod startup;
