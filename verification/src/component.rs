//! Health reporting rules for long-running application components.
//!
//! A component owns a runtime task such as a web server, queue consumer,
//! scheduler or database connector. Health reporting is separate from the
//! component lifecycle.

mod health;

pub use health::{wait_start, wait_step, HealthProbe, WaitCommand, WaitEvent, WaitUntilHealthyError};
