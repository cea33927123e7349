//! Per-channel control of a PCA9685 PWM controller: limits on the
//! off-count of each channel, and the bookkeeping of what each channel
//! was last told to output.

pub mod limits;
pub mod driver;
pub mod error;
pub mod channel;
pub mod laws;

pub use limits::{ChannelCountLimits, PCA_PWM_RESOLUTION};
pub use driver::{Command, DriverError, Pca9685Proxy};
pub use error::{Pca9685Error, Pca9685Result};
pub use channel::{ChannelConfig, ChannelProxy};
