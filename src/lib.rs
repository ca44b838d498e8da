//! Command handlers of a small desktop backend: an integer calculator, a
//! greeting, a hardware summary and a bounded status emitter.
pub mod calc;
pub mod decimal;
pub mod greeting;
pub mod hardware;
pub mod monitor;

pub use calc::{calculate, CalculationResult};
pub use greeting::greet;
pub use hardware::{get_hardware_info, hardware_info_from, HardwareInfo, SystemSnapshot};
pub use monitor::{Channel, Emission, Monitor, ProcessStatus};
