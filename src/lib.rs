//! Decoding of the binary step files written by a thermal simulation into
//! validated records, ready to be written out as delimited text.

pub mod bytes;
pub mod driver;
pub mod error;
pub mod history;
pub mod laws;
pub mod temperature;
pub mod velocity;

pub use bytes::Endian;
pub use driver::{convert_files, process_files, FailurePolicy, Progress, StepInput, StepOutput};
pub use error::{ConvertError, Decoded};
pub use history::{decode_history, history_header, HistoryRecord};
pub use temperature::{decode_temperature, temperature_header, TemperatureRecord};
pub use velocity::{decode_velocity, velocity_header, VelocityRecord};
