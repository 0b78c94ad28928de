pub mod options;
pub mod properties;
pub mod results;
pub mod status;
pub mod timestamp;
