pub mod cancel;
pub mod clock;
pub mod command;
pub mod error;
pub mod image;
pub mod job;
pub mod options;
pub mod output;
pub mod progress;
pub mod reading;
pub mod scan;
pub mod text;
