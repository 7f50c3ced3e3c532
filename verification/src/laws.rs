//! What holds of the clipboard as a whole.
pub mod between_clients;
pub mod handing_over;
pub mod opening;
pub mod reading;
pub mod serving;
pub mod stray_replies;
pub mod transferring;
pub mod turns;
pub mod values;
pub mod views;
pub mod waiting;
pub mod world;
pub mod writing;
