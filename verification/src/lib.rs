//! Virtual composite HID device model: the report descriptor for a
//! keyboard / system-control / consumer-control / vendor / mouse device
//! multiplexed by Report ID, and the per-ID framing of forwarded reports.
pub mod descriptor;
pub mod endpoint;
pub mod items;
pub mod report;
