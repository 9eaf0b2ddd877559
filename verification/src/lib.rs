//! State management core of an interactive terminal list widget: a windowed
//! cursor model over data that may arrive asynchronously, in pages, and out
//! of order, together with the status- and log-keeping types that surround it.

pub mod casing;
pub mod datasource;
pub mod dataview;
pub mod logger;
pub mod status;
