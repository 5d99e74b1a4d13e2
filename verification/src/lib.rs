//! Printer-sharing logic: configuration model, attribute tables that relate
//! IPP keywords to Windows print-schema names, and the decisions that turn a
//! printer's capabilities into the attributes it advertises over IPP.

pub mod attr;
pub mod config;
pub mod dnssd;
pub mod handler;
pub mod ipp_service;
pub mod ipp_values;
pub mod print_options;
pub mod raster;
pub mod server;
pub mod urf;
pub mod text;
