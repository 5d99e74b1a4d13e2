//! Attribute tables relating IPP values to Windows print-schema names.

pub mod pair_relation;
pub mod ipp_sys_predefined_map;
pub mod media_name;
pub mod print_color_mode;
pub mod sides;
pub mod orientation;
pub mod media_size;
pub mod printer_resolution;
