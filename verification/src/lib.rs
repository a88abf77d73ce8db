pub mod borders;
pub mod chrome;
pub mod colors;
pub mod controls;
pub mod dialog;
pub mod focus;
pub mod form_data;
pub mod keys;
pub mod layout;
pub mod line_buffer;
pub mod render;
pub mod tab_order;
pub mod utils;
