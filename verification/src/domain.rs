//! Study, session, scope and drop logic: values in, values out.

pub mod command_line;
pub mod drop_copy;
pub mod drop_filter;
pub mod drop_laws;
pub mod image_name;
pub mod marker;
pub mod naming_laws;
pub mod path_laws;
pub mod scope;
pub mod scope_laws;
pub mod score;
pub mod shell_command;
pub mod study_id;
