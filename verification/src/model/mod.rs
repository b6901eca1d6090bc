//! The data that the application keeps and passes around.

pub mod constant;
pub mod db_type;
pub mod model;
pub mod project_error;
pub mod text;
pub mod user;
pub mod user_dto;
