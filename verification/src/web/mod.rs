pub mod error;
pub mod forms;
pub mod handlers;
pub mod templates;
pub mod validation;
pub mod view_models;
pub use error::AppError;
