pub mod builder;
pub mod error;
pub mod laws;
pub mod model;
pub mod normalize;
pub mod request;
pub mod response;
pub mod text;
