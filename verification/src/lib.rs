pub mod app;
pub mod components;
pub mod event;
pub mod http_request;
pub mod text;
pub mod text_buffer;
pub mod ui;
