pub mod default_key_handle;
