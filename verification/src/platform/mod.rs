pub mod platform_context;
