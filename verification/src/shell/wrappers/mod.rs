pub mod template;
pub mod variables;
pub mod posix_function;
pub mod start;
pub mod posix_startup;
pub mod batch;
pub mod cmd;
pub mod nu;
pub mod pwsh;
pub mod posix;
