pub mod posix_dialect;
pub mod pwsh;
pub mod posix;
