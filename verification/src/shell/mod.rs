pub mod quote;
pub mod choice;
pub mod wrappers;
pub mod drivers;
pub mod shims;
pub mod executable;
pub mod generated;
pub mod posix;
pub mod bash;
pub mod zsh;
pub mod powershell;
pub mod nushell;
