pub mod cmd;
pub mod dispatch;
pub mod errors;
pub mod parse;
pub mod text;

pub use errors::CliError;
pub use errors::CliResult;
