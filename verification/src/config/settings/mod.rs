pub mod args;

pub use args::Args;
