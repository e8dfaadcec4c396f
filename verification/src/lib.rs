//! Build-script support for compiling Smithy models with the `smithy` command
//! line tool: a configurable builder, the command lines it renders, the
//! decisions taken between the tool's runs, the reflowing of the tool's
//! diagnostics, and the splicing of generated sources into a compilation.

pub mod config;
pub mod generated;
pub mod paths;
pub mod reflow;

pub use config::SmithyBuild;
