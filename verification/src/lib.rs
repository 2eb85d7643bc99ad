//! Shell-completion installation and self-update logic for the `mdx` command-line tool.
pub mod text;
pub mod paths;
pub mod completions;
pub mod update;
pub mod updater;
