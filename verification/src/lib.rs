//! Audits cloud workspaces against the variable declarations of their source
//! repositories.
//!
//! The workspaces of the cloud are narrowed by a query (`filter`), the
//! repository of each is brought to this machine step by step (`repo`), its
//! declaration files are read and held against the variables of the cloud
//! (`scan`), and what was found goes into one report (`plan`, `report`).
//! Nothing here touches the network or the file system: each step says what
//! is to be done, and takes the answer.

pub mod error;
pub mod filter;
pub mod plan;
pub mod repo;
pub mod report;
pub mod scan;
pub mod settings;
pub mod variable;
pub mod workspace;

pub use scan::{is_hidden, is_tf, TestVariable, Variable};
