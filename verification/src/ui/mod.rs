//! The pages of the console.
pub mod style;
pub mod layout;
pub mod bmh;
pub mod bootconfigs;
pub mod dashboard;
pub mod deployments;
pub mod jobs;
pub mod logs;
pub mod networks;
pub mod nodes;
pub mod pods;
pub mod registries;
pub mod storage;
pub mod terminal;
pub mod laws;
