//! Credential resolution and delegate-process rules for running a cloud
//! command-line tool under a chosen named profile.

pub mod arn;
pub mod delegate;
pub mod display;
pub mod ini;
pub mod merging;
pub mod mfa;
pub mod profile;
pub mod resolve;
pub mod sts;
pub mod text;
