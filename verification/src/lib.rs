//! Launch orchestration for a local hypervisor process.
//!
//! A free-form argument string is validated against an allow-list, cleared of tokens that
//! hold shell metacharacters and merged with the structured settings into one command.
//! The supervisor then says what is to be run and what is to be reported when it fails.

pub mod allow_list;
pub mod crash;
pub mod sanitizer;
pub mod status;
pub mod supervisor;
pub mod synthesizer;
pub mod text;
pub mod tokens;
pub mod update;
pub mod validator;
