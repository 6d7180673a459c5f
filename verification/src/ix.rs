//! The instructions of the program, one module each: the accounts an
//! instruction works on and its handler.

pub mod evaluate;
pub mod init_admin;
pub mod init_mint_scope;
pub mod set_allowed_program;
pub mod set_exempt;
pub mod set_policy;
pub mod set_pool_vault;
pub mod set_unlock;
