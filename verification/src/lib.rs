//! Verified core of an auto-compounding liquidity bot for the XPR Network
//! `proton.swaps` exchange: the text of every `proton` CLI command it runs,
//! the parsing of what the CLI prints back, and the retry decisions taken
//! on each reply.
pub mod text;
pub mod decimal;
pub mod liquidity_liquidity;
pub mod matching;
pub mod proton_commands;
pub mod transfer_balance;
pub mod liquidity_pools;
pub mod transfer_proton_commands;
pub mod stake_proton_commands;
pub mod withdrawall_main;

