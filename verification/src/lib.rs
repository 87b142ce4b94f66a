//! Command-line flows for a blockchain wallet: balance lookup and native-token
//! transfer. The decisions of each flow (which call to make next, how to react
//! to each outcome, how to format the output) are verified; the calls
//! themselves (RPC, config file, key file) are performed by the surrounding
//! binary.

pub mod describe;
pub mod flow;
pub mod lamports;
pub mod sdk;
pub mod sin;
pub mod sol;
