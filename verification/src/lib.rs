//! Contract transactions in three steps that hand each other a file: a
//! transaction is prepared from a compiled contract and the chain's state,
//! signed with a key that never meets the network, and broadcast to the chain
//! that it was signed for. Beside them: recovery phrases, the keys derived
//! from them, and how a key is kept.

pub mod abi;
pub mod codec;
pub mod contract;
pub mod descriptor;
pub mod fees;
pub mod handoff;
pub mod hexcodec;
pub mod keystore;
pub mod mnemonic;
pub mod prepare;
pub mod primitives;
pub mod rpc;
pub mod sign;
pub mod submission;
pub mod text;
