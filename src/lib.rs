//! Batch submission core of a two-chain bridge relayer: validator-set
//! filtering, signature ordering, checkpoint encoding, contract-call
//! assembly and the submission state machine.
pub mod types;
pub mod valset;
pub mod checkpoint;
pub mod call;
pub mod submit;
pub mod commands;
