//! Core state machines of a proof-of-stake network node.
//!
//! The crate covers three subsystems: the VRF leader-election evaluator that
//! enumerates the slots a block producer's delegated stake can win, the
//! streaming-RPC channel that transfers large staged-ledger snapshots part by
//! part, and the session multiplexer that frames independently flow-controlled
//! streams over one ordered byte connection.  Every transition is a pure
//! function from state, action and time to the next state plus the follow-up
//! effects, so the whole core is replayable and its invariants are proved.

pub mod ids;
pub mod wire;
pub mod yamux_frame;
pub mod yamux_state;
pub mod streaming_rpc;
pub mod streaming_rpc_msg;
pub mod vrf_evaluator;
pub mod rpc;
pub mod snark_pool;
pub mod p2p_effects;
