//! Transfer-coordination core of a peer-to-peer content-distribution node.
//!
//! Peers exchange content-addressed containers (bundles of bounded chunks)
//! over a set of typed message buses. This library holds the verified logic
//! of that coordination: the addressing scheme and message catalogue of the
//! buses, the per-worker state machine driving a single container transfer,
//! and the orchestrator that queues transfer tasks and assigns them to free
//! workers. All bus and store I/O is performed outside the library: handlers
//! here turn a state and an incoming message into a new state and a list of
//! actions (messages to send, daemons to launch) for the surrounding
//! process to perform, and each worker keeps a verified mirror of the
//! content store whose changes that process repeats against the real store
//! service.

pub mod ids;

pub mod digest;

pub mod idmap;

pub mod store;

pub mod p2p;

pub mod rpc;

pub mod ext;

pub mod bus;

pub mod chunking;

pub mod error;

pub mod transferd;

pub mod stormd;

pub mod chatd;
