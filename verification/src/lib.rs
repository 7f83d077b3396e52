//! A single-writer, actor-style façade over a peer-to-peer wireless control
//! service. Callers submit high-level intents as commands; a single consumer
//! loop executes them one at a time against the remote-operation port,
//! resolves each command's own result slot with the outcome, and — on
//! success only — broadcasts the matching event to every subscriber.
//!
//! This crate holds the verified core: the command and event vocabulary and
//! their 1:1 correspondence, the per-command resolution rule, the bounded
//! FIFO command queue, the broadcast topic with its bounded per-subscriber
//! backlog, and the consumer loop run to completion over a closed queue.
//! The transport adapters — the asynchronous channels and the D-Bus calls
//! behind the port — live with the binary, outside the verifier's view, and
//! hand these types back and forth.

pub mod backend;
pub mod channel;
pub mod device;
pub mod error;
pub mod manager;
pub mod queue;
pub mod topic;

pub use backend::validate_interface_name;
pub use channel::P2pEvent;
pub use device::P2pDevice;
pub use error::P2pError;
pub use manager::{resolve_command, run_script, ActorRun, LoopState, ManagerCommand};
pub use queue::{CommandQueue, SubmitOutcome};
pub use topic::{EventSubscriber, EventTopic};
