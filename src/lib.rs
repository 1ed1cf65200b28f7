//! Core of a local-network gossip chat node: the rules that keep the
//! flood-propagation partial view in step with peer discovery and with the
//! connections the node holds, the periodic publishing step, and the
//! addresses the node listens on and dials.

pub mod address;
pub mod discovery;
pub mod links;
pub mod node;
pub mod overlay;
