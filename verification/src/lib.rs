//! Control logic of a CAN bus node that answers every inbound frame and
//! mirrors its status on a small text display.
//!
//! The crate holds the decisions of the node and nothing that touches
//! hardware: the frame model, the reply rule, the texts shown to the
//! operator, and the control loop as a state machine that is fed the outcome
//! of each hardware operation and answers with the next operation to perform.

pub mod control;
pub mod display;
pub mod error;
pub mod event;
pub mod frame;
pub mod laws;
pub mod reply;
pub mod text;
