//! The entities: the append-only ledger and the data-defined state machine.
pub mod ledger;
pub mod state_machine;
