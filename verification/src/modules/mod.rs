//! What turns a signing request into the parts of a transaction.

pub mod tx_builder;
