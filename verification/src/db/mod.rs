//! Loading a batch of records into the store: the values bound to each
//! insert statement, and the order of the steps of one transaction.

pub mod batch;
pub mod rows;
