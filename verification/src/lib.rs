//! Newsletter subscription intake: validated subscriber data, the decision
//! steps of a subscription request, and the row that is stored for it.

pub mod domain;
pub mod routes;
pub mod stamps;
pub mod unicode;
