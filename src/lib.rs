//! A bounded worker pool's verified core (its job channel and its lifecycle), the
//! request routing of the small web server built on it, and a set of smaller
//! verified modules: text search, summaries, shapes and collections.

pub mod channel;
pub mod text;
pub mod pool;
pub mod http;
pub mod grep;
pub mod aggregator;
pub mod traits;
pub mod gui;
pub mod generics;
pub mod shapes;
pub mod adder;
pub mod inventory;
pub mod coins;
pub mod words;
pub mod restaurant;
pub mod limit;
pub mod blog;
