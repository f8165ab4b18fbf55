//! Continuous token swap streams: subscribers deposit the in token, which is spent linearly over
//! the life of a stream in exchange for a linear release of the out token, shared among
//! subscribers in proportion to their shares.
pub mod error;
pub mod math;
pub mod state;
pub mod helpers;
pub mod stream_math;
pub mod threshold;
pub mod payment;
pub mod payments;
pub mod msg;
pub mod contract;
pub mod killswitch;
pub mod laws;
pub mod lifecycle;
pub mod phased;
pub mod controller;
pub mod migrate;
pub mod post_stream;
