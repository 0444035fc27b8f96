//! The traffic-mimicry wrapper: frames ciphertext as plausible HTTP
//! responses from popular streaming services, and recovers it.
//!
//! The one hard contract is the round trip: whatever bytes go in as the
//! body come back out of [`wrapper`]'s unwrap. [`http`] carries the verified
//! framing and that proof; [`profiles`] put realistic header dressing around
//! it; [`timing`] models each profile's pacing.

pub mod http;
pub mod profiles;
pub mod timing;
pub mod wrapper;
