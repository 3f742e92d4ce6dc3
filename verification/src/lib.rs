//! Client-side protection core for a federated-learning SDK: an encrypted
//! local vault for named byte blobs, with the authenticated cipher and the
//! randomness source kept behind a narrow trusted boundary.

pub mod crypto;
pub mod dp;
pub mod sdk;
