//! Governance core for a jointly controlled smart account: a registered set of
//! signers with propose/vote/execute capabilities, a voting threshold, a
//! staleness watermark over transaction indices, and the reclamation policy
//! that decides when the records of finished or stale transactions may be
//! destroyed and their reserved balance returned to a beneficiary.

pub mod close;
pub mod errors;
pub mod identity;
pub mod permissions;
pub mod records;
pub mod settings;
