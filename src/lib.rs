//! Accounting core of a marketplace for purchasable modules and of the token
//! authority that settles it: instruction decoding, authorization checks and
//! the state transitions of the persisted records.

use vstd::prelude::*;

pub mod address;
pub mod bytes;
pub mod error;
pub mod instruction;
pub mod marketplace;
pub mod record;
pub mod token;
