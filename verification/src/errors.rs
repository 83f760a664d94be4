use vstd::prelude::*;

verus! {

/// Everything the core can report as an error: signing refuses key material
/// that is not exactly 32 bytes, and the store and transport collaborators
/// have no implementation at this layer, so each of their operations reports
/// `NotImplemented`. Verification never errors: malformed inputs collapse to
/// a `false` result instead.
#[derive(Clone, Copy, Debug, PartialEq, Eq, Structural)]
pub enum KeyringError {
    InvalidKeyLength,
    NotImplemented,
}

} // verus!
