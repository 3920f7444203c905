//! The configured remote-key identity.
//!
//! The directory holds the named key handle that the remote threshold signer
//! resolves.  It is set once at startup, may be re-set idempotently with the
//! identical handle, and refuses a different handle once signer state has
//! been used, so the session's address cannot drift.

use vstd::prelude::*;

verus! {

/// The elliptic curve of the remote key.
#[derive(Clone, Copy, Debug, PartialEq, Eq, Structural)]
pub enum EcdsaCurve {
    Secp256k1,
}

/// The remote key identity: a service-side key name and its curve.
pub struct KeyHandle {
    pub name: String,
    pub curve: EcdsaCurve,
}

impl KeyHandle {
    /// Two handles name the same remote key.
    pub open spec fn same_key(&self, other: &KeyHandle) -> bool {
        self.name@ == other.name@ && self.curve == other.curve
    }
}

/// Key configuration failures.
#[derive(Clone, Copy, Debug, PartialEq, Eq, Structural)]
pub enum ConfigError {
    /// No handle was ever configured.
    Uninitialized,
    /// A different handle was offered after signer state had been used.
    AlreadyInUse,
}

/// The process-wide holder of the active key handle.
pub struct KeyDirectory {
    handle: Option<KeyHandle>,
    used: bool,
}

impl KeyDirectory {
    /// The configured handle, if any.
    pub closed spec fn spec_handle(&self) -> Option<KeyHandle> {
        self.handle
    }

    /// Whether signer state has been used under the current handle.
    pub closed spec fn spec_used(&self) -> bool {
        self.used
    }

    /// A directory with nothing configured.
    pub fn new() -> (r: KeyDirectory)
        ensures
            r.spec_handle() is None,
            !r.spec_used(),
    {
        KeyDirectory { handle: None, used: false }
    }

    /// Sets the active handle.  Succeeds when nothing is configured yet,
    /// when the offered handle names the already-configured key, or when the
    /// configured key was never used; fails, exactly then and without
    /// changing anything, when a different handle is offered after signer
    /// state has been used, so the session's address cannot drift.
    pub fn configure(&mut self, handle: KeyHandle) -> (r: Result<(), ConfigError>)
        ensures
            r is Err <==> (old(self).spec_used() && (old(self).spec_handle() matches Some(h)
                && !h.same_key(&handle))),
            match r {
                Ok(()) => final(self).spec_handle() matches Some(h) && h.same_key(&handle)
                    && final(self).spec_used() == old(self).spec_used(),
                Err(e) => {
                    &&& e == ConfigError::AlreadyInUse
                    &&& old(self).spec_used()
                    &&& old(self).spec_handle() matches Some(h) && !h.same_key(&handle)
                    &&& *final(self) == *old(self)
                },
            },
    {
        let same = match &self.handle {
            Some(current) => {
                current.name == handle.name && curve_eq(current.curve, handle.curve)
            },
            None => false,
        };
        if same {
            Ok(())
        } else if self.handle.is_none() || !self.used {
            self.handle = Some(handle);
            Ok(())
        } else {
            Err(ConfigError::AlreadyInUse)
        }
    }

    /// The active handle, or `Uninitialized` when none was ever configured.
    /// Callers in production paths supply a safe default on error rather
    /// than trapping.
    pub fn current(&self) -> (r: Result<KeyHandle, ConfigError>)
        ensures
            match r {
                Ok(h) => self.spec_handle() matches Some(c) && c.same_key(&h),
                Err(e) => e == ConfigError::Uninitialized && self.spec_handle() is None,
            },
    {
        match &self.handle {
            Some(h) => Ok(KeyHandle { name: clone_string(&h.name), curve: h.curve }),
            None => Err(ConfigError::Uninitialized),
        }
    }

    /// Marks that signer state has been used under the current handle:
    /// from here on the handle can no longer be replaced by a different one.
    pub fn mark_used(&mut self)
        ensures
            final(self).spec_used(),
            final(self).spec_handle() == old(self).spec_handle(),
    {
        self.used = true;
    }
}

/// Curve equality by variant.
fn curve_eq(a: EcdsaCurve, b: EcdsaCurve) -> (r: bool)
    ensures
        r == (a == b),
{
    match (a, b) {
        (EcdsaCurve::Secp256k1, EcdsaCurve::Secp256k1) => true,
    }
}

/// Clones a string, keeping its characters.
fn clone_string(s: &String) -> (r: String)
    ensures
        r@ == s@,
{
    s.clone()
}

/// What the remote key-derivation request carries: the caller-specific
/// derivation path and the key identity to resolve.
pub struct DerivationRequest {
    pub derivation_path: Vec<Vec<u8>>,
    pub key_name: String,
    pub curve: EcdsaCurve,
}

/// Assembles the key-derivation request for a caller: a single-element
/// derivation path holding the caller's identity bytes, under the directory's
/// active handle.  Fails with `Uninitialized` when no handle is configured.
pub fn build_derivation_request(directory: &KeyDirectory, caller: Vec<u8>) -> (r: Result<
    DerivationRequest,
    ConfigError,
>)
    ensures
        match r {
            Ok(req) => {
                &&& directory.spec_handle() matches Some(h) && req.key_name@ == h.name@
                    && req.curve == h.curve
                &&& req.derivation_path@.len() == 1
                &&& req.derivation_path@[0]@ == caller@
            },
            Err(e) => e == ConfigError::Uninitialized && directory.spec_handle() is None,
        },
{
    let handle = directory.current()?;
    let mut path: Vec<Vec<u8>> = Vec::new();
    path.push(caller);
    Ok(DerivationRequest { derivation_path: path, key_name: handle.name, curve: handle.curve })
}

} // verus!
