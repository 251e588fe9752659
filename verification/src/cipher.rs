//! Cipher descriptors and the algorithm registry.
//!
//! A descriptor is a stateless capability: key and nonce lengths, whether an
//! external MAC is required, and the construction of the two per-direction
//! codecs from raw secret material.

use crate::bytes::subvec;
use crate::gcm::{GcmKey, GCM_KEY_LEN, GCM_NONCE_LEN, GCM_TAG_LEN};
use crate::name::{CipherName, Name};
use crate::open::OpeningKey;
use crate::seal::SealingKey;
use crate::Error;
use vstd::prelude::*;

verus! {

/// A stateless cipher descriptor: one variant per linked cipher family.
#[derive(Debug, Clone, Copy, PartialEq, Eq, Structural)]
pub enum Cipher {
    /// The no-op cipher: zero-length key and nonce, no tag.
    Clear,
    /// AES-256-GCM: 32-byte key, 12-byte nonce, 16-byte tag, no external MAC.
    Aes256Gcm,
}

impl Cipher {
    /// Key length in bytes.
    pub open spec fn key_len_spec(&self) -> nat {
        match self {
            Cipher::Clear => 0,
            Cipher::Aes256Gcm => GCM_KEY_LEN as nat,
        }
    }

    /// Nonce length in bytes.
    pub open spec fn nonce_len_spec(&self) -> nat {
        match self {
            Cipher::Clear => 0,
            Cipher::Aes256Gcm => GCM_NONCE_LEN as nat,
        }
    }

    /// Tag length in bytes.
    pub open spec fn tag_len_spec(&self) -> nat {
        match self {
            Cipher::Clear => 0,
            Cipher::Aes256Gcm => GCM_TAG_LEN as nat,
        }
    }

    /// Key length in bytes.
    pub fn key_len(&self) -> (r: usize)
        ensures
            r == self.key_len_spec(),
    {
        match self {
            Cipher::Clear => 0,
            Cipher::Aes256Gcm => GCM_KEY_LEN,
        }
    }

    /// Nonce length in bytes.
    pub fn nonce_len(&self) -> (r: usize)
        ensures
            r == self.nonce_len_spec(),
    {
        match self {
            Cipher::Clear => 0,
            Cipher::Aes256Gcm => GCM_NONCE_LEN,
        }
    }

    /// Whether this cipher needs an external MAC. Both linked families are
    /// tag-free or AEAD, so neither does; the counter-mode AES family, which
    /// would answer true, needs the external MAC collaborator and is not
    /// constructed by this registry.
    pub fn needs_mac(&self) -> (r: bool)
        ensures
            r == false,
    {
        false
    }

    /// Whether `k` is the write-side codec this descriptor builds from the
    /// given key and nonce material.
    pub open spec fn sealing_made(&self, k: SealingKey, key: Seq<u8>, nonce: Seq<u8>) -> bool {
        match (self, k) {
            (Cipher::Clear, SealingKey::Clear) => true,
            (Cipher::Aes256Gcm, SealingKey::Aes256Gcm(g)) => g.key@ == key && g.nonce@ == nonce,
            _ => false,
        }
    }

    /// Whether `k` is the read-side codec this descriptor builds from the
    /// given key and nonce material.
    pub open spec fn opening_made(&self, k: OpeningKey, key: Seq<u8>, nonce: Seq<u8>) -> bool {
        match (self, k) {
            (Cipher::Clear, OpeningKey::Clear) => true,
            (Cipher::Aes256Gcm, OpeningKey::Aes256Gcm(g)) => g.key@ == key && g.nonce@ == nonce,
            _ => false,
        }
    }

    /// Whether the construction-time length checks pass.
    pub open spec fn material_fits(&self, key: Seq<u8>, nonce: Seq<u8>) -> bool {
        key.len() == self.key_len_spec() && nonce.len() == self.nonce_len_spec()
    }

    /// The construction error for the given material, when any: a key of
    /// the wrong length is reported first, then a nonce of the wrong length.
    pub open spec fn material_error(&self, key: Seq<u8>, nonce: Seq<u8>) -> Error {
        if key.len() != self.key_len_spec() {
            Error::KeyLengthMismatch
        } else {
            Error::NonceLengthMismatch
        }
    }

    /// Builds the write-side codec. Succeeds exactly when the key and nonce
    /// have this descriptor's lengths. `_mac_key` is part of the interface:
    /// it is consumed only by cipher families with `needs_mac`, none of
    /// which this build links.
    pub fn make_sealing_key(&self, key: &[u8], nonce: &[u8], _mac_key: &[u8]) -> (r: Result<
        SealingKey,
        Error,
    >)
        ensures
            match r {
                Ok(k) => {
                    &&& self.material_fits(key@, nonce@)
                    &&& k.wf()
                    &&& k.alg() == *self
                    &&& self.sealing_made(k, key@, nonce@)
                },
                Err(e) => {
                    &&& !self.material_fits(key@, nonce@)
                    &&& e == self.material_error(key@, nonce@)
                },
            },
    {
        if key.len() != self.key_len() {
            return Err(Error::KeyLengthMismatch);
        }
        if nonce.len() != self.nonce_len() {
            return Err(Error::NonceLengthMismatch);
        }
        match self {
            Cipher::Clear => Ok(SealingKey::Clear),
            Cipher::Aes256Gcm => {
                let k = subvec(key, 0, key.len());
                let n = subvec(nonce, 0, nonce.len());
                assert(k@ =~= key@);
                assert(n@ =~= nonce@);
                Ok(SealingKey::Aes256Gcm(GcmKey::new(k, n)))
            },
        }
    }

    /// Builds the read-side codec; same contract as
    /// [`Self::make_sealing_key`]. The two codecs built from the same
    /// material hold independent copies of it: the directions advance
    /// independently.
    pub fn make_opening_key(&self, key: &[u8], nonce: &[u8], _mac_key: &[u8]) -> (r: Result<
        OpeningKey,
        Error,
    >)
        ensures
            match r {
                Ok(k) => {
                    &&& self.material_fits(key@, nonce@)
                    &&& k.wf()
                    &&& k.alg() == *self
                    &&& self.opening_made(k, key@, nonce@)
                },
                Err(e) => {
                    &&& !self.material_fits(key@, nonce@)
                    &&& e == self.material_error(key@, nonce@)
                },
            },
    {
        if key.len() != self.key_len() {
            return Err(Error::KeyLengthMismatch);
        }
        if nonce.len() != self.nonce_len() {
            return Err(Error::NonceLengthMismatch);
        }
        match self {
            Cipher::Clear => Ok(OpeningKey::Clear),
            Cipher::Aes256Gcm => {
                let k = subvec(key, 0, key.len());
                let n = subvec(nonce, 0, nonce.len());
                assert(k@ =~= key@);
                assert(n@ =~= nonce@);
                Ok(OpeningKey::Aes256Gcm(GcmKey::new(k, n)))
            },
        }
    }
}

/// The two codecs of one connection: outbound sealing, inbound opening.
pub struct CipherPair {
    /// Seals packets this side sends.
    pub local_to_remote: SealingKey,
    /// Opens packets this side receives.
    pub remote_to_local: OpeningKey,
}

impl CipherPair {
    /// Builds both directions of a connection from one descriptor. The
    /// write side takes the local key material, the read side the remote's.
    pub fn make(
        c: &Cipher,
        local_key: &[u8],
        local_nonce: &[u8],
        remote_key: &[u8],
        remote_nonce: &[u8],
    ) -> (r: Result<CipherPair, Error>)
        ensures
            match r {
                Ok(pair) => {
                    &&& c.material_fits(local_key@, local_nonce@)
                    &&& c.material_fits(remote_key@, remote_nonce@)
                    &&& pair.local_to_remote.wf()
                    &&& pair.remote_to_local.wf()
                    &&& c.sealing_made(pair.local_to_remote, local_key@, local_nonce@)
                    &&& c.opening_made(pair.remote_to_local, remote_key@, remote_nonce@)
                },
                Err(e) => {
                    &&& !(c.material_fits(local_key@, local_nonce@) && c.material_fits(
                        remote_key@,
                        remote_nonce@,
                    ))
                    &&& (e == Error::KeyLengthMismatch || e == Error::NonceLengthMismatch)
                },
            },
    {
        let empty: Vec<u8> = Vec::new();
        let seal = match c.make_sealing_key(local_key, local_nonce, empty.as_slice()) {
            Ok(k) => k,
            Err(e) => {
                return Err(e);
            },
        };
        let open = match c.make_opening_key(remote_key, remote_nonce, empty.as_slice()) {
            Ok(k) => k,
            Err(e) => {
                return Err(e);
            },
        };
        Ok(CipherPair { local_to_remote: seal, remote_to_local: open })
    }
}

/// First-match lookup among registered entries.
pub open spec fn lookup_in(entries: Seq<(Name, Cipher)>, name: Name) -> Result<Cipher, Error>
    decreases entries.len(),
{
    if entries.len() == 0 {
        Err(Error::UnsupportedAlgorithm)
    } else if entries[0].0 == name {
        Ok(entries[0].1)
    } else {
        lookup_in(entries.skip(1), name)
    }
}

/// The algorithm registry: an explicit, immutable-after-setup mapping from
/// names to descriptors, built once at initialization and shared by every
/// connection.
pub struct Registry {
    /// Registered entries, searched in order of registration.
    pub entries: Vec<(Name, Cipher)>,
}

impl Registry {
    /// An empty registry.
    pub fn new() -> (r: Registry)
        ensures
            r.entries@ == Seq::<(Name, Cipher)>::empty(),
    {
        Registry { entries: Vec::new() }
    }

    /// Registers `name` as `c`. Meant for initialization only; an earlier
    /// entry for the same name keeps priority.
    pub fn register(&mut self, name: Name, c: Cipher)
        requires
            old(self).entries@.len() < usize::MAX,
        ensures
            final(self).entries@ == old(self).entries@.push((name, c)),
    {
        self.entries.push((name, c));
    }

    /// Looks a name up; `UnsupportedAlgorithm` when it was never registered.
    pub fn lookup(&self, name: Name) -> (r: Result<Cipher, Error>)
        ensures
            r == lookup_in(self.entries@, name),
    {
        let mut i: usize = 0;
        assert(self.entries@.skip(0) =~= self.entries@);
        while i < self.entries.len()
            invariant
                i <= self.entries@.len(),
                lookup_in(self.entries@.skip(i as int), name) == lookup_in(self.entries@, name),
            decreases self.entries@.len() - i,
        {
            let (n, c) = self.entries[i];
            if n == name {
                assert(self.entries@.skip(i as int)[0] == self.entries@[i as int]);
                return Ok(c);
            }
            assert(self.entries@.skip(i as int)[0] == self.entries@[i as int]);
            assert(self.entries@.skip(i as int).skip(1) =~= self.entries@.skip(i as int + 1));
            i = i + 1;
        }
        assert(self.entries@.skip(i as int) =~= Seq::<(Name, Cipher)>::empty());
        Err(Error::UnsupportedAlgorithm)
    }

    /// Looks a negotiation wire string up: unknown strings and known but
    /// unregistered names both report `UnsupportedAlgorithm`.
    pub fn lookup_wire(&self, s: &str) -> (r: Result<Cipher, Error>)
        ensures
            r == (match Name::from_wire_spec(s@) {
                Some(n) => lookup_in(self.entries@, n),
                None => Err::<Cipher, Error>(Error::UnsupportedAlgorithm),
            }),
    {
        match Name::from_wire(s) {
            Some(n) => self.lookup(n),
            None => Err(Error::UnsupportedAlgorithm),
        }
    }

    /// The registry of every cipher this build links: the no-op entry under
    /// both its negotiable names, and AES-256-GCM.
    pub fn default_registry() -> (r: Registry)
        ensures
            r.entries@ == seq![
                (Name(CipherName::Clear), Cipher::Clear),
                (Name(CipherName::NoCipher), Cipher::Clear),
                (Name(CipherName::Aes256Gcm), Cipher::Aes256Gcm),
            ],
    {
        let mut r = Registry::new();
        r.register(Name(CipherName::Clear), Cipher::Clear);
        r.register(Name(CipherName::NoCipher), Cipher::Clear);
        r.register(Name(CipherName::Aes256Gcm), Cipher::Aes256Gcm);
        assert(r.entries@ =~= seq![
            (Name(CipherName::Clear), Cipher::Clear),
            (Name(CipherName::NoCipher), Cipher::Clear),
            (Name(CipherName::Aes256Gcm), Cipher::Aes256Gcm),
        ]);
        r
    }
}

} // verus!
