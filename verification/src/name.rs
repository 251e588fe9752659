//! Algorithm names: the fixed surface of negotiable cipher identifiers.
//!
//! Supported algorithms form a closed set, so a name carries a tagged
//! variant; `as_ref` gives the wire string and `from_wire` parses one.

use vstd::prelude::*;

verus! {

/// The closed set of algorithm identifiers this crate knows.
#[derive(Debug, Clone, Copy, PartialEq, Eq, Hash, Structural)]
pub enum CipherName {
    /// `clear`: the no-op cipher used before key exchange completes.
    Clear,
    /// `none`: explicit absence of encryption; same behaviour as `clear`.
    NoCipher,
    /// `aes128-ctr`
    Aes128Ctr,
    /// `aes192-ctr`
    Aes192Ctr,
    /// `aes256-ctr`
    Aes256Ctr,
    /// `aes256-gcm@openssh.com`
    Aes256Gcm,
    /// `chacha20-poly1305@openssh.com`
    Chacha20Poly1305,
}

/// The name of a cipher algorithm, as exchanged during negotiation; the
/// registry's key type.
#[derive(Debug, Clone, Copy, PartialEq, Eq, Hash, Structural)]
pub struct Name(pub CipherName);

impl Name {
    /// The wire string of this name.
    pub open spec fn wire_spec(self) -> Seq<char> {
        match self.0 {
            CipherName::Clear => "clear"@,
            CipherName::NoCipher => "none"@,
            CipherName::Aes128Ctr => "aes128-ctr"@,
            CipherName::Aes192Ctr => "aes192-ctr"@,
            CipherName::Aes256Ctr => "aes256-ctr"@,
            CipherName::Aes256Gcm => "aes256-gcm@openssh.com"@,
            CipherName::Chacha20Poly1305 => "chacha20-poly1305@openssh.com"@,
        }
    }

    /// The name whose wire string is `s`, if any.
    pub open spec fn from_wire_spec(s: Seq<char>) -> Option<Name> {
        if s == "clear"@ {
            Some(Name(CipherName::Clear))
        } else if s == "none"@ {
            Some(Name(CipherName::NoCipher))
        } else if s == "aes128-ctr"@ {
            Some(Name(CipherName::Aes128Ctr))
        } else if s == "aes192-ctr"@ {
            Some(Name(CipherName::Aes192Ctr))
        } else if s == "aes256-ctr"@ {
            Some(Name(CipherName::Aes256Ctr))
        } else if s == "aes256-gcm@openssh.com"@ {
            Some(Name(CipherName::Aes256Gcm))
        } else if s == "chacha20-poly1305@openssh.com"@ {
            Some(Name(CipherName::Chacha20Poly1305))
        } else {
            None
        }
    }

    /// The wire form of this name.
    pub fn as_ref(&self) -> (r: &'static str)
        ensures
            r@ == self.wire_spec(),
    {
        match self.0 {
            CipherName::Clear => "clear",
            CipherName::NoCipher => "none",
            CipherName::Aes128Ctr => "aes128-ctr",
            CipherName::Aes192Ctr => "aes192-ctr",
            CipherName::Aes256Ctr => "aes256-ctr",
            CipherName::Aes256Gcm => "aes256-gcm@openssh.com",
            CipherName::Chacha20Poly1305 => "chacha20-poly1305@openssh.com",
        }
    }

    /// Parses a wire string into a name; `None` for an unknown string.
    pub fn from_wire(s: &str) -> (r: Option<Name>)
        ensures
            r == Name::from_wire_spec(s@),
    {
        if str_eq(s, "clear") {
            Some(Name(CipherName::Clear))
        } else if str_eq(s, "none") {
            Some(Name(CipherName::NoCipher))
        } else if str_eq(s, "aes128-ctr") {
            Some(Name(CipherName::Aes128Ctr))
        } else if str_eq(s, "aes192-ctr") {
            Some(Name(CipherName::Aes192Ctr))
        } else if str_eq(s, "aes256-ctr") {
            Some(Name(CipherName::Aes256Ctr))
        } else if str_eq(s, "aes256-gcm@openssh.com") {
            Some(Name(CipherName::Aes256Gcm))
        } else if str_eq(s, "chacha20-poly1305@openssh.com") {
            Some(Name(CipherName::Chacha20Poly1305))
        } else {
            None
        }
    }
}

/// Character-for-character equality of two strings.
fn str_eq(a: &str, b: &str) -> (r: bool)
    ensures
        r == (a@ == b@),
{
    let sa = a.to_owned();
    let sb = b.to_owned();
    sa == sb
}

} // verus!
