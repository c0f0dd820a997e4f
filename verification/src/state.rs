use vstd::prelude::*;
use vstd::string::StringExecFns;
use crate::cipher::Cipher;
use crate::iterations::Iterations;
use crate::kdf::KDF;

verus! {

/// Mutable algorithm selection: which cipher, digest, KDF and cost tier
/// the next encryption or decryption uses. The shell owns one of these
/// and feeds it `UpdateMsg` values from its selection menus.
#[derive(Clone, Copy, Debug, PartialEq, Eq, Structural)]
pub struct State {
    pub hash: crate::hash::Hash,
    pub cipher: Cipher,
    pub iterations: Iterations,
    pub kdf: KDF,
}

/// One selection change, carrying the newly selected variant.
#[derive(Clone, Copy, Debug, PartialEq, Eq, Structural)]
pub enum UpdateMsg {
    Hash(crate::hash::Hash),
    Cipher(Cipher),
    Iterations(Iterations),
    KDF(KDF),
}

/// The message a selectable value emits when it is picked.
pub trait Updater {
    fn update(&self) -> UpdateMsg;
}

/// The one-line description of a selection, as `status` renders it:
/// the labels of cipher, digest, cost tier and KDF, joined by " | ",
/// with the digest omitted under Argon2i, which ignores it.
pub open spec fn spec_status(s: State) -> Seq<char> {
    match s.kdf {
        KDF::ARGON2 => s.cipher.spec_label() + " | "@ + s.iterations.spec_label() + " | "@
            + s.kdf.spec_label(),
        KDF::PBKDF2 => s.cipher.spec_label() + " | "@ + s.hash.spec_label() + " | "@
            + s.iterations.spec_label() + " | "@ + s.kdf.spec_label(),
    }
}

/// The selection a `State` reaches after applying one message.
pub open spec fn spec_updated(s: State, msg: UpdateMsg) -> State {
    match msg {
        UpdateMsg::Hash(hash) => State { hash, ..s },
        UpdateMsg::Cipher(cipher) => State { cipher, ..s },
        UpdateMsg::Iterations(iterations) => State { iterations, ..s },
        UpdateMsg::KDF(kdf) => State { kdf, ..s },
    }
}

impl State {
    /// The default selection: AES-CBC, SHA-256, PBKDF2 at the MEDIUM tier.
    pub fn new() -> (r: State)
        ensures
            r == (State {
                hash: crate::hash::Hash::SHA2_256,
                cipher: Cipher::AESCBC,
                iterations: Iterations::MEDIUM,
                kdf: KDF::PBKDF2,
            }),
    {
        Default::default()
    }

    fn set_hash(&mut self, hash: crate::hash::Hash)
        ensures
            *final(self) == (State { hash, ..*old(self) }),
    {
        self.hash = hash;
    }

    fn set_cipher(&mut self, cipher: Cipher)
        ensures
            *final(self) == (State { cipher, ..*old(self) }),
    {
        self.cipher = cipher;
    }

    fn set_iterations(&mut self, iterations: Iterations)
        ensures
            *final(self) == (State { iterations, ..*old(self) }),
    {
        self.iterations = iterations;
    }

    fn set_kdf(&mut self, kdf: KDF)
        ensures
            *final(self) == (State { kdf, ..*old(self) }),
    {
        self.kdf = kdf;
    }

    /// One line describing the current selection, for the shell to
    /// display beside its menus. The digest label is shown only under
    /// PBKDF2: Argon2i ignores the digest selection.
    pub fn status(&self) -> (r: String)
        ensures
            r@ == spec_status(*self),
    {
        let mut out = String::from_str(self.cipher.as_static_str());
        out.append(" | ");
        match self.kdf {
            KDF::ARGON2 => {},
            KDF::PBKDF2 => {
                out.append(self.hash.as_static_str());
                out.append(" | ");
            },
        }
        out.append(self.iterations.as_static_str());
        out.append(" | ");
        out.append(self.kdf.as_static_str());
        proof {
            assert(out@ =~= spec_status(*self));
        }
        out
    }

    /// Applies one selection change, replacing exactly the field the
    /// message names and keeping the other three.
    pub fn update(&mut self, updatemsg: UpdateMsg)
        ensures
            *final(self) == spec_updated(*old(self), updatemsg),
    {
        match updatemsg {
            UpdateMsg::Hash(hash) => self.set_hash(hash),
            UpdateMsg::Cipher(cipher) => self.set_cipher(cipher),
            UpdateMsg::Iterations(iterations) => self.set_iterations(iterations),
            UpdateMsg::KDF(kdf) => self.set_kdf(kdf),
        }
    }
}

impl Default for State {
    fn default() -> (r: State)
        ensures
            r == (State {
                hash: crate::hash::Hash::SHA2_256,
                cipher: Cipher::AESCBC,
                iterations: Iterations::MEDIUM,
                kdf: KDF::PBKDF2,
            }),
    {
        State {
            hash: Default::default(),
            cipher: Default::default(),
            iterations: Default::default(),
            kdf: Default::default(),
        }
    }
}

} // verus!
