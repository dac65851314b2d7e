use vstd::prelude::*;
use std::path::PathBuf;

verus! {

/// A path of the file system.
#[verifier::external_type_specification]
#[verifier::external_body]
pub struct ExPathBuf(PathBuf);

/// The files that hold the certificates and keys of a server.
pub struct KeyManager {
    certs_files: Vec<PathBuf>,
    keys_files: Vec<PathBuf>,
}

impl KeyManager {
    pub closed spec fn certs(&self) -> Seq<PathBuf> {
        self.certs_files@
    }

    pub closed spec fn keys(&self) -> Seq<PathBuf> {
        self.keys_files@
    }

    pub fn new() -> (r: KeyManager)
        ensures
            r.certs().len() == 0,
            r.keys().len() == 0,
    {
        KeyManager { certs_files: Vec::new(), keys_files: Vec::new() }
    }

    /// Adds a certificate file after those added before.
    pub fn add_cert(&mut self, path: PathBuf)
        ensures
            final(self).certs() == old(self).certs().push(path),
            final(self).keys() == old(self).keys(),
    {
        self.certs_files.push(path);
    }

    /// Adds a key file after those added before.
    pub fn add_key(&mut self, path: PathBuf)
        ensures
            final(self).keys() == old(self).keys().push(path),
            final(self).certs() == old(self).certs(),
    {
        self.keys_files.push(path);
    }
}

} // verus!
