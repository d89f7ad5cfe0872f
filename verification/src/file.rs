//! The filesystem backend's record layout: one file per cache key, at
//! `<storage root>/<key>`, holding the raw record bytes. The layout — which
//! path a record lives at — is computed here; opening, locking and
//! transferring the bytes is the embedding program's part.

use vstd::prelude::*;
use vstd::string::StringExecFns;

verus! {

/// A filesystem-rooted store: its records are the files under one directory.
pub struct FileStorage {
    path: String,
}

impl FileStorage {
    /// The directory that holds this store's record files.
    pub closed spec fn root(&self) -> Seq<char> {
        self.path@
    }

    /// Binds a store to the directory at `path`.
    pub fn new(path: String) -> (r: Self)
        ensures
            r.root() == path@,
    {
        FileStorage { path }
    }

    /// The directory, for the code that performs the file operations.
    pub fn root_path(&self) -> (r: &String)
        ensures
            r@ == self.root(),
    {
        &self.path
    }

    /// The path of the file that holds the record for `name`:
    /// `<root>/<name>`.
    pub fn record_path(&self, name: &str) -> (r: String)
        ensures
            r@ == self.root() + seq!['/'] + name@,
    {
        let mut r = self.path.clone();
        r.append("/");
        r.append(name);
        proof {
            reveal_strlit("/");
            assert(r@ =~= self.root() + seq!['/'] + name@);
        }
        r
    }
}

} // verus!
