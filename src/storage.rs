use vstd::prelude::*;

verus! {

/// Where the catalog snapshot is kept.
pub struct Storage {
    path: String,
}

impl Storage {
    pub fn new(path: &str) -> (r: Storage)
        ensures
            r.spec_path() == path@,
    {
        Storage { path: String::from_str(path) }
    }

    pub closed spec fn spec_path(&self) -> Seq<char> {
        self.path@
    }

    /// The location of the snapshot.
    pub fn path(&self) -> (r: &str)
        ensures
            r@ == self.spec_path(),
    {
        self.path.as_str()
    }
}

} // verus!
