use vstd::prelude::*;

verus! {

/// An opaque reference to one playable audio item, by its path.
#[derive(Debug)]
pub struct Track {
    pub path: String,
}

impl Track {
    pub fn new(path: String) -> (t: Track)
        ensures
            t.path@ == path@,
    {
        Track { path }
    }

    pub fn path(&self) -> (p: &str)
        ensures
            p@ == self.path@,
    {
        self.path.as_str()
    }
}

impl Clone for Track {
    fn clone(&self) -> (t: Self)
        ensures
            t == *self,
    {
        Track { path: self.path.clone() }
    }
}

} // verus!
