use vstd::prelude::*;

verus! {

/// Artifact naming configuration: the directory crash artifacts are
/// written under and a global filename prefix put before every artifact
/// name. Holds no mutable session state; the final artifact path is a
/// pure function of this configuration and the classified testcase.
pub struct ArtifactPrefix {
    dir: String,
    filename_prefix: String,
}

impl ArtifactPrefix {
    /// The configured directory, as characters.
    pub closed spec fn dir_chars(&self) -> Seq<char> {
        self.dir@
    }

    /// The configured global filename prefix, as characters.
    pub closed spec fn filename_prefix_chars(&self) -> Seq<char> {
        self.filename_prefix@
    }

    pub fn new(dir: String, filename_prefix: String) -> (r: Self)
        ensures
            r.dir_chars() == dir@,
            r.filename_prefix_chars() == filename_prefix@,
    {
        ArtifactPrefix { dir, filename_prefix }
    }

    pub fn dir(&self) -> (r: &String)
        ensures
            r@ == self.dir_chars(),
    {
        &self.dir
    }

    pub fn filename_prefix(&self) -> (r: &String)
        ensures
            r@ == self.filename_prefix_chars(),
    {
        &self.filename_prefix
    }
}

} // verus!
