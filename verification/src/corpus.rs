use vstd::prelude::*;
use crate::feedbacks::LibfuzzerCrashCauseMetadata;

verus! {

/// An input kept for the corpus: the raw bytes, an optional filename
/// assigned by corpus management, an optional persisted artifact path,
/// and at most one crash-cause metadata record.
pub struct Testcase {
    input: Vec<u8>,
    filename: Option<String>,
    file_path: Option<String>,
    metadata: Option<LibfuzzerCrashCauseMetadata>,
}

impl Testcase {
    /// The input bytes.
    pub closed spec fn input_bytes(&self) -> Seq<u8> {
        self.input@
    }

    /// Whether corpus management already assigned a filename.
    pub closed spec fn has_filename(&self) -> bool {
        self.filename is Some
    }

    /// The assigned filename, when there is one.
    pub closed spec fn filename_chars(&self) -> Seq<char> {
        self.filename->0@
    }

    /// Whether an artifact path has been derived.
    pub closed spec fn has_file_path(&self) -> bool {
        self.file_path is Some
    }

    /// The derived artifact path, when there is one.
    pub closed spec fn file_path_chars(&self) -> Seq<char> {
        self.file_path->0@
    }

    /// The attached crash-cause metadata, if any.
    pub closed spec fn metadata_opt(&self) -> Option<LibfuzzerCrashCauseMetadata> {
        self.metadata
    }

    /// Fresh testcase around an input: no filename, no path, no metadata.
    pub fn new(input: Vec<u8>) -> (r: Self)
        ensures
            r.input_bytes() == input@,
            !r.has_filename(),
            !r.has_file_path(),
            r.metadata_opt() is None,
    {
        Testcase { input, filename: None, file_path: None, metadata: None }
    }

    pub fn input(&self) -> (r: &Vec<u8>)
        ensures
            r@ == self.input_bytes(),
    {
        &self.input
    }

    pub fn filename(&self) -> (r: &Option<String>)
        ensures
            r.is_some() == self.has_filename(),
            self.has_filename() ==> (*r)->0@ == self.filename_chars(),
    {
        &self.filename
    }

    /// Assign the filename; every other part of the testcase is kept.
    pub fn set_filename(&mut self, name: String)
        ensures
            final(self).has_filename(),
            final(self).filename_chars() == name@,
            final(self).input_bytes() == old(self).input_bytes(),
            final(self).has_file_path() == old(self).has_file_path(),
            old(self).has_file_path() ==> final(self).file_path_chars()
                == old(self).file_path_chars(),
            final(self).metadata_opt() == old(self).metadata_opt(),
    {
        self.filename = Some(name);
    }

    pub fn file_path(&self) -> (r: &Option<String>)
        ensures
            r.is_some() == self.has_file_path(),
            self.has_file_path() ==> (*r)->0@ == self.file_path_chars(),
    {
        &self.file_path
    }

    /// Record the derived artifact path; every other part is kept.
    pub fn set_file_path(&mut self, path: String)
        ensures
            final(self).has_file_path(),
            final(self).file_path_chars() == path@,
            final(self).input_bytes() == old(self).input_bytes(),
            final(self).has_filename() == old(self).has_filename(),
            old(self).has_filename() ==> final(self).filename_chars()
                == old(self).filename_chars(),
            final(self).metadata_opt() == old(self).metadata_opt(),
    {
        self.file_path = Some(path);
    }

    pub fn metadata(&self) -> (r: &Option<LibfuzzerCrashCauseMetadata>)
        ensures
            *r == self.metadata_opt(),
    {
        &self.metadata
    }

    /// Attach the crash-cause record; a prior record is replaced, every
    /// other part of the testcase is kept.
    pub fn add_metadata(&mut self, metadata: LibfuzzerCrashCauseMetadata)
        ensures
            final(self).metadata_opt() == Some(metadata),
            final(self).input_bytes() == old(self).input_bytes(),
            final(self).has_filename() == old(self).has_filename(),
            old(self).has_filename() ==> final(self).filename_chars()
                == old(self).filename_chars(),
            final(self).has_file_path() == old(self).has_file_path(),
            old(self).has_file_path() ==> final(self).file_path_chars()
                == old(self).file_path_chars(),
    {
        self.metadata = Some(metadata);
    }
}

} // verus!
