//! A tool that writes a given content to a new, uniquely named file in a
//! designated directory. The file write itself is I/O performed by the
//! composing layer; the target path is constructed here.

use vstd::prelude::*;

verus! {

/// An error of the file writer.
#[derive(Debug)]
pub enum FileWriterError {
    /// A directory could not be created.
    DirectoryCreation(String),
    /// A file write failed.
    FileWrite(String),
}

/// A builder for [`SimpleFileWriter`].
pub struct SimpleFileWriterBuilder {
    output_dir: String,
}

impl SimpleFileWriterBuilder {
    /// The directory the built writer writes files in.
    pub closed spec fn spec_output_dir(&self) -> Seq<char> {
        self.output_dir@
    }

    /// Creates a builder for a writer that writes its files in the given
    /// directory.
    pub fn new(output_dir: String) -> (r: Self)
        ensures
            r.spec_output_dir() == output_dir@,
    {
        Self { output_dir }
    }

    /// Builds a `SimpleFileWriter`.
    pub fn build(&self) -> (r: SimpleFileWriter)
        ensures
            r.spec_output_dir() == self.spec_output_dir(),
    {
        SimpleFileWriter::new(self.output_dir.clone())
    }
}

/// The arguments of the file writer tool.
pub struct SFWArgs {
    /// The content to write to the file.
    pub content: String,
}

/// A tool that writes content to a uniquely named file in a designated
/// directory.
#[derive(Debug, Clone)]
pub struct SimpleFileWriter {
    output_dir: String,
}

/// Relies on `uuid::Uuid::new_v4` and its hyphenated `Display` form: a fresh
/// random identifier. The value differs from call to call, so only its shape
/// is stated: 36 characters.
#[verifier::external_body]
fn fresh_id() -> (r: String)
    ensures
        r@.len() == 36,
{
    format!("{}", uuid::Uuid::new_v4())
}

impl SimpleFileWriter {
    /// The directory this writer writes files in.
    pub closed spec fn spec_output_dir(&self) -> Seq<char> {
        self.output_dir@
    }

    /// Creates a writer that writes its files in the given directory.
    pub fn new(output_dir: String) -> (r: Self)
        ensures
            r.spec_output_dir() == output_dir@,
    {
        Self { output_dir }
    }

    /// The directory this writer writes files in.
    pub fn output_dir(&self) -> (r: &String)
        ensures
            r@ == self.spec_output_dir(),
    {
        &self.output_dir
    }

    /// The path of the next file to write: the output directory, a
    /// separator, and a fresh uniquely named `.txt` file.
    pub fn output_file_path(&self) -> (r: String)
        ensures
            r@.len() == self.spec_output_dir().len() + 41,
            r@.subrange(0, self.spec_output_dir().len() as int) == self.spec_output_dir(),
            r@[self.spec_output_dir().len() as int] == '/',
            r@.subrange(r@.len() - 4, r@.len() as int) == ".txt"@,
    {
        let name = fresh_id();
        let r = self.output_dir.clone().concat("/").concat(name.as_str()).concat(".txt");
        proof {
            reveal_strlit("/");
            reveal_strlit(".txt");
            let dir = self.spec_output_dir();
            assert(r@.subrange(0, dir.len() as int) =~= dir);
            assert(r@.subrange(r@.len() - 4, r@.len() as int) =~= ".txt"@);
        }
        r
    }
}

} // verus!
