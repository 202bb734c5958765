//! A tool that appends entries to a daily summary journal: one file per day,
//! each entry introduced by a separator line. The file append itself is I/O
//! performed by the composing layer; the file name and the entry text are
//! constructed here, exactly.

use vstd::prelude::*;

verus! {

/// The separator line written before each journal entry.
pub open spec fn spec_entry_separator() -> Seq<char> {
    "============"@
}

/// An error of the daily summary writer.
#[derive(Debug)]
pub enum DailySummaryWriterError {
    /// A directory could not be created.
    DirectoryCreation(String),
    /// A file write failed.
    FileWrite(String),
}

/// A builder for [`DailySummaryWriter`].
pub struct DailySummaryWriterBuilder {
    output_dir: String,
}

impl DailySummaryWriterBuilder {
    /// The directory the built writer stores journal files in.
    pub closed spec fn spec_output_dir(&self) -> Seq<char> {
        self.output_dir@
    }

    /// Creates a builder for a writer that stores its journal files in the
    /// given directory.
    pub fn new(output_dir: String) -> (r: Self)
        ensures
            r.spec_output_dir() == output_dir@,
    {
        Self { output_dir }
    }

    /// Builds a `DailySummaryWriter`.
    pub fn build(&self) -> (r: DailySummaryWriter)
        ensures
            r.spec_output_dir() == self.spec_output_dir(),
    {
        DailySummaryWriter::new(self.output_dir.clone())
    }
}

/// The arguments of the daily summary writer tool.
pub struct DSWArgs {
    /// The content to append to the journal.
    pub content: String,
}

/// A tool that appends entries to a daily summary journal.
#[derive(Debug, Clone)]
pub struct DailySummaryWriter {
    output_dir: String,
}

impl DailySummaryWriter {
    /// The directory this writer stores journal files in.
    pub closed spec fn spec_output_dir(&self) -> Seq<char> {
        self.output_dir@
    }

    /// Creates a writer that stores its journal files in the given
    /// directory.
    pub fn new(output_dir: String) -> (r: Self)
        ensures
            r.spec_output_dir() == output_dir@,
    {
        Self { output_dir }
    }

    /// The path of the journal file for the given date (written as
    /// `YYYY-MM-DD` by the composing layer): `<dir>/<date>.txt`.
    pub fn journal_path(&self, date: &str) -> (r: String)
        ensures
            r@ == self.spec_output_dir() + "/"@ + date@ + ".txt"@,
    {
        self.output_dir.clone().concat("/").concat(date).concat(".txt")
    }

    /// The text one journal entry appends: a blank-delimited separator line,
    /// then the content.
    pub fn journal_entry(&self, args: &DSWArgs) -> (r: String)
        ensures
            r@ == "\n"@ + spec_entry_separator() + "\n"@ + args.content@,
    {
        proof {
            reveal_strlit("\n============\n");
            reveal_strlit("\n");
            reveal_strlit("============");
            assert("\n============\n"@ =~= "\n"@ + "============"@ + "\n"@);
        }
        "\n============\n".to_owned().concat(args.content.as_str())
    }
}

} // verus!
