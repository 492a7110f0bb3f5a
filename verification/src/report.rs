//! The report: what is written out, and how.
//!
//! The caller checks the output directory, receives the enriched resources,
//! serialises the report and writes the file; this module decides whether
//! the check passed, keeps the resources in the order of their arrival and
//! compresses the serialised bytes.
use crate::error::CliError;
use crate::resource::{resource_views, Resource, ResourceView};
use vstd::prelude::*;
use vstd::string::*;

verus! {

/// The name of the file that holds the report, in the working directory.
pub const OUTPUT_FILE: &'static str = "linter_results.json.gz";

/// The message of the error for an output path without a parent directory.
pub const NO_PARENT_DIRECTORY: &'static str = "Output file has no parent directory";

/// The message of the error for an output directory that cannot be written.
pub const NOT_WRITABLE: &'static str = "Output file cannot be written";

/// What is known of the directory that is to hold the output file.
#[derive(Debug, Clone, Copy, PartialEq, Eq, Structural)]
pub enum OutputDirectory {
    /// The output path has no parent directory.
    Absent,
    /// The metadata of the directory cannot be read.
    Unreadable,
    /// The directory is read-only.
    ReadOnly,
    /// The directory can be written.
    Writable,
}

/// Whether the output file can be written, judged by its directory. This is
/// decided before any discovery starts.
pub fn check_output_is_writable(directory: OutputDirectory) -> (r: Result<(), CliError>)
    ensures
        match directory {
            OutputDirectory::Absent => r matches Err(e) && e@ == NO_PARENT_DIRECTORY@,
            OutputDirectory::Unreadable => r matches Err(e) && e@ == NOT_WRITABLE@,
            OutputDirectory::ReadOnly => r matches Err(e) && e@ == NOT_WRITABLE@,
            OutputDirectory::Writable => r is Ok,
        },
{
    match directory {
        OutputDirectory::Absent => Err(CliError::new(NO_PARENT_DIRECTORY)),
        OutputDirectory::Unreadable => Err(CliError::new(NOT_WRITABLE)),
        OutputDirectory::ReadOnly => Err(CliError::new(NOT_WRITABLE)),
        OutputDirectory::Writable => Ok(()),
    }
}

/// The report: the resources in the order in which they arrived.
#[derive(Debug, PartialEq, Eq)]
pub struct DataFormat {
    pub resources: Vec<Resource>,
}

impl View for DataFormat {
    type V = Seq<ResourceView>;

    open spec fn view(&self) -> Seq<ResourceView> {
        resource_views(self.resources@)
    }
}

impl DataFormat {
    /// A report without resources.
    pub fn new() -> (r: DataFormat)
        ensures
            r@ == Seq::<ResourceView>::empty(),
    {
        let r = DataFormat { resources: Vec::new() };
        assert(r@ =~= Seq::<ResourceView>::empty());
        r
    }

    /// Adds a resource that arrived behind those that arrived before.
    pub fn push(&mut self, resource: Resource)
        ensures
            final(self)@ == old(self)@.push(resource@),
    {
        self.resources.push(resource);
        assert(self@ =~= old(self)@.push(resource@));
    }

    /// How many resources the report holds.
    pub fn len(&self) -> (n: usize)
        ensures
            n == self@.len(),
    {
        self.resources.len()
    }
}

/// What `flate2::write::GzEncoder` makes of some bytes at the default
/// compression level, writing into memory: the gzip stream, or the text of
/// the error that the encoder returns.
pub uninterp spec fn gzip_of(data: Seq<u8>) -> Result<Seq<u8>, Seq<char>>;

/// Compresses `data` in one pass with `flate2::write::GzEncoder` at the
/// default level, into memory, and hands an error of the encoder back as the
/// text that its `Display` impl writes. The encoder writes no time and no
/// operating system into the header and does no input or output, so whether
/// it succeeds, the stream it then returns and the error it else returns
/// depend on `data` alone. Nothing is claimed about which data it accepts.
#[verifier::external_body]
fn gzip(data: &[u8]) -> (r: Result<Vec<u8>, String>)
    ensures
        match r {
            Ok(stream) => gzip_of(data@) == Ok::<Seq<u8>, Seq<char>>(stream@),
            Err(cause) => gzip_of(data@) == Err::<Seq<u8>, Seq<char>>(cause@),
        },
{
    let mut encoder = flate2::write::GzEncoder::new(Vec::new(), flate2::Compression::default());
    match std::io::Write::write_all(&mut encoder, data) {
        Ok(()) => match encoder.finish() {
            Ok(stream) => Ok(stream),
            Err(e) => Err(format!("{}", e)),
        },
        Err(e) => Err(format!("{}", e)),
    }
}

/// The serialised report as one gzip stream: the whole buffer is handed to
/// the encoder in one pass, and what the encoder makes of it is returned as
/// it is. Where the encoder fails, the text of its error is the message of
/// the error returned.
pub fn compress(serialized: &[u8]) -> (r: Result<Vec<u8>, CliError>)
    ensures
        match r {
            Ok(stream) => gzip_of(serialized@) == Ok::<Seq<u8>, Seq<char>>(stream@),
            Err(e) => gzip_of(serialized@) == Err::<Seq<u8>, Seq<char>>(e@),
        },
{
    match gzip(serialized) {
        Ok(stream) => Ok(stream),
        Err(cause) => Err(CliError { msg: cause }),
    }
}

} // verus!
