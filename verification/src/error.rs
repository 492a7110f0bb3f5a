//! The single error kind of the crate.
use vstd::prelude::*;
use vstd::string::*;

verus! {

/// A failure, described for a human reader.
#[derive(Debug, Clone)]
pub struct CliError {
    pub msg: String,
}

impl View for CliError {
    type V = Seq<char>;

    open spec fn view(&self) -> Seq<char> {
        self.msg@
    }
}

impl CliError {
    /// An error that carries `msg`.
    pub fn new(msg: &str) -> (e: CliError)
        ensures
            e@ == msg@,
    {
        CliError { msg: String::from_str(msg) }
    }

    /// An error whose message is `context` followed by `detail`.
    pub fn with_detail(context: &str, detail: &str) -> (e: CliError)
        ensures
            e@ == context@ + detail@,
    {
        let mut msg = String::from_str(context);
        msg.append(detail);
        CliError { msg }
    }

    /// The message as an owned string.
    pub fn message(&self) -> (s: String)
        ensures
            s@ == self@,
    {
        self.msg.clone()
    }
}

} // verus!
