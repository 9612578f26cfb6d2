//! What the program is started with.

use crate::error::SeedyError;
use crate::text::{after, before, split_once};
use vstd::prelude::*;

verus! {

/// The settings of one run.
#[derive(Debug)]
pub struct Opt {
    /// Update only services that carry this label with this value; all
    /// services where it is `None`.
    pub filter_label: Option<(String, String)>,
    /// The name of the queue on which the registry's notifications arrive.
    pub queue_name: String,
    /// Silence all output.
    pub quiet: bool,
    /// How verbose the log is.
    pub verbose: usize,
}

impl Opt {
    /// The label filter as characters.
    pub open spec fn filter(&self) -> Option<(Seq<char>, Seq<char>)> {
        match self.filter_label {
            Some((key, value)) => Some((key@, value@)),
            None => None,
        }
    }
}

/// Reads a label filter of the form `key=value`. The key ends at the first
/// `=`; the value may hold further ones.
pub fn split_label(input: &str) -> (r: Result<(String, String), SeedyError>)
    ensures
        match r {
            Ok((key, value)) => input@.contains('=') && key@ == before(input@, '=') && value@
                == after(input@, '='),
            Err(e) => !input@.contains('=') && (e matches SeedyError::LabelFilterError { label }
                && label@ == input@),
        },
{
    match split_once(input, '=') {
        Some(pair) => Ok(pair),
        None => Err(SeedyError::LabelFilterError { label: input.to_owned() }),
    }
}

} // verus!
