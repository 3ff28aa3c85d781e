//! The catalog of tools: the manifest read once at startup, then held
//! unchanged while installations are started from it.

use vstd::prelude::*;
use crate::install::{start_of, Action, Installation};
use crate::manifest::{manifest_text_of, parse, records, ParseError, Problem, Tool, ToolRecord};
use crate::remote::FetchError;

verus! {

/// Why the catalog could not be loaded.
#[derive(Clone, Debug, PartialEq, Eq)]
pub enum LoadError {
    /// The manifest could not be fetched.
    Fetch(FetchError),
    /// The manifest could not be read.
    Parse(ParseError),
}

/// The tools offered for installation, in the manifest's order.
#[derive(Debug)]
pub struct ToolCatalog {
    tools: Vec<Tool>,
}

impl View for ToolCatalog {
    type V = Seq<ToolRecord>;

    closed spec fn view(&self) -> Seq<ToolRecord> {
        records(self.tools@)
    }
}

impl ToolCatalog {
    /// Loads the catalog from the outcome of fetching the manifest: a failed
    /// fetch and a manifest that cannot be read are both errors.
    pub fn load(manifest: Result<String, FetchError>) -> (r: Result<ToolCatalog, LoadError>)
        ensures
            match manifest {
                Err(e) => r == Err::<ToolCatalog, LoadError>(LoadError::Fetch(e)),
                Ok(text) => match r {
                    Ok(c) => manifest_text_of(text@) == Some(Ok::<Seq<ToolRecord>, Problem>(c@)),
                    Err(LoadError::Parse(ParseError::Malformed(Problem::Syntax(_)))) => manifest_text_of(
                        text@,
                    ) is None,
                    Err(LoadError::Parse(ParseError::Malformed(p))) => manifest_text_of(text@) == Some(
                        Err::<Seq<ToolRecord>, Problem>(p),
                    ),
                    Err(LoadError::Fetch(_)) => false,
                },
            },
    {
        match manifest {
            Err(e) => Err(LoadError::Fetch(e)),
            Ok(text) => match parse(text.as_str()) {
                Ok(tools) => Ok(ToolCatalog { tools }),
                Err(e) => Err(LoadError::Parse(e)),
            },
        }
    }

    /// The tools, in the manifest's order.
    pub fn tools(&self) -> (r: &Vec<Tool>)
        ensures
            records(r@) == self@,
    {
        &self.tools
    }

    /// The number of tools.
    pub fn len(&self) -> (r: usize)
        ensures
            r == self@.len(),
    {
        self.tools.len()
    }

    /// Begins installing the tool at `index`. The catalog is left as it is,
    /// whatever comes of the installation.
    pub fn install(&self, index: usize) -> (r: (Installation, Action))
        requires
            index < self@.len(),
        ensures
            (r.0@, r.1@) == start_of(self@[index as int].title, self@[index as int].needs_root),
    {
        let tool = &self.tools[index];
        Installation::start(tool.title.as_str(), tool.needs_root)
    }
}

} // verus!
