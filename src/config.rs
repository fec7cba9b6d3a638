//! The client's view of the agent's configuration file.
use vstd::prelude::*;

verus! {

/// A project's entry in the configuration.
pub struct ProjectConfig {
    pub trust_level: String,
}

/// A model provider's entry in the configuration.
pub struct ModelProviderConfig {
    pub name: Option<String>,
    pub base_url: Option<String>,
}

/// The configuration file: project entries keyed by path, provider entries
/// keyed by name, each key once.
pub struct CodexConfig {
    pub projects: Vec<(String, ProjectConfig)>,
    pub model_providers: Vec<(String, ModelProviderConfig)>,
}

/// A project with its path.
pub struct Project {
    pub path: String,
    pub trust_level: String,
}

impl CodexConfig {
    /// A configuration with no entries, as when the file does not exist.
    pub fn empty() -> (r: CodexConfig)
        ensures
            r.projects@.len() == 0,
            r.model_providers@.len() == 0,
    {
        CodexConfig { projects: Vec::new(), model_providers: Vec::new() }
    }

    /// The projects of the configuration, one for each entry, in order.
    pub fn projects(self) -> (r: Vec<Project>)
        ensures
            r@.len() == self.projects@.len(),
            forall|i: int| 0 <= i < r@.len() ==> (#[trigger] r@[i]).path == self.projects@[i].0
                && r@[i].trust_level == self.projects@[i].1.trust_level,
    {
        let ghost entries = self.projects@;
        let mut rest = self.projects;
        let mut out: Vec<Project> = Vec::new();
        while rest.len() > 0
            invariant
                out@.len() + rest@.len() == entries.len(),
                rest@ == entries.subrange(out@.len() as int, entries.len() as int),
                forall|i: int| 0 <= i < out@.len() ==> (#[trigger] out@[i]).path == entries[i].0
                    && out@[i].trust_level == entries[i].1.trust_level,
            decreases rest@.len(),
        {
            let (path, entry) = rest.remove(0);
            out.push(Project { path, trust_level: entry.trust_level });
            assert(rest@ =~= entries.subrange(out@.len() as int, entries.len() as int));
        }
        out
    }
}

} // verus!
