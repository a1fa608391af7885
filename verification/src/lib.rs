use vstd::prelude::*;

pub mod git;

pub use git::Git;

verus! {

/// Classification of a single line in a diff against the head revision.
#[derive(Copy, Clone, Debug)]
pub enum LineDiff {
    Added,
    Deleted,
    Modified,
}

/// Maps line numbers to changes
pub type LineDiffs = std::collections::HashMap<usize, LineDiff>;

/// One backend provider: a component that can look up a file's
/// last-committed content in one kind of version-control object store.
enum DiffProvider {
    Git(crate::git::Git),
}

impl DiffProvider {
    fn get_file_head(&self, file: &std::path::Path) -> (r: Option<Vec<u8>>)
        ensures
            r matches Some(d) ==> crate::git::head_content_at(file, d@),
    {
        match self {
            DiffProvider::Git(provider) => provider.get_file_head(file),
        }
    }
}

/// Holds an ordered list of backend providers and delegates lookups to each
/// in turn, returning the first provider's result that is not `None`.
pub struct DiffProviderRegistry {
    providers: Vec<DiffProvider>,
}

impl DiffProviderRegistry {
    /// How many backend providers this registry consults.
    pub closed spec fn provider_count(self) -> nat {
        self.providers@.len()
    }

    pub fn new() -> (r: DiffProviderRegistry)
        ensures
            r.provider_count() == 1,
    {
        // currently only git is supported
        let git: DiffProvider = DiffProvider::Git(crate::git::Git);
        let providers = vec![git];
        DiffProviderRegistry { providers }
    }

    /// Tries the providers in list order and returns the first result that
    /// is not `None`; no provider is tried after one succeeds. A registry
    /// without providers returns `None` on every call, and any bytes
    /// returned are a provider's: content some repository's head commit
    /// records at exactly the file's path.
    pub fn get_file_head(&self, file: &std::path::Path) -> (r: Option<Vec<u8>>)
        ensures
            self.provider_count() == 0 ==> r is None,
            r is Some ==> self.provider_count() > 0,
            r matches Some(d) ==> crate::git::head_content_at(file, d@),
    {
        let mut i: usize = 0;
        while i < self.providers.len()
            invariant
                i <= self.providers@.len(),
            decreases self.providers@.len() - i,
        {
            let result = self.providers[i].get_file_head(file);
            if result.is_some() {
                return result;
            }
            i += 1;
        }
        None
    }
}

impl Default for DiffProviderRegistry {
    fn default() -> (r: Self)
        ensures
            r.provider_count() == 1,
    {
        Self::new()
    }
}

} // verus!
