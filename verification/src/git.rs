use vstd::prelude::*;

verus! {

// The git object store is reached through the `gix` crate. Verus sees its
// handle types only opaquely; every call into the crate (and every call into
// the parts of std's path handling that vstd gives no specification) goes
// through a trusted wrapper below, and the decision logic around those calls
// is verified.

#[verifier::external_type_specification]
#[verifier::external_body]
pub struct ExObjectId(gix::ObjectId);

#[verifier::external_type_specification]
#[verifier::external_body]
pub struct ExRepository(gix::Repository);

#[verifier::external_type_specification]
#[verifier::external_body]
pub struct ExCommit<'a>(gix::Commit<'a>);

#[verifier::external_type_specification]
#[verifier::external_body]
pub struct ExTree<'a>(gix::Tree<'a>);

#[verifier::external_type_specification]
#[verifier::external_body]
pub struct ExPath(std::path::Path);

#[verifier::external_type_specification]
#[verifier::external_body]
pub struct ExComponent<'a>(std::path::Component<'a>);

// Names for what the opaque values hold. Each is applied by the trusted
// wrappers below; the contracts of the verified functions are stated over
// them. The names over repository, commit and tree handles are functions of
// the handle value alone: a lookup opens its own handles, holds them for a
// single call, and never writes, so the store behind a handle does not
// change while any contract speaks of it.

// The hash bytes of an object identifier.
pub uninterp spec fn oid_bytes(oid: gix::ObjectId) -> Seq<u8>;

// What the object store behind this repository handle holds: a partial map
// from identifier hash bytes to the raw bytes of the stored object.
pub uninterp spec fn store_contents(repo: gix::Repository) -> Map<Seq<u8>, Seq<u8>>;

// Whether `wd` is the working-directory root recorded in this repository
// handle; no path is, for a bare repository.
pub uninterp spec fn is_workdir_of(repo: gix::Repository, wd: &std::path::Path) -> bool;

// What a tree object holds beneath it: a partial map from byte-component
// paths to the entry kind and identifier hash bytes recorded at that path.
pub uninterp spec fn tree_entries(t: gix::Tree<'_>) -> Map<Seq<Seq<u8>>, (TreeEntryMode, Seq<u8>)>;

// The entries of the tree object recorded by this commit.
pub uninterp spec fn commit_tree(c: gix::Commit<'_>) -> Map<Seq<Seq<u8>>, (TreeEntryMode, Seq<u8>)>;

// The entries of the tree of the commit that the repository's head refers
// to; meaningless for a repository without commits.
pub uninterp spec fn repo_head_tree(repo: gix::Repository) -> Map<
    Seq<Seq<u8>>,
    (TreeEntryMode, Seq<u8>),
>;

// The encoded bytes of one path component: on byte-transparent platforms
// its raw OS bytes.
pub uninterp spec fn comp_bytes(c: std::path::Component<'_>) -> Seq<u8>;

// The encoded bytes of a path's components, in component order.
pub uninterp spec fn path_comp_bytes(p: &std::path::Path) -> Seq<Seq<u8>>;

// The encoded component bytes of `file` taken relative to `base`; nothing
// when `file` does not lie under `base`.
pub uninterp spec fn rel_comp_bytes(file: &std::path::Path, base: &std::path::Path) -> Option<
    Seq<Seq<u8>>,
>;

/// The sequence of byte strings a vector of byte vectors holds.
pub open spec fn byte_seqs(v: Vec<Vec<u8>>) -> Seq<Seq<u8>> {
    Seq::new(v@.len(), |i: int| v@[i]@)
}

/// The kind of entry a path resolves to in a head commit's tree.
///
/// Only `Blob` and `BlobExecutable` denote retrievable file content; the
/// other kinds have no meaningful byte content to diff against.
#[derive(Copy, Clone, Debug)]
pub enum TreeEntryMode {
    Tree,
    Commit,
    Link,
    Blob,
    BlobExecutable,
}

/// Whether a tree entry of this kind carries file content that can serve as
/// a diff baseline.
pub open spec fn mode_is_file(m: TreeEntryMode) -> bool {
    m is Blob || m is BlobExecutable
}

/// What any returned baseline must be: some discoverable repository has a
/// working directory under which `file` strips to a relative byte path, its
/// head commit's tree records a regular- or executable-file entry at exactly
/// that path, and the store holds `d` as that entry's object — never content
/// belonging to a different path, a directory listing, or a symlink target.
pub open spec fn head_content_at(file: &std::path::Path, d: Seq<u8>) -> bool {
    exists|repo: gix::Repository, wd: &std::path::Path|
        #![trigger is_workdir_of(repo, wd)]
        {
            &&& is_workdir_of(repo, wd)
            &&& rel_comp_bytes(file, wd) is Some
            &&& repo_head_tree(repo).contains_key(rel_comp_bytes(file, wd)->0)
            &&& mode_is_file(repo_head_tree(repo)[rel_comp_bytes(file, wd)->0].0)
            &&& store_contents(repo).contains_key(
                repo_head_tree(repo)[rel_comp_bytes(file, wd)->0].1,
            )
            &&& store_contents(repo)[repo_head_tree(repo)[rel_comp_bytes(file, wd)->0].1] == d
        }
}

/// Keeps the object identifier only when the resolved entry is a regular or
/// executable file; a directory, submodule, or symbolic link yields nothing,
/// so that no diff baseline is produced for it.
pub fn entry_object_id(mode: TreeEntryMode, oid: gix::ObjectId) -> (r: Option<gix::ObjectId>)
    ensures
        mode_is_file(mode) ==> r == Some(oid),
        !mode_is_file(mode) ==> r is None,
{
    match mode {
        TreeEntryMode::Tree | TreeEntryMode::Commit | TreeEntryMode::Link => None,
        TreeEntryMode::Blob | TreeEntryMode::BlobExecutable => Some(oid),
    }
}

/// Relies on std::path::Path::parent: the path without its final component,
/// or `None` for a root or empty path.
#[verifier::external_body]
fn parent_dir(file: &std::path::Path) -> Option<&std::path::Path> {
    file.parent()
}

/// Relies on gix::discover: searches upward from `dir` for a repository and
/// opens it; failing to find or open one comes back as `None`.
#[verifier::external_body]
fn discover_repo(dir: &std::path::Path) -> Option<gix::Repository> {
    gix::discover(dir).ok()
}

/// Relies on gix::Repository::head_commit: the commit referenced by `HEAD`,
/// whose tree is by definition the repository's head tree; `None` when the
/// repository has no commits yet or `HEAD` cannot be resolved to a commit.
/// The named head tree is a function of the handle because the store is not
/// mutated while the handle is held.
#[verifier::external_body]
fn head_commit_of(repo: &gix::Repository) -> (r: Option<gix::Commit<'_>>)
    ensures
        r matches Some(c) ==> commit_tree(c) == repo_head_tree(*repo),
{
    repo.head_commit().ok()
}

/// Relies on gix::Repository::workdir: the working-directory root the
/// handle records, read from a field; absent for bare repositories.
#[verifier::external_body]
fn workdir_of(repo: &gix::Repository) -> (r: Option<&std::path::Path>)
    ensures
        r matches Some(wd) ==> is_workdir_of(*repo, wd),
        r is None ==> forall|wd: &std::path::Path| !is_workdir_of(*repo, wd),
{
    repo.workdir()
}

/// Relies on std::path::Path::strip_prefix: the remainder of `file` after
/// `base` when `file` lies under `base`, and `None` otherwise — a pure
/// function of the two path values.
#[verifier::external_body]
fn strip_prefix_of<'p>(file: &'p std::path::Path, base: &std::path::Path) -> (r: Option<
    &'p std::path::Path,
>)
    ensures
        r matches Some(rel) ==> rel_comp_bytes(file, base) == Some(path_comp_bytes(rel)),
        r is None ==> rel_comp_bytes(file, base) is None,
{
    file.strip_prefix(base).ok()
}

/// Relies on std::path::Path::components: the normalized components of the
/// path, in order; their encoded bytes are the path's.
#[verifier::external_body]
fn path_components(path: &std::path::Path) -> (r: Vec<std::path::Component<'_>>)
    ensures
        r@.len() == path_comp_bytes(path).len(),
        forall|i: int|
            0 <= i < r@.len() ==> comp_bytes(#[trigger] r@[i]) == path_comp_bytes(path)[i],
{
    path.components().collect()
}

/// Relies on OsStr::as_encoded_bytes (reached through
/// Component::as_os_str): the component's encoded bytes, which on
/// byte-transparent platforms are exactly its raw OS bytes; total for every
/// component.
#[verifier::external_body]
fn component_bytes(component: &std::path::Component<'_>) -> (r: Vec<u8>)
    ensures
        r@ == comp_bytes(*component),
{
    component.as_os_str().as_encoded_bytes().to_vec()
}

/// Relies on gix::Commit::tree: the tree object recorded by the commit;
/// `None` when it cannot be decoded or found. The named entries are a
/// function of the handles because the store is not mutated while they are
/// held.
#[verifier::external_body]
fn tree_of<'r>(commit: &gix::Commit<'r>) -> (r: Option<gix::Tree<'r>>)
    ensures
        r matches Some(t) ==> tree_entries(t) == commit_tree(*commit),
{
    commit.tree().ok()
}

/// Relies on gix::Tree::lookup_entry: walks the byte path components down
/// from this tree; any entry returned is the one recorded at exactly that
/// byte path, with its recorded kind and identifier, and `None` comes back
/// when a component is absent or a read fails. The entry's kind is handed
/// out as the library's own `TreeEntryMode`, one variant for one `gix`
/// entry kind. The named entries are a function of the tree handle because
/// the store is not mutated while the handle is held.
#[verifier::external_body]
fn lookup_entry_in(tree: &gix::Tree<'_>, components: &Vec<Vec<u8>>) -> (r: Option<
    (TreeEntryMode, gix::ObjectId),
>)
    ensures
        r matches Some(e) ==> {
            &&& tree_entries(*tree).contains_key(byte_seqs(*components))
            &&& e.0 == tree_entries(*tree)[byte_seqs(*components)].0
            &&& oid_bytes(e.1) == tree_entries(*tree)[byte_seqs(*components)].1
        },
{
    let entry = tree.lookup_entry(components.iter().map(|c| c.as_slice())).ok()??;
    let mode = match entry.mode().kind() {
        gix::objs::tree::EntryKind::Tree => TreeEntryMode::Tree,
        gix::objs::tree::EntryKind::Commit => TreeEntryMode::Commit,
        gix::objs::tree::EntryKind::Link => TreeEntryMode::Link,
        gix::objs::tree::EntryKind::Blob => TreeEntryMode::Blob,
        gix::objs::tree::EntryKind::BlobExecutable => TreeEntryMode::BlobExecutable,
    };
    Some((mode, entry.object_id()))
}

/// Relies on gix::Repository::find_object: any bytes returned are exactly
/// what the content-addressed store holds for this identifier; `None` when
/// the object is missing or cannot be read. The named store contents are a
/// function of the handle because the store is not mutated while the handle
/// is held.
#[verifier::external_body]
fn read_object_data(repo: &gix::Repository, oid: gix::ObjectId) -> (r: Option<Vec<u8>>)
    ensures
        r matches Some(d) ==> {
            &&& store_contents(*repo).contains_key(oid_bytes(oid))
            &&& store_contents(*repo)[oid_bytes(oid)] == d@
        },
{
    let object = repo.find_object(oid).ok()?;
    Some(object.detach().data)
}

/// Converts a relative filesystem path into the ordered byte-string
/// components the object store's tree lookup expects.
///
/// Paths are raw bytes here, so the conversion is total: every component
/// maps directly to its encoded bytes, and the result is always produced.
/// The optional return mirrors the operation's contract — a conversion may
/// be partial where native path segments are only validated text — but this
/// conversion never declines.
pub fn byte_path_components(path: &std::path::Path) -> (r: Option<Vec<Vec<u8>>>)
    ensures
        r is Some,
        r matches Some(v) ==> byte_seqs(v) == path_comp_bytes(path),
{
    let components = path_components(path);
    let mut out: Vec<Vec<u8>> = Vec::new();
    let mut i: usize = 0;
    while i < components.len()
        invariant
            i <= components@.len(),
            out@.len() == i,
            components@.len() == path_comp_bytes(path).len(),
            forall|j: int|
                0 <= j < components@.len() ==> comp_bytes(#[trigger] components@[j])
                    == path_comp_bytes(path)[j],
            forall|j: int| 0 <= j < i ==> #[trigger] out@[j]@ == path_comp_bytes(path)[j],
        decreases components@.len() - i,
    {
        out.push(component_bytes(&components[i]));
        i += 1;
    }
    proof {
        assert(byte_seqs(out) =~= path_comp_bytes(path));
    }
    Some(out)
}

/// Finds the object that contains the contents of a file at a specific
/// commit.
///
/// The file's path is resolved relative to the repository's working
/// directory, converted to byte components, and walked down the commit's
/// tree; only an entry that is a regular or executable file yields its
/// object identifier, and it is always the entry recorded at the file's
/// exact relative path. Every failing step yields `None`; a bare
/// repository, in particular, yields `None`.
fn find_file_in_commit(
    repo: &gix::Repository,
    commit: &gix::Commit<'_>,
    file: &std::path::Path,
) -> (r: Option<gix::ObjectId>)
    ensures
        (forall|wd: &std::path::Path| !is_workdir_of(*repo, wd)) ==> r is None,
        r matches Some(oid) ==> (exists|wd: &std::path::Path|
            #![trigger is_workdir_of(*repo, wd)]
            {
                &&& is_workdir_of(*repo, wd)
                &&& rel_comp_bytes(file, wd) is Some
                &&& commit_tree(*commit).contains_key(rel_comp_bytes(file, wd)->0)
                &&& mode_is_file(commit_tree(*commit)[rel_comp_bytes(file, wd)->0].0)
                &&& oid_bytes(oid) == commit_tree(*commit)[rel_comp_bytes(file, wd)->0].1
            }),
{
    let repo_dir = workdir_of(repo)?;
    let rel_path = strip_prefix_of(file, repo_dir)?;
    let rel_path_components = byte_path_components(rel_path)?;
    let tree = tree_of(commit)?;
    let (mode, oid) = lookup_entry_in(&tree, &rel_path_components)?;
    entry_object_id(mode, oid)
}

/// The built-in backend provider: looks a file's head content up in a
/// git-style object store.
pub struct Git;

impl Git {
    /// Returns the byte content last recorded for `file` in the head commit
    /// of the repository containing it.
    ///
    /// `file` is expected to be an absolute path to an existing regular
    /// file. Any bytes returned are the content the discovered repository's
    /// head commit records at exactly the file's path, under a regular- or
    /// executable-file mode. Every failure mode — no repository, an empty
    /// repository, a path outside the working directory or absent from the
    /// head tree, an entry that is a directory, submodule or symbolic link,
    /// or an unreadable object — collapses to `None`: the file then has no
    /// diff baseline.
    pub fn get_file_head(&self, file: &std::path::Path) -> (r: Option<Vec<u8>>)
        ensures
            r matches Some(d) ==> head_content_at(file, d@),
    {
        let parent = parent_dir(file)?;
        let repo = discover_repo(parent)?;
        let head = head_commit_of(&repo)?;
        let file_oid = find_file_in_commit(&repo, &head, file)?;
        read_object_data(&repo, file_oid)
    }
}

} // verus!
