//! The transfer engine's decisions: what to do with each entry of a local
//! directory, and the tally of what came of it.
use vstd::prelude::*;
use crate::filter::{classify, filter_of, in_skip, views_of, EntryKind, Filter};
use crate::path::{join, joined};

verus! {

/// What one run transfers: a local tree, where it goes, and what to leave out.
pub struct TransferRequest {
    pub local_root: String,
    pub remote_root: String,
    /// Local paths left out, each compared with an entry's path component by
    /// component.
    pub skip: Vec<String>,
    /// Whether directories whose name starts with `.` are left out.
    pub ignore_dotfiles: bool,
}

impl TransferRequest {
    pub open spec fn skip_view(&self) -> Seq<Seq<char>> {
        views_of(self.skip@)
    }
}

/// One entry of a local directory listing.
pub struct DirEntry {
    /// The base name.
    pub name: String,
    pub kind: EntryKind,
}

/// What to do with one entry of a local directory.
pub enum Action {
    /// Leave the entry out; `reason` is the filter's decision.
    Skip { path: String, reason: Filter },
    /// Transfer the local directory `local` into the remote directory `remote`.
    Descend { local: String, remote: String },
    /// Write the contents of the local file `local` to the remote file
    /// `remote`, replacing whatever is there.
    Upload { local: String, remote: String },
    /// Neither a file nor a directory: nothing is done.
    Ignore { path: String },
}

/// An action, over paths as character sequences.
pub enum ActionModel {
    Skip(Seq<char>, Filter),
    Descend(Seq<char>, Seq<char>),
    Upload(Seq<char>, Seq<char>),
    Ignore(Seq<char>),
}

impl View for Action {
    type V = ActionModel;

    open spec fn view(&self) -> ActionModel {
        match self {
            Action::Skip { path, reason } => ActionModel::Skip(path@, *reason),
            Action::Descend { local, remote } => ActionModel::Descend(local@, remote@),
            Action::Upload { local, remote } => ActionModel::Upload(local@, remote@),
            Action::Ignore { path } => ActionModel::Ignore(path@),
        }
    }
}

/// The action for the entry `name` of kind `kind` in the local directory
/// `local_dir`, whose counterpart is `remote_dir`.
pub open spec fn action_of(
    local_dir: Seq<char>,
    remote_dir: Seq<char>,
    name: Seq<char>,
    kind: EntryKind,
    skip: Seq<Seq<char>>,
    ignore_dotfiles: bool,
) -> ActionModel {
    let path = joined(local_dir, name);
    match filter_of(path, name, kind, skip, ignore_dotfiles) {
        Filter::Include => match kind {
            EntryKind::Directory => ActionModel::Descend(path, joined(remote_dir, name)),
            EntryKind::File => ActionModel::Upload(path, joined(remote_dir, name)),
            EntryKind::Other => ActionModel::Ignore(path),
        },
        reason => ActionModel::Skip(path, reason),
    }
}

/// Decides what to do with the entry `entry` of `local_dir`.
pub fn plan_entry(
    request: &TransferRequest,
    local_dir: &str,
    remote_dir: &str,
    entry: &DirEntry,
) -> (r: Action)
    ensures
        r@ == action_of(
            local_dir@,
            remote_dir@,
            entry.name@,
            entry.kind,
            request.skip_view(),
            request.ignore_dotfiles,
        ),
{
    let path = join(local_dir, entry.name.as_str());
    match classify(&path, &entry.name, entry.kind, &request.skip, request.ignore_dotfiles) {
        Filter::Include => match entry.kind {
            EntryKind::Directory => Action::Descend {
                local: path,
                remote: join(remote_dir, entry.name.as_str()),
            },
            EntryKind::File => Action::Upload {
                local: path,
                remote: join(remote_dir, entry.name.as_str()),
            },
            EntryKind::Other => Action::Ignore { path },
        },
        reason => Action::Skip { path, reason },
    }
}

/// Decides what to do with each entry of the listing `entries` of the local
/// directory `local_dir`, whose counterpart is `remote_dir`: one action per
/// entry, in the listing's order.
pub fn plan_level(
    request: &TransferRequest,
    local_dir: &str,
    remote_dir: &str,
    entries: &Vec<DirEntry>,
) -> (r: Vec<Action>)
    ensures
        r@.len() == entries@.len(),
        forall|i: int|
            0 <= i < entries@.len() ==> #[trigger] r@[i]@ == action_of(
                local_dir@,
                remote_dir@,
                entries@[i].name@,
                entries@[i].kind,
                request.skip_view(),
                request.ignore_dotfiles,
            ),
{
    let mut out: Vec<Action> = Vec::new();
    let mut i: usize = 0;
    while i < entries.len()
        invariant
            i <= entries@.len(),
            out@.len() == i,
            forall|j: int|
                0 <= j < i ==> #[trigger] out@[j]@ == action_of(
                    local_dir@,
                    remote_dir@,
                    entries@[j].name@,
                    entries@[j].kind,
                    request.skip_view(),
                    request.ignore_dotfiles,
                ),
        decreases entries.len() - i,
    {
        let a = plan_entry(request, local_dir, remote_dir, &entries[i]);
        out.push(a);
        i = i + 1;
    }
    out
}

/// An entry whose path is in the skip set is skipped, whatever its kind: no
/// upload and no descent, hence no remote directory, is planned for it.
pub proof fn lemma_skip_set_untouched(
    local_dir: Seq<char>,
    remote_dir: Seq<char>,
    name: Seq<char>,
    kind: EntryKind,
    skip: Seq<Seq<char>>,
    ignore_dotfiles: bool,
)
    requires
        in_skip(skip, joined(local_dir, name)),
    ensures
        action_of(local_dir, remote_dir, name, kind, skip, ignore_dotfiles) == ActionModel::Skip(
            joined(local_dir, name),
            Filter::SkipExplicit,
        ),
{
}

/// Where dot directories are suppressed, a directory whose name starts with
/// `.` is skipped, not descended into; a plain file whose name starts with `.`
/// is still uploaded.
pub proof fn lemma_dot_directories_only(
    local_dir: Seq<char>,
    remote_dir: Seq<char>,
    name: Seq<char>,
    skip: Seq<Seq<char>>,
)
    requires
        crate::filter::is_dotted(name),
        !in_skip(skip, joined(local_dir, name)),
    ensures
        action_of(local_dir, remote_dir, name, EntryKind::Directory, skip, true)
            == ActionModel::Skip(joined(local_dir, name), Filter::SkipDotfile),
        action_of(local_dir, remote_dir, name, EntryKind::File, skip, true)
            == ActionModel::Upload(joined(local_dir, name), joined(remote_dir, name)),
{
}

/// A plain file outside the skip set is uploaded whatever the remote side
/// holds: the plan reads nothing of it, so a second run plans the same upload,
/// which replaces the remote file.
pub proof fn lemma_files_always_uploaded(
    local_dir: Seq<char>,
    remote_dir: Seq<char>,
    name: Seq<char>,
    skip: Seq<Seq<char>>,
    ignore_dotfiles: bool,
)
    requires
        !in_skip(skip, joined(local_dir, name)),
    ensures
        action_of(local_dir, remote_dir, name, EntryKind::File, skip, ignore_dotfiles)
            == ActionModel::Upload(joined(local_dir, name), joined(remote_dir, name)),
{
}

} // verus!
