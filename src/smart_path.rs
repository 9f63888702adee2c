use vstd::prelude::*;

use crate::path::{is_separator, join, join_path, strip_leading_separators, trim_leading_separators};

verus! {

/// What a `SmartPath` stands for: the root of the account's sync folder, and
/// the target inside it, held without a leading separator.
pub ghost struct SmartPathView {
    pub local_root: Seq<char>,
    pub target: Seq<char>,
}

impl SmartPathView {
    /// The target `path` inside the folder `root`.
    pub open spec fn new(root: Seq<char>, path: Seq<char>) -> SmartPathView {
        SmartPathView { local_root: root, target: trim_leading_separators(path) }
    }

    /// The local path: the root itself for an empty target, else the root
    /// joined with the target.
    pub open spec fn local(self) -> Seq<char> {
        if self.target.len() == 0 {
            self.local_root
        } else {
            join_path(self.local_root, self.target)
        }
    }

    /// The remote path: the target under the remote root `/`.
    pub open spec fn remote(self) -> Seq<char> {
        join_path(seq!['/'], self.target)
    }
}

/// A path inside a sync folder, seen locally and remotely.
pub struct SmartPath {
    local_root: String,
    target: String,
}

impl View for SmartPath {
    type V = SmartPathView;

    closed spec fn view(&self) -> SmartPathView {
        SmartPathView { local_root: self.local_root@, target: self.target@ }
    }
}

impl SmartPath {
    #[verifier::type_invariant]
    closed spec fn target_is_relative(self) -> bool {
        self.target@.len() == 0 || !is_separator(self.target@[0])
    }

    /// The target `path` inside the folder `root`; leading separators of
    /// `path` are dropped.
    pub fn new(root: &str, path: &str) -> (r: SmartPath)
        ensures
            r@ == SmartPathView::new(root@, path@),
    {
        let target = strip_leading_separators(path);
        proof {
            lemma_trimmed_is_relative(path@);
        }
        SmartPath { local_root: root.to_owned(), target }
    }

    /// Gets the local absolute path of the target.
    pub fn local(&self) -> (r: String)
        ensures
            r@ == self@.local(),
    {
        if self.target.as_str().unicode_len() > 0 {
            join(self.local_root.as_str(), self.target.as_str())
        } else {
            self.local_root.clone()
        }
    }

    /// Gets the remote path of the target.
    pub fn remote(&self) -> (r: String)
        ensures
            r@ == self@.remote(),
    {
        let root = "/";
        proof {
            reveal_strlit("/");
        }
        assert(root@ == seq!['/']);
        join(root, self.target.as_str())
    }
}

proof fn lemma_trimmed_is_relative(p: Seq<char>)
    ensures
        trim_leading_separators(p).len() == 0 || !is_separator(trim_leading_separators(p)[0]),
    decreases p.len(),
{
    if p.len() > 0 && is_separator(p[0]) {
        lemma_trimmed_is_relative(p.drop_first());
    }
}

/// A path that does not start with a separator is kept as it is: its local
/// path is the root joined with it.
pub proof fn lemma_local_joins_relative(root: Seq<char>, p: Seq<char>)
    requires
        p.len() > 0,
        !is_separator(p[0]),
    ensures
        SmartPathView::new(root, p).local() == join_path(root, p),
{
}

/// A leading separator changes nothing: the path and the path without it
/// have the same local path.
pub proof fn lemma_leading_separator_ignored(root: Seq<char>, p: Seq<char>)
    requires
        p.len() > 0,
        is_separator(p[0]),
    ensures
        SmartPathView::new(root, p).local() == SmartPathView::new(root, p.drop_first()).local(),
{
}

/// The empty path stands for the root itself, with no separator added.
pub proof fn lemma_empty_path_is_root(root: Seq<char>)
    ensures
        SmartPathView::new(root, Seq::<char>::empty()).local() == root,
{
}

/// The remote path is `/` followed by the path without its leading
/// separators; for the empty path it is `/` alone.
pub proof fn lemma_remote_is_rooted(root: Seq<char>, p: Seq<char>)
    ensures
        SmartPathView::new(root, p).remote() == seq!['/'] + trim_leading_separators(p),
        SmartPathView::new(root, Seq::<char>::empty()).remote() == seq!['/'],
{
    lemma_trimmed_is_relative(p);
    assert(seq!['/'].last() == '/');
    assert(seq!['/'] + Seq::<char>::empty() =~= seq!['/']);
}

} // verus!
