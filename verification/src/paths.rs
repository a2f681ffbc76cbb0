use vstd::prelude::*;

verus! {

/// Where a path starts. Besides literal text, a path may start at a
/// directory that only the caller knows: the user's home directory, the
/// directory that holds the launcher executable, or the Neovim executable
/// named by `LAZYVIM_NVIM`. The caller substitutes these when it turns the
/// path into a file-system path.
#[derive(Debug)]
pub enum Root {
    Text(String),
    UserHome,
    LauncherDir,
    NvimOverride,
}

/// The mathematical model of a [`Root`].
pub enum RootModel {
    Text(Seq<char>),
    UserHome,
    LauncherDir,
    NvimOverride,
}

impl View for Root {
    type V = RootModel;

    open spec fn view(&self) -> RootModel {
        match self {
            Root::Text(s) => RootModel::Text(s@),
            Root::UserHome => RootModel::UserHome,
            Root::LauncherDir => RootModel::LauncherDir,
            Root::NvimOverride => RootModel::NvimOverride,
        }
    }
}

impl Root {
    /// A copy of the root.
    pub fn duplicate(&self) -> (r: Root)
        ensures
            r@ == self@,
    {
        match self {
            Root::Text(s) => Root::Text(s.clone()),
            Root::UserHome => Root::UserHome,
            Root::LauncherDir => Root::LauncherDir,
            Root::NvimOverride => Root::NvimOverride,
        }
    }
}

/// A path given as a root followed by components, each appended with
/// `Path::join` when the path is materialised: `root.join(parts[0]).join(parts[1])...`.
#[derive(Debug)]
pub struct JoinedPath {
    pub root: Root,
    pub parts: Vec<String>,
}

/// The mathematical model of a [`JoinedPath`].
pub struct PathModel {
    pub root: RootModel,
    pub parts: Seq<Seq<char>>,
}

/// The views of a sequence of strings.
pub open spec fn views(v: Seq<String>) -> Seq<Seq<char>> {
    v.map_values(|s: String| s@)
}

impl View for JoinedPath {
    type V = PathModel;

    open spec fn view(&self) -> PathModel {
        PathModel { root: self.root@, parts: views(self.parts@) }
    }
}

impl PathModel {
    /// The path with one more component.
    pub open spec fn child(self, part: Seq<char>) -> PathModel {
        PathModel { root: self.root, parts: self.parts.push(part) }
    }

    /// The path with several more components, in order.
    pub open spec fn children(self, more: Seq<Seq<char>>) -> PathModel {
        PathModel { root: self.root, parts: self.parts + more }
    }

    /// A path that starts at `root` with no component.
    pub open spec fn at(root: RootModel) -> PathModel {
        PathModel { root, parts: Seq::empty() }
    }

    /// `self` lies at or below `base`: same root, and `base`'s components
    /// are the first components of `self`.
    pub open spec fn is_under(self, base: PathModel) -> bool {
        &&& self.root == base.root
        &&& base.parts.len() <= self.parts.len()
        &&& self.parts.subrange(0, base.parts.len() as int) == base.parts
    }
}

/// A copy of a vector of strings.
pub fn copy_strings(v: &Vec<String>) -> (r: Vec<String>)
    ensures
        r@ == v@,
{
    let mut r: Vec<String> = Vec::new();
    let mut i: usize = 0;
    while i < v.len()
        invariant
            i <= v.len(),
            r@ == v@.subrange(0, i as int),
        decreases v.len() - i,
    {
        r.push(v[i].clone());
        i = i + 1;
    }
    assert(r@ =~= v@);
    r
}

impl JoinedPath {
    /// The path that is just `root`.
    pub fn from_root(root: Root) -> (r: JoinedPath)
        ensures
            r@ == PathModel::at(root@),
    {
        let r = JoinedPath { root, parts: Vec::new() };
        assert(views(r.parts@) =~= Seq::<Seq<char>>::empty());
        r
    }

    /// The path of the literal text `text`.
    pub fn text(text: &str) -> (r: JoinedPath)
        ensures
            r@ == PathModel::at(RootModel::Text(text@)),
    {
        JoinedPath::from_root(Root::Text(String::from_str(text)))
    }

    /// A copy of the path.
    pub fn duplicate(&self) -> (r: JoinedPath)
        ensures
            r@ == self@,
    {
        JoinedPath { root: self.root.duplicate(), parts: copy_strings(&self.parts) }
    }

    /// The path with `part` appended, as `Path::join` appends it.
    pub fn join(&self, part: &str) -> (r: JoinedPath)
        ensures
            r@ == self@.child(part@),
    {
        let mut parts = copy_strings(&self.parts);
        parts.push(String::from_str(part));
        let r = JoinedPath { root: self.root.duplicate(), parts };
        assert(views(r.parts@) =~= views(self.parts@).push(part@));
        r
    }
}

} // verus!
