//! The document tree: the manuscript's node set. A fresh book starts from a
//! fixed skeleton; an existing one is reconstructed from a walk of its
//! directory. Nodes are addressed by the identity scheme of `ident`, content
//! is concatenated for compilation, and a sidecar synopsis file accompanies
//! every node under a reserved metadata directory.

use crate::error::MyError;
use crate::vcs::BookRepo;
use crate::ident::base_name;
use crate::ident::base_name_of;
use crate::ident::contains_seq;
use crate::ident::contains_str;
use crate::ident::hash_id;
use crate::ident::id_of;
use crate::ident::lemma_no_slash;
use crate::ident::lemma_normal_form_identity;
use crate::ident::lemma_normal_form_idempotent;
use crate::ident::lemma_split_at_slash;
use crate::ident::match_at;
use crate::ident::node_id;
use crate::ident::normal_form;
use crate::ident::normalize_path;
use crate::ident::parent_of;
use crate::ident::parent_path;
use vstd::prelude::*;
use vstd::string::*;

verus! {

/// The mathematical model of one node of the tree.
#[verifier::ext_equal]
pub ghost struct NodeModel {
    pub id: Seq<char>,
    pub name: Seq<char>,
    pub rel_path: Seq<char>,
    pub parent: Seq<char>,
    pub is_visible: bool,
    pub is_folder: bool,
    pub is_research: bool,
    pub content: Option<Seq<char>>,
    pub synopsis: Seq<char>,
}

/// One entry (file or folder) of the manuscript tree.
pub struct File {
    pub id: String,
    pub name: String,
    pub rel_path: String,
    pub parent: String,
    pub is_visible: bool,
    pub is_folder: bool,
    pub is_research: bool,
    pub content: Option<String>,
    pub synopsis: String,
}

impl View for File {
    type V = NodeModel;

    open spec fn view(&self) -> NodeModel {
        NodeModel {
            id: self.id@,
            name: self.name@,
            rel_path: self.rel_path@,
            parent: self.parent@,
            is_visible: self.is_visible,
            is_folder: self.is_folder,
            is_research: self.is_research,
            content: match self.content {
                Some(c) => Some(c@),
                None => None,
            },
            synopsis: self.synopsis@,
        }
    }
}

/// The model of a node built fresh at `rel_path`: identity from the path as
/// given, empty content for files, no content for folders, empty synopsis.
pub open spec fn new_node(
    name: Seq<char>,
    rel_path: Seq<char>,
    parent: Seq<char>,
    is_folder: bool,
    is_research: bool,
) -> NodeModel {
    NodeModel {
        id: id_of(rel_path),
        name: name,
        rel_path: rel_path,
        parent: parent,
        is_visible: true,
        is_folder: is_folder,
        is_research: is_research,
        content: if is_folder {
            None
        } else {
            Some(Seq::empty())
        },
        synopsis: Seq::empty(),
    }
}

/// What loading derives for one walked entry: every field a function of the
/// slash-normalized relative path, the entry kind, and the two texts read
/// beside it. The root (empty relative path) is named after the book and its
/// parent is the sentinel; every other node is named by its last path
/// component and its parent is the identity of the path's parent. A node is
/// research content exactly when "Research" occurs in its normalized path.
pub open spec fn entry_node(
    book_name: Seq<char>,
    rel_path: Seq<char>,
    is_folder: bool,
    data: Seq<char>,
    synopsis: Seq<char>,
) -> NodeModel {
    let normal = normal_form(rel_path);
    NodeModel {
        id: id_of(normal),
        name: if normal.len() == 0 {
            book_name
        } else {
            base_name(normal)
        },
        rel_path: normal,
        parent: if normal.len() == 0 {
            ("0")@
        } else {
            id_of(parent_path(normal))
        },
        is_visible: true,
        is_folder: is_folder,
        is_research: contains_seq(normal, ("Research")@),
        content: if is_folder {
            None
        } else {
            Some(data)
        },
        synopsis: synopsis,
    }
}

/// The model of one entry found by walking the book directory.
#[verifier::ext_equal]
pub ghost struct EntryModel {
    pub rel_path: Seq<char>,
    pub is_folder: bool,
    pub data: Seq<char>,
    pub synopsis: Seq<char>,
}

/// One entry found by walking the book directory: its path relative to the
/// book root, its kind, its full text (empty for a folder) and the text of
/// its sidecar synopsis file.
pub struct RawEntry {
    pub rel_path: String,
    pub is_folder: bool,
    pub data: String,
    pub synopsis: String,
}

impl View for RawEntry {
    type V = EntryModel;

    open spec fn view(&self) -> EntryModel {
        EntryModel {
            rel_path: self.rel_path@,
            is_folder: self.is_folder,
            data: self.data@,
            synopsis: self.synopsis@,
        }
    }
}

impl File {
    /// A node built fresh, as the skeleton of a new book builds them.
    pub fn new(name: &str, rel_path: &str, parent: &str, is_folder: bool, is_research: bool) -> (r:
        File)
        ensures
            r@ == new_node(name@, rel_path@, parent@, is_folder, is_research),
    {
        let id = hash_id(rel_path);
        let content: Option<String> = if is_folder {
            None
        } else {
            Some(String::new())
        };
        let f = File {
            id,
            name: name.to_owned(),
            rel_path: rel_path.to_owned(),
            parent: parent.to_owned(),
            is_visible: true,
            is_folder,
            is_research,
            content,
            synopsis: String::new(),
        };
        proof {
            assert(f@ =~= new_node(name@, rel_path@, parent@, is_folder, is_research));
        }
        f
    }

    /// The node for one on-disk entry of the walk, from plain values alone.
    pub fn from_entry(book_name: &str, e: &RawEntry) -> (r: File)
        ensures
            r@ == entry_node(book_name@, e.rel_path@, e.is_folder, e.data@, e.synopsis@),
    {
        let normal = normalize_path(e.rel_path.as_str());
        let id = hash_id(normal.as_str());
        let empty = normal.as_str().unicode_len() == 0;
        let name = if empty {
            book_name.to_owned()
        } else {
            base_name_of(normal.as_str())
        };
        let parent = if empty {
            "0".to_owned()
        } else {
            let par = parent_of(normal.as_str());
            hash_id(par.as_str())
        };
        let is_research = contains_str(normal.as_str(), "Research");
        let content: Option<String> = if e.is_folder {
            None
        } else {
            Some(e.data.clone())
        };
        let f = File {
            id,
            name,
            rel_path: normal,
            parent,
            is_visible: true,
            is_folder: e.is_folder,
            is_research,
            content,
            synopsis: e.synopsis.clone(),
        };
        proof {
            assert(f@ =~= entry_node(book_name@, e.rel_path@, e.is_folder, e.data@, e.synopsis@));
        }
        f
    }
}

/// The test that opening an existing book begins with: a location is a book
/// exactly when it carries the reserved metadata directory. The walk
/// reports whether the marker is there; the decision is made here.
pub fn require_book_marker(marker_present: bool) -> (r: Result<(), MyError>)
    ensures
        marker_present <==> r is Ok,
        !marker_present ==> r == Err::<(), MyError>(MyError::NotABook),
{
    if marker_present {
        Ok(())
    } else {
        Err(MyError::NotABook)
    }
}

/// Whether a walk skips an entry of this name: hidden entries (leading dot)
/// and build-internal directories.
pub fn is_hidden_name(name: &str) -> (r: bool)
    ensures
        r == (name@.len() > 0 && name@[0] == '.' || contains_seq(name@, ("target")@)),
{
    if name.unicode_len() > 0 && name.get_char(0) == '.' {
        true
    } else {
        contains_str(name, "target")
    }
}

/// The models of a run of nodes.
pub open spec fn models(files: Seq<File>) -> Seq<NodeModel> {
    files.map_values(|f: File| f@)
}

/// The first node carrying `id`, if any.
pub open spec fn find_node(nodes: Seq<NodeModel>, id: Seq<char>) -> Option<NodeModel>
    decreases nodes.len(),
{
    if nodes.len() == 0 {
        None
    } else if nodes[0].id == id {
        Some(nodes[0])
    } else {
        find_node(nodes.drop_first(), id)
    }
}

/// The combined content of the nodes named by `ids`, in that order; or the
/// first failure: an id the tree does not hold, or one that names a folder.
pub open spec fn combine_spec(nodes: Seq<NodeModel>, ids: Seq<Seq<char>>) -> Result<
    Seq<char>,
    MyError,
>
    decreases ids.len(),
{
    if ids.len() == 0 {
        Ok(Seq::empty())
    } else {
        match find_node(nodes, ids[0]) {
            None => Err(MyError::UnknownNode),
            Some(n) => match n.content {
                None => Err(MyError::IsDirectory),
                Some(c) => match combine_spec(nodes, ids.drop_first()) {
                    Ok(rest) => Ok(c + rest),
                    Err(e) => Err(e),
                },
            },
        }
    }
}

/// The manuscript: its nodes, where it lives, and what the version-control
/// layer reported of it when it was opened.
pub struct Book {
    pub files: Vec<File>,
    pub location: String,
    pub name: String,
    pub remotes: Vec<String>,
    pub branches: Vec<String>,
}

impl Book {
    /// The models of this book's nodes.
    pub open spec fn nodes(&self) -> Seq<NodeModel> {
        models(self.files@)
    }

    fn find(&self, id: &String) -> (r: Option<&File>)
        ensures
            match r {
                Some(f) => find_node(self.nodes(), id@) == Some(f@),
                None => find_node(self.nodes(), id@) is None,
            },
    {
        let mut k: usize = 0;
        proof {
            assert(self.nodes().skip(0) =~= self.nodes());
        }
        while k < self.files.len()
            invariant
                k <= self.files@.len(),
                find_node(self.nodes(), id@) == find_node(self.nodes().skip(k as int), id@),
            decreases self.files@.len() - k,
        {
            proof {
                assert(self.nodes().skip(k as int)[0] == self.files@[k as int]@);
                assert(self.nodes().skip(k as int).drop_first() =~= self.nodes().skip(k + 1));
            }
            if self.files[k].id.eq(id) {
                return Some(&self.files[k]);
            }
            k += 1;
        }
        proof {
            assert(self.nodes().skip(self.files@.len() as int).len() == 0);
        }
        None
    }

    /// Concatenate the content of the named nodes, in the order given.
    /// Fails on the first id that is not in the tree, or that names a folder.
    pub fn combine_content(&self, ids: &Vec<String>) -> (r: Result<String, MyError>)
        ensures
            ({
                let want = combine_spec(self.nodes(), ids@.map_values(|s: String| s@));
                match r {
                    Ok(s) => want matches Ok(c) && s@ == c,
                    Err(e) => want matches Err(e2) && e == e2,
                }
            }),
    {
        let ghost gids = ids@.map_values(|s: String| s@);
        let ghost want = combine_spec(self.nodes(), gids);
        let mut out = String::new();
        let mut i: usize = 0;
        proof {
            assert(gids.skip(0) =~= gids);
        }
        while i < ids.len()
            invariant
                i <= gids.len(),
                gids == ids@.map_values(|s: String| s@),
                gids.len() == ids@.len(),
                want == combine_spec(self.nodes(), gids),
                want == match combine_spec(self.nodes(), gids.skip(i as int)) {
                    Ok(rest) => Ok::<Seq<char>, MyError>(out@ + rest),
                    Err(e) => Err(e),
                },
            decreases gids.len() - i,
        {
            proof {
                assert(gids.skip(i as int)[0] == gids[i as int]);
                assert(gids.skip(i as int).drop_first() =~= gids.skip(i + 1));
            }
            match self.find(&ids[i]) {
                None => {
                    return Err(MyError::UnknownNode);
                },
                Some(f) => {
                    match &f.content {
                        None => {
                            return Err(MyError::IsDirectory);
                        },
                        Some(c) => {
                            out.append(c.as_str());
                            proof {
                                match combine_spec(self.nodes(), gids.skip(i + 1)) {
                                    Ok(rest) => {
                                        assert((out@ + rest) =~= want->Ok_0);
                                    },
                                    Err(_) => {},
                                }
                            }
                        },
                    }
                },
            }
            i += 1;
        }
        proof {
            assert(gids.skip(gids.len() as int).len() == 0);
            assert(out@ + Seq::<char>::empty() =~= out@);
        }
        Ok(out)
    }
}

/// The fixed skeleton of a fresh book: the root, a "Book" folder holding one
/// chapter with one section, and a "Research" folder holding two notes.
pub open spec fn skeleton_nodes(name: Seq<char>) -> Seq<NodeModel> {
    seq![
        new_node(name, ("")@, ("0")@, true, false),
        new_node(("Book")@, ("Book")@, id_of(("")@), true, false),
        new_node(("Chap1")@, ("Book/Chap1")@, id_of(("Book")@), true, false),
        new_node(("Sec1")@, ("Book/Chap1/Sec1")@, id_of(("Book/Chap1")@), false, false),
        new_node(("Research")@, ("Research")@, id_of(("")@), true, true),
        new_node(("Chars")@, ("Research/Chars")@, id_of(("Research")@), false, true),
        new_node(("World")@, ("Research/World")@, id_of(("Research")@), false, true),
    ]
}

impl Book {
    /// The nodes of a fresh book whose display name is `name`.
    pub fn skeleton_files(name: &str) -> (r: Vec<File>)
        ensures
            models(r@) == skeleton_nodes(name@),
    {
        let root = File::new(name, "", "0", true, false);
        let book = File::new("Book", "Book", root.id.as_str(), true, false);
        let chap1 = File::new("Chap1", "Book/Chap1", book.id.as_str(), true, false);
        let sec1 = File::new("Sec1", "Book/Chap1/Sec1", chap1.id.as_str(), false, false);
        let research = File::new("Research", "Research", root.id.as_str(), true, true);
        let chars = File::new("Chars", "Research/Chars", research.id.as_str(), false, true);
        let world = File::new("World", "Research/World", research.id.as_str(), false, true);
        let mut v: Vec<File> = Vec::new();
        v.push(root);
        v.push(book);
        v.push(chap1);
        v.push(sec1);
        v.push(research);
        v.push(chars);
        v.push(world);
        proof {
            assert(models(v@) =~= skeleton_nodes(name@));
        }
        v
    }
}

/// The path, relative to the book root, of the sidecar synopsis file for a
/// node id: one file per id under the reserved metadata directory.
pub fn synopsis_rel_path(id: &str) -> (r: String)
    ensures
        r@ == (".collabook/synopsis/")@ + id@,
{
    let mut s = String::from_str(".collabook/synopsis/");
    s.append(id);
    s
}

/// The model of one thing materializing a book creates on disk.
#[verifier::ext_equal]
pub ghost struct PlanModel {
    pub rel_path: Seq<char>,
    pub is_folder: bool,
}

/// One thing to create on disk, relative to the book root.
pub struct PlanEntry {
    pub rel_path: String,
    pub is_folder: bool,
}

impl View for PlanEntry {
    type V = PlanModel;

    open spec fn view(&self) -> PlanModel {
        PlanModel { rel_path: self.rel_path@, is_folder: self.is_folder }
    }
}

impl Book {
    /// Everything materializing this book creates under its root: the
    /// reserved metadata directory first, then for every node its own path
    /// and its empty sidecar synopsis file.
    pub fn mkdirs_plan(&self) -> (r: Vec<PlanEntry>)
        ensures
            r@.len() == 1 + 2 * self.files@.len(),
            r@[0]@ == (PlanModel { rel_path: (".collabook/synopsis")@, is_folder: true }),
            forall|i: int|
                0 <= i < self.files@.len() ==> r@[1 + 2 * i]@ == (PlanModel {
                    rel_path: self.nodes()[i].rel_path,
                    is_folder: self.nodes()[i].is_folder,
                }),
            forall|i: int|
                0 <= i < self.files@.len() ==> r@[2 + 2 * i]@ == (PlanModel {
                    rel_path: (".collabook/synopsis/")@ + self.nodes()[i].id,
                    is_folder: false,
                }),
    {
        let mut out: Vec<PlanEntry> = Vec::new();
        out.push(PlanEntry { rel_path: String::from_str(".collabook/synopsis"), is_folder: true });
        let mut i: usize = 0;
        while i < self.files.len()
            invariant
                i <= self.files@.len(),
                out@.len() == 1 + 2 * i,
                out@[0]@ == (PlanModel { rel_path: (".collabook/synopsis")@, is_folder: true }),
                forall|k: int|
                    0 <= k < i ==> out@[1 + 2 * k]@ == (PlanModel {
                        rel_path: self.nodes()[k].rel_path,
                        is_folder: self.nodes()[k].is_folder,
                    }),
                forall|k: int|
                    0 <= k < i ==> out@[2 + 2 * k]@ == (PlanModel {
                        rel_path: (".collabook/synopsis/")@ + self.nodes()[k].id,
                        is_folder: false,
                    }),
            decreases self.files@.len() - i,
        {
            let f = &self.files[i];
            out.push(PlanEntry { rel_path: f.rel_path.clone(), is_folder: f.is_folder });
            out.push(PlanEntry { rel_path: synopsis_rel_path(f.id.as_str()), is_folder: false });
            i += 1;
        }
        out
    }
}

/// `name` under `parent`: the path itself when the parent is the root.
pub open spec fn join_rel(parent: Seq<char>, name: Seq<char>) -> Seq<char> {
    if parent.len() == 0 {
        name
    } else {
        parent + ("/")@ + name
    }
}

/// The relative path of an entry named `name` under the folder at `parent`.
pub fn join_rel_path(parent: &str, name: &str) -> (r: String)
    ensures
        r@ == join_rel(parent@, name@),
{
    if parent.unicode_len() == 0 {
        name.to_owned()
    } else {
        let mut s = parent.to_owned();
        s.append("/");
        s.append(name);
        s
    }
}

/// Everything the new-file request decides before the disk is touched: the
/// fresh node under the given parent folder. Its identity comes from the
/// slash-normalized joined path, the research flag from the "Research"
/// substring of that path, and content is present exactly for a file.
pub fn plan_new_file(name: &str, parent_rel_path: &str, parent_id: &str, is_folder: bool) -> (r:
    File)
    ensures
        r@ == (NodeModel {
            id: id_of(normal_form(join_rel(parent_rel_path@, name@))),
            name: name@,
            rel_path: join_rel(parent_rel_path@, name@),
            parent: parent_id@,
            is_visible: true,
            is_folder: is_folder,
            is_research: contains_seq(
                normal_form(join_rel(parent_rel_path@, name@)),
                ("Research")@,
            ),
            content: if is_folder {
                None
            } else {
                Some(Seq::<char>::empty())
            },
            synopsis: Seq::<char>::empty(),
        }),
{
    let rel = join_rel_path(parent_rel_path, name);
    let id = node_id(rel.as_str());
    let normal = normalize_path(rel.as_str());
    let is_research = contains_str(normal.as_str(), "Research");
    let content: Option<String> = if is_folder {
        None
    } else {
        Some(String::new())
    };
    let f = File {
        id,
        name: name.to_owned(),
        rel_path: rel,
        parent: parent_id.to_owned(),
        is_visible: true,
        is_folder,
        is_research,
        content,
        synopsis: String::new(),
    };
    proof {
        assert(f@ =~= (NodeModel {
            id: id_of(normal_form(join_rel(parent_rel_path@, name@))),
            name: name@,
            rel_path: join_rel(parent_rel_path@, name@),
            parent: parent_id@,
            is_visible: true,
            is_folder: is_folder,
            is_research: contains_seq(
                normal_form(join_rel(parent_rel_path@, name@)),
                ("Research")@,
            ),
            content: if is_folder {
                None
            } else {
                Some(Seq::<char>::empty())
            },
            synopsis: Seq::<char>::empty(),
        }));
    }
    f
}

/// The walk of a freshly materialized tree: the hidden metadata directory is
/// skipped, so exactly the nodes' own paths are found, every file and every
/// sidecar still empty.
pub open spec fn walk_of(nodes: Seq<NodeModel>) -> Seq<EntryModel> {
    Seq::new(
        nodes.len(),
        |i: int|
            EntryModel {
                rel_path: nodes[i].rel_path,
                is_folder: nodes[i].is_folder,
                data: Seq::empty(),
                synopsis: Seq::empty(),
            },
    )
}

/// What loading derives from a run of walked entries.
pub open spec fn load_of(book_name: Seq<char>, entries: Seq<EntryModel>) -> Seq<NodeModel> {
    Seq::new(
        entries.len(),
        |i: int|
            entry_node(
                book_name,
                entries[i].rel_path,
                entries[i].is_folder,
                entries[i].data,
                entries[i].synopsis,
            ),
    )
}

proof fn lemma_no_big_r_not_research(s: Seq<char>)
    requires
        forall|j: int| 0 <= j < s.len() ==> s[j] != 'R',
    ensures
        !contains_seq(s, ("Research")@),
{
    reveal_strlit("Research");
    if contains_seq(s, ("Research")@) {
        let i = choose|i: int| match_at(s, ("Research")@, i);
        assert(s.subrange(i, i + 8)[0] == s[i]);
    }
}

proof fn lemma_research_prefix(s: Seq<char>)
    requires
        s.len() >= 8,
        s.subrange(0, 8) == ("Research")@,
    ensures
        contains_seq(s, ("Research")@),
{
    reveal_strlit("Research");
    assert(match_at(s, ("Research")@, 0));
}

/// The invariant every node of the tree keeps: its identity is the
/// identity of the slash-normalized form of its relative path, it carries
/// content exactly when it is a file, and the root's parent is the
/// sentinel.
pub open spec fn node_wf(n: NodeModel) -> bool {
    &&& n.id == id_of(normal_form(n.rel_path))
    &&& (n.content is Some <==> !n.is_folder)
    &&& (n.rel_path.len() == 0 ==> n.parent == ("0")@)
}

/// Law (invariant): whatever a directory walk hands over, the node loaded
/// from it is well formed.
pub proof fn lemma_loaded_node_wf(
    book_name: Seq<char>,
    rel_path: Seq<char>,
    is_folder: bool,
    data: Seq<char>,
    synopsis: Seq<char>,
)
    ensures
        node_wf(entry_node(book_name, rel_path, is_folder, data, synopsis)),
{
    lemma_normal_form_idempotent(rel_path);
}

/// Law (invariant): every node of a fresh skeleton is well formed.
#[verifier::rlimit(100)]
#[verifier::spinoff_prover]
pub proof fn lemma_skeleton_nodes_wf(name: Seq<char>)
    ensures
        forall|i: int|
            0 <= i < skeleton_nodes(name).len() ==> node_wf(#[trigger] skeleton_nodes(name)[i]),
{
    let t = skeleton_nodes(name);
    reveal_strlit("");
    reveal_strlit("Book");
    reveal_strlit("Book/Chap1");
    reveal_strlit("Book/Chap1/Sec1");
    reveal_strlit("Research");
    reveal_strlit("Research/Chars");
    reveal_strlit("Research/World");
    lemma_normal_form_identity(("")@);
    lemma_normal_form_identity(("Book")@);
    lemma_normal_form_identity(("Book/Chap1")@);
    lemma_normal_form_identity(("Book/Chap1/Sec1")@);
    lemma_normal_form_identity(("Research")@);
    lemma_normal_form_identity(("Research/Chars")@);
    lemma_normal_form_identity(("Research/World")@);
    assert(node_wf(t[0]));
    assert(node_wf(t[1]));
    assert(node_wf(t[2]));
    assert(node_wf(t[3]));
    assert(node_wf(t[4]));
    assert(node_wf(t[5]));
    assert(node_wf(t[6]));
}

/// Law: the identity of a fresh book's root does not depend on the book's
/// display name — it is the identity of the empty relative path, whatever
/// the book is called.
pub proof fn lemma_root_id_independent_of_name(name_a: Seq<char>, name_b: Seq<char>)
    ensures
        skeleton_nodes(name_a)[0].id == skeleton_nodes(name_b)[0].id,
        skeleton_nodes(name_a)[0].id == id_of(("")@),
{
}

proof fn lemma_load_root(book_name: Seq<char>, display_name: Seq<char>)
    ensures
        entry_node(book_name, ("")@, true, Seq::empty(), Seq::empty()) == (NodeModel {
            name: book_name,
            ..new_node(display_name, ("")@, ("0")@, true, false)
        }),
{
    reveal_strlit("");
    let p = ("")@;
    lemma_normal_form_identity(p);
    lemma_no_big_r_not_research(p);
    assert(entry_node(book_name, p, true, Seq::empty(), Seq::empty()) =~= (NodeModel {
        name: book_name,
        ..new_node(display_name, p, ("0")@, true, false)
    }));
}

proof fn lemma_load_single(
    p: Seq<char>,
    parent: Seq<char>,
    is_research: bool,
    book_name: Seq<char>,
)
    requires
        p.len() > 0,
        forall|j: int| 0 <= j < p.len() ==> p[j] != '\\',
        forall|j: int| 0 <= j < p.len() ==> p[j] != '/',
        is_research == contains_seq(p, ("Research")@),
        parent.len() == 0,
    ensures
        entry_node(book_name, p, true, Seq::empty(), Seq::empty()) == new_node(
            p,
            p,
            id_of(parent),
            true,
            is_research,
        ),
{
    lemma_normal_form_identity(p);
    lemma_no_slash(p);
    assert(parent_path(p) =~= parent);
    assert(entry_node(book_name, p, true, Seq::empty(), Seq::empty()) =~= new_node(
        p,
        p,
        id_of(parent),
        true,
        is_research,
    ));
}

proof fn lemma_load_split(
    p: Seq<char>,
    cut: int,
    name: Seq<char>,
    parent: Seq<char>,
    is_folder: bool,
    is_research: bool,
    book_name: Seq<char>,
)
    requires
        0 <= cut < p.len(),
        p[cut] == '/',
        forall|j: int| cut < j < p.len() ==> p[j] != '/',
        forall|j: int| 0 <= j < p.len() ==> p[j] != '\\',
        name == p.subrange(cut + 1, p.len() as int),
        parent == p.subrange(0, cut),
        is_research == contains_seq(p, ("Research")@),
    ensures
        entry_node(book_name, p, is_folder, Seq::empty(), Seq::empty()) == new_node(
            name,
            p,
            id_of(parent),
            is_folder,
            is_research,
        ),
{
    lemma_normal_form_identity(p);
    lemma_split_at_slash(p, cut);
    assert(entry_node(book_name, p, is_folder, Seq::empty(), Seq::empty()) =~= new_node(
        name,
        p,
        id_of(parent),
        is_folder,
        is_research,
    ));
}

proof fn lemma_load_node_1(book_name: Seq<char>)
    ensures
        entry_node(book_name, ("Book")@, true, Seq::empty(), Seq::empty()) == new_node(
            ("Book")@,
            ("Book")@,
            id_of(("")@),
            true,
            false,
        ),
{
    reveal_strlit("Book");
    reveal_strlit("");
    assert(("")@ =~= Seq::<char>::empty());
    lemma_no_big_r_not_research(("Book")@);
    lemma_load_single(("Book")@, ("")@, false, book_name);
}

proof fn lemma_load_node_2(book_name: Seq<char>)
    ensures
        entry_node(book_name, ("Book/Chap1")@, true, Seq::empty(), Seq::empty()) == new_node(
            ("Chap1")@,
            ("Book/Chap1")@,
            id_of(("Book")@),
            true,
            false,
        ),
{
    reveal_strlit("Book/Chap1");
    reveal_strlit("Chap1");
    reveal_strlit("Book");
    assert((("Book/Chap1")@).subrange(5, 10) =~= ("Chap1")@);
    assert((("Book/Chap1")@).subrange(0, 4) =~= ("Book")@);
    lemma_no_big_r_not_research(("Book/Chap1")@);
    lemma_load_split(("Book/Chap1")@, 4, ("Chap1")@, ("Book")@, true, false, book_name);
}

proof fn lemma_load_node_3(book_name: Seq<char>)
    ensures
        entry_node(book_name, ("Book/Chap1/Sec1")@, false, Seq::empty(), Seq::empty()) == new_node(
            ("Sec1")@,
            ("Book/Chap1/Sec1")@,
            id_of(("Book/Chap1")@),
            false,
            false,
        ),
{
    reveal_strlit("Book/Chap1/Sec1");
    reveal_strlit("Sec1");
    reveal_strlit("Book/Chap1");
    assert((("Book/Chap1/Sec1")@).subrange(11, 15) =~= ("Sec1")@);
    assert((("Book/Chap1/Sec1")@).subrange(0, 10) =~= ("Book/Chap1")@);
    lemma_no_big_r_not_research(("Book/Chap1/Sec1")@);
    lemma_load_split(("Book/Chap1/Sec1")@, 10, ("Sec1")@, ("Book/Chap1")@, false, false, book_name);
}

#[verifier::rlimit(100)]
#[verifier::spinoff_prover]
proof fn lemma_load_node_4(book_name: Seq<char>)
    ensures
        entry_node(book_name, ("Research")@, true, Seq::empty(), Seq::empty()) == new_node(
            ("Research")@,
            ("Research")@,
            id_of(("")@),
            true,
            true,
        ),
{
    let p = ("Research")@;
    assert(("")@ =~= Seq::<char>::empty()) by {
        reveal_strlit("");
    };
    assert(contains_seq(p, ("Research")@)) by {
        reveal_strlit("Research");
        assert(p.subrange(0, 8) =~= ("Research")@);
        lemma_research_prefix(p);
    };
    assert(p.len() > 0 && (forall|j: int| 0 <= j < p.len() ==> p[j] != '\\') && (forall|j: int|
        0 <= j < p.len() ==> p[j] != '/')) by {
        reveal_strlit("Research");
    };
    lemma_load_single(p, ("")@, true, book_name);
}

proof fn lemma_load_node_5(book_name: Seq<char>)
    ensures
        entry_node(book_name, ("Research/Chars")@, false, Seq::empty(), Seq::empty()) == new_node(
            ("Chars")@,
            ("Research/Chars")@,
            id_of(("Research")@),
            false,
            true,
        ),
{
    reveal_strlit("Research/Chars");
    reveal_strlit("Chars");
    reveal_strlit("Research");
    assert((("Research/Chars")@).subrange(9, 14) =~= ("Chars")@);
    assert((("Research/Chars")@).subrange(0, 8) =~= ("Research")@);
    lemma_research_prefix(("Research/Chars")@);
    lemma_load_split(("Research/Chars")@, 8, ("Chars")@, ("Research")@, false, true, book_name);
}

proof fn lemma_load_node_6(book_name: Seq<char>)
    ensures
        entry_node(book_name, ("Research/World")@, false, Seq::empty(), Seq::empty()) == new_node(
            ("World")@,
            ("Research/World")@,
            id_of(("Research")@),
            false,
            true,
        ),
{
    reveal_strlit("Research/World");
    reveal_strlit("World");
    reveal_strlit("Research");
    assert((("Research/World")@).subrange(9, 14) =~= ("World")@);
    assert((("Research/World")@).subrange(0, 8) =~= ("Research")@);
    assert((("Research/World")@).subrange(0, 8) =~= ("Research")@);
    lemma_research_prefix(("Research/World")@);
    lemma_load_split(("Research/World")@, 8, ("World")@, ("Research")@, false, true, book_name);
}

/// Law (round trip): loading what materializing a fresh skeleton lays on
/// disk yields the skeleton back — node for node the same identity, relative
/// path, kind, research flag, parent, content and synopsis. The rebuilt root
/// is named after the directory the book is read from, every other node
/// keeps its name.
#[verifier::rlimit(100)]
#[verifier::spinoff_prover]
pub proof fn lemma_skeleton_round_trip(book_name: Seq<char>, display_name: Seq<char>)
    ensures
        ({
            let t = skeleton_nodes(display_name);
            let l = load_of(book_name, walk_of(t));
            &&& l.len() == t.len()
            &&& forall|i: int| 1 <= i < t.len() ==> l[i] == t[i]
            &&& l[0] == (NodeModel { name: book_name, ..t[0] })
        }),
{
    let t = skeleton_nodes(display_name);
    let l = load_of(book_name, walk_of(t));
    assert(l.len() == t.len());
    lemma_load_root(book_name, display_name);
    assert(l[0] == (NodeModel { name: book_name, ..t[0] }));
    lemma_load_node_1(book_name);
    assert(l[1] == t[1]);
    lemma_load_node_2(book_name);
    assert(l[2] == t[2]);
    lemma_load_node_3(book_name);
    assert(l[3] == t[3]);
    lemma_load_node_4(book_name);
    assert(l[4] == t[4]);
    lemma_load_node_5(book_name);
    assert(l[5] == t[5]);
    lemma_load_node_6(book_name);
    assert(l[6] == t[6]);
}


impl Book {
    /// A fresh book: the fixed skeleton for `name`, with a repository
    /// initialized at `location` and its remotes and branches reported
    /// back. Nothing is written to disk here; `mkdirs_plan` says what to
    /// lay out.
    pub fn new(location: &str, name: &str) -> (r: Result<Book, MyError>)
        ensures
            r matches Ok(b) ==> models(b.files@) == skeleton_nodes(name@) && b.location@
                == location@ && b.name@ == name@,
            r matches Err(e) ==> (e is Vcs || e is InvalidPath),
    {
        let files = Book::skeleton_files(name);
        let repo = match BookRepo::new(location) {
            Ok(r) => r,
            Err(e) => return Err(e),
        };
        let remotes = match repo.get_remotes() {
            Ok(r) => r,
            Err(e) => return Err(e),
        };
        let branches = match repo.get_branches() {
            Ok(b) => b,
            Err(e) => return Err(e),
        };
        Ok(
            Book {
                files,
                location: location.to_owned(),
                name: name.to_owned(),
                remotes,
                branches,
            },
        )
    }

    /// An existing book, rebuilt from the walked entries of its directory —
    /// one node per entry, exactly as `entry_node` says — plus the
    /// repository's remotes and branches. The walk itself, and the check
    /// that the location carries the book metadata marker, happen at the
    /// disk and are not here.
    pub fn open(location: &str, name: &str, entries: &Vec<RawEntry>) -> (r: Result<Book, MyError>)
        ensures
            r matches Ok(b) ==> b.nodes() == load_of(
                name@,
                entries@.map_values(|e: RawEntry| e@),
            ) && b.location@ == location@ && b.name@ == name@,
            r matches Err(e) ==> (e is NotAVcsRepo || e is Vcs || e is InvalidPath),
    {
        let ghost es = entries@.map_values(|e: RawEntry| e@);
        let mut files: Vec<File> = Vec::new();
        let mut i: usize = 0;
        while i < entries.len()
            invariant
                i <= entries@.len(),
                es == entries@.map_values(|e: RawEntry| e@),
                es.len() == entries@.len(),
                files@.len() == i,
                models(files@) == load_of(name@, es).take(i as int),
            decreases entries@.len() - i,
        {
            let f = File::from_entry(name, &entries[i]);
            files.push(f);
            proof {
                assert(es[i as int] == entries@[i as int]@);
                assert(load_of(name@, es)[i as int] == entry_node(
                    name@,
                    es[i as int].rel_path,
                    es[i as int].is_folder,
                    es[i as int].data,
                    es[i as int].synopsis,
                ));
                assert(files@.len() == i + 1);
                assert(files@[i as int]@ == load_of(name@, es)[i as int]);
                assert forall|k: int| 0 <= k < i + 1 implies models(files@)[k] == load_of(
                    name@,
                    es,
                ).take(i + 1)[k] by {
                    assert(models(files@)[k] == files@[k]@);
                    if k < i {
                        assert(files@[k] == files@.drop_last()[k]);
                        assert(models(files@.drop_last())[k] == files@.drop_last()[k]@);
                    }
                }
                assert(models(files@) =~= load_of(name@, es).take(i + 1));
            }
            i += 1;
        }
        proof {
            assert(load_of(name@, es).take(es.len() as int) =~= load_of(name@, es));
        }
        let repo = match BookRepo::from_location(location) {
            Ok(r) => r,
            Err(e) => return Err(e),
        };
        let remotes = match repo.get_remotes() {
            Ok(r) => r,
            Err(e) => return Err(e),
        };
        let branches = match repo.get_branches() {
            Ok(b) => b,
            Err(e) => return Err(e),
        };
        Ok(
            Book {
                files,
                location: location.to_owned(),
                name: name.to_owned(),
                remotes,
                branches,
            },
        )
    }
}

} // verus!
