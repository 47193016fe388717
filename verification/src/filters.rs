//! The filter picker: the available filters as a tree of folders, and the rows it shows.
use vstd::prelude::*;
use crate::chain::{builtin_display_name, strip_prefix, StageKind};
use crate::chain::builtin_name;
use crate::text::{chars_of, same_text, split};
use crate::text::{lower_text, split_on, split_on_has_a_piece, texts};

verus! {

/// A filter in the picker.
#[derive(Debug)]
pub struct FilterFile {
    pub kind: StageKind,
    pub path: String,
    pub display: String,
}

/// A folder of the picker with its name.
#[derive(Debug)]
pub struct FilterDir {
    pub name: String,
    pub node: FilterNode,
}

/// The contents of a folder: filters in the order in which they were found, and folders in
/// the order of their names.
#[derive(Debug)]
pub struct FilterNode {
    pub files: Vec<FilterFile>,
    pub dirs: Vec<FilterDir>,
}

/// A filter as a mathematical value.
pub struct File {
    pub kind: StageKind,
    pub path: Seq<char>,
    pub display: Seq<char>,
}

/// A folder as a mathematical value.
pub struct Folder {
    pub files: Seq<File>,
    pub dirs: Map<Seq<char>, Folder>,
}

impl View for FilterFile {
    type V = File;

    open spec fn view(&self) -> File {
        File { kind: self.kind, path: self.path@, display: self.display@ }
    }
}

pub open spec fn files_view(files: Seq<FilterFile>) -> Seq<File> {
    files.map_values(|f: FilterFile| f@)
}

pub open spec fn folder_view(node: FilterNode) -> Folder
    decreases node,
{
    Folder { files: files_view(node.files@), dirs: dirs_view(node.dirs@) }
}

pub open spec fn dirs_view(dirs: Seq<FilterDir>) -> Map<Seq<char>, Folder>
    decreases dirs,
{
    if dirs.len() == 0 {
        Map::empty()
    } else {
        dirs_view(dirs.subrange(0, dirs.len() - 1)).insert(
            dirs[dirs.len() - 1].name@,
            folder_view(dirs[dirs.len() - 1].node),
        )
    }
}

pub open spec fn empty_folder() -> Folder {
    Folder { files: Seq::empty(), dirs: Map::empty() }
}

// ---------------------------------------------------------------------------------------
// Order of names

/// Lexicographic order by character code.
pub open spec fn text_less(a: Seq<char>, b: Seq<char>) -> bool
    decreases a.len(),
{
    if b.len() == 0 {
        false
    } else if a.len() == 0 {
        true
    } else if a[0] != b[0] {
        a[0] < b[0]
    } else {
        text_less(a.skip(1), b.skip(1))
    }
}

proof fn lemma_less_is_total(a: Seq<char>, b: Seq<char>)
    ensures
        text_less(a, b) || a == b || text_less(b, a),
    decreases a.len(),
{
    if a.len() > 0 && b.len() > 0 && a[0] == b[0] {
        lemma_less_is_total(a.skip(1), b.skip(1));
        if a.skip(1) == b.skip(1) {
            assert(a =~= seq![a[0]] + a.skip(1));
            assert(b =~= seq![b[0]] + b.skip(1));
        }
    } else if a.len() == 0 && b.len() == 0 {
        assert(a =~= b);
    }
}

proof fn lemma_less_is_transitive(a: Seq<char>, b: Seq<char>, c: Seq<char>)
    requires
        text_less(a, b),
        text_less(b, c),
    ensures
        text_less(a, c),
    decreases a.len(),
{
    if a.len() > 0 && a[0] == b[0] && b[0] == c[0] {
        lemma_less_is_transitive(a.skip(1), b.skip(1), c.skip(1));
    }
}

proof fn lemma_less_is_irreflexive(a: Seq<char>)
    ensures
        !text_less(a, a),
    decreases a.len(),
{
    if a.len() > 0 {
        lemma_less_is_irreflexive(a.skip(1));
    }
}

/// Whether one name comes before another.
pub fn name_before(a: &str, b: &str) -> (r: bool)
    ensures
        r == text_less(a@, b@),
{
    let x = chars_of(a);
    let y = chars_of(b);
    let mut i: usize = 0;
    assert(a@.skip(0) =~= a@);
    assert(b@.skip(0) =~= b@);
    while i < x.len() && i < y.len() && x[i] == y[i]
        invariant
            x@ == a@,
            y@ == b@,
            i <= x@.len(),
            i <= y@.len(),
            text_less(a@, b@) == text_less(a@.skip(i as int), b@.skip(i as int)),
        decreases x@.len() - i,
    {
        assert(a@.skip(i as int).skip(1) =~= a@.skip(i + 1));
        assert(b@.skip(i as int).skip(1) =~= b@.skip(i + 1));
        i += 1;
    }
    if i >= y.len() {
        false
    } else if i >= x.len() {
        true
    } else {
        x[i] < y[i]
    }
}

/// Folders stand in the order of their names, each name once, at every level.
pub open spec fn in_order(node: FilterNode) -> bool
    decreases node,
{
    dirs_in_order(node.dirs@)
}

pub open spec fn dirs_in_order(dirs: Seq<FilterDir>) -> bool
    decreases dirs,
{
    if dirs.len() == 0 {
        true
    } else {
        &&& dirs_in_order(dirs.subrange(0, dirs.len() - 1))
        &&& in_order(dirs[dirs.len() - 1].node)
        &&& dirs.len() > 1 ==> text_less(dirs[dirs.len() - 2].name@, dirs[dirs.len() - 1].name@)
    }
}

/// The same, said of any two folders.
pub open spec fn sorted(dirs: Seq<FilterDir>) -> bool {
    &&& forall|i: int, j: int|
        0 <= i < j < dirs.len() ==> text_less(#[trigger] dirs[i].name@, #[trigger] dirs[j].name@)
    &&& forall|i: int| 0 <= i < dirs.len() ==> in_order(#[trigger] dirs[i].node)
}

proof fn lemma_order_is_sorted(dirs: Seq<FilterDir>)
    ensures
        dirs_in_order(dirs) == sorted(dirs),
    decreases dirs.len(),
{
    if dirs.len() > 0 {
        let n = dirs.len() - 1;
        let front = dirs.subrange(0, n);
        lemma_order_is_sorted(front);
        assert forall|i: int| 0 <= i < n implies front[i] == dirs[i] by {}
        if dirs_in_order(dirs) {
            assert forall|i: int, j: int| 0 <= i < j < dirs.len() implies text_less(
                #[trigger] dirs[i].name@,
                #[trigger] dirs[j].name@,
            ) by {
                if j < n {
                    assert(text_less(front[i].name@, front[j].name@));
                } else if i < n - 1 {
                    assert(text_less(front[i].name@, front[n - 1].name@));
                    lemma_less_is_transitive(dirs[i].name@, dirs[n - 1].name@, dirs[n].name@);
                }
            }
            assert forall|i: int| 0 <= i < dirs.len() implies in_order(#[trigger] dirs[i].node) by {
                if i < n {
                    assert(in_order(front[i].node));
                }
            }
        }
        if sorted(dirs) {
            assert(sorted(front)) by {
                assert forall|i: int, j: int| 0 <= i < j < front.len() implies text_less(
                    #[trigger] front[i].name@,
                    #[trigger] front[j].name@,
                ) by {
                    assert(text_less(dirs[i].name@, dirs[j].name@));
                }
                assert forall|i: int| 0 <= i < front.len() implies in_order(#[trigger] front[i].node) by {
                    assert(in_order(dirs[i].node));
                }
            }
            assert(in_order(dirs[n].node));
        }
    }
}

/// What the map of folders holds, said of the list.
proof fn lemma_dirs_view(dirs: Seq<FilterDir>)
    requires
        sorted(dirs),
    ensures
        forall|i: int|
            0 <= i < dirs.len() ==> dirs_view(dirs).contains_key(#[trigger] dirs[i].name@) && dirs_view(
                dirs,
            )[dirs[i].name@] == folder_view(dirs[i].node),
        forall|k: Seq<char>|
            #[trigger] dirs_view(dirs).contains_key(k) ==> exists|i: int|
                0 <= i < dirs.len() && #[trigger] dirs[i].name@ == k,
    decreases dirs.len(),
{
    if dirs.len() > 0 {
        let n = dirs.len() - 1;
        let front = dirs.subrange(0, n);
        lemma_order_is_sorted(dirs);
        lemma_order_is_sorted(front);
        lemma_dirs_view(front);
        assert forall|i: int| 0 <= i < dirs.len() implies dirs_view(dirs).contains_key(#[trigger] dirs[i].name@)
            && dirs_view(dirs)[dirs[i].name@] == folder_view(dirs[i].node) by {
            if i < n {
                assert(front[i] == dirs[i]);
                assert(text_less(dirs[i].name@, dirs[n].name@));
                lemma_less_is_irreflexive(dirs[i].name@);
            }
        }
        assert forall|k: Seq<char>| #[trigger] dirs_view(dirs).contains_key(k) implies exists|i: int|
            0 <= i < dirs.len() && #[trigger] dirs[i].name@ == k by {
            if k == dirs[n].name@ {
            } else {
                assert(dirs_view(front).contains_key(k));
                let i = choose|i: int| 0 <= i < front.len() && #[trigger] front[i].name@ == k;
                assert(dirs[i].name@ == k);
            }
        }
    }
}

proof fn lemma_same_dirs_view(a: Seq<FilterDir>, m: Map<Seq<char>, Folder>)
    requires
        sorted(a),
        forall|i: int| 0 <= i < a.len() ==> m.contains_key(#[trigger] a[i].name@) && m[a[i].name@] == folder_view(a[i].node),
        forall|k: Seq<char>| #[trigger] m.contains_key(k) ==> exists|i: int| 0 <= i < a.len() && #[trigger] a[i].name@ == k,
    ensures
        dirs_view(a) == m,
{
    lemma_dirs_view(a);
    assert forall|k: Seq<char>| dirs_view(a).contains_key(k) <==> m.contains_key(k) by {
        if dirs_view(a).contains_key(k) {
            let i = choose|i: int| 0 <= i < a.len() && #[trigger] a[i].name@ == k;
            assert(m.contains_key(a[i].name@));
        }
        if m.contains_key(k) {
            let i = choose|i: int| 0 <= i < a.len() && #[trigger] a[i].name@ == k;
            assert(dirs_view(a).contains_key(a[i].name@));
        }
    }
    assert forall|k: Seq<char>| dirs_view(a).contains_key(k) implies dirs_view(a)[k] == m[k] by {
        let i = choose|i: int| 0 <= i < a.len() && #[trigger] a[i].name@ == k;
        assert(m[a[i].name@] == folder_view(a[i].node));
    }
    assert(dirs_view(a) =~= m);
}

// ---------------------------------------------------------------------------------------
// Building the tree

/// The folder with a filter put in below the given folders.
pub open spec fn with_file(folder: Folder, dirs: Seq<Seq<char>>, file: File) -> Folder
    decreases dirs.len(),
{
    if dirs.len() == 0 {
        Folder { files: folder.files.push(file), ..folder }
    } else {
        let child = if folder.dirs.contains_key(dirs[0]) {
            folder.dirs[dirs[0]]
        } else {
            empty_folder()
        };
        Folder { dirs: folder.dirs.insert(dirs[0], with_file(child, dirs.skip(1), file)), ..folder }
    }
}

/// The pieces of a path without the folder that holds all shaders or all models.
pub open spec fn shown_pieces(path: Seq<char>) -> Seq<Seq<char>> {
    let pieces = split_on(path, '/');
    if pieces.len() > 1 && (pieces[0] == "shaders"@ || pieces[0] == "models"@) {
        pieces.skip(1)
    } else {
        pieces
    }
}

/// The folder with an available filter put in. A built-in filter stands at the root.
pub open spec fn with_filter(folder: Folder, kind: StageKind, path: Seq<char>) -> Folder {
    if "builtin:"@.is_prefix_of(path) {
        let display = builtin_name(path.skip("builtin:"@.len() as int));
        with_file(folder, Seq::empty(), File { kind, path, display })
    } else {
        let pieces = shown_pieces(path);
        with_file(folder, pieces.drop_last(), File { kind, path, display: pieces.last() })
    }
}

/// The tree of a list of available filters.
pub open spec fn filter_tree(available: Seq<(StageKind, String)>) -> Folder
    decreases available.len(),
{
    if available.len() == 0 {
        empty_folder()
    } else {
        with_filter(filter_tree(available.drop_last()), available.last().0, available.last().1@)
    }
}

fn empty_node() -> (node: FilterNode)
    ensures
        folder_view(node) == empty_folder(),
        in_order(node),
{
    let node = FilterNode { files: Vec::new(), dirs: Vec::new() };
    assert(files_view(node.files@) =~= Seq::<File>::empty());
    node
}

fn insert_file(node: &mut FilterNode, dirs: &[String], from: usize, file: FilterFile)
    requires
        from <= dirs@.len(),
        in_order(*old(node)),
    ensures
        in_order(*final(node)),
        folder_view(*final(node)) == with_file(folder_view(*old(node)), texts(dirs@).skip(from as int), file@),
    decreases dirs@.len() - from,
{
    let ghost before = *node;
    let ghost way = texts(dirs@).skip(from as int);
    proof {
        lemma_order_is_sorted(before.dirs@);
    }
    if from == dirs.len() {
        node.files.push(file);
        assert(files_view(node.files@) =~= files_view(before.files@).push(file@));
        return;
    }
    assert(way[0] == dirs@[from as int]@);
    assert(way.skip(1) =~= texts(dirs@).skip(from + 1));
    let name = dirs[from].as_str();
    let mut at: usize = 0;
    while at < node.dirs.len() && name_before(node.dirs[at].name.as_str(), name)
        invariant
            *node == before,
            at <= before.dirs@.len(),
            name@ == dirs@[from as int]@,
            forall|i: int| 0 <= i < at ==> text_less(#[trigger] before.dirs@[i].name@, name@),
        decreases before.dirs@.len() - at,
    {
        at += 1;
    }
    proof {
        lemma_dirs_view(before.dirs@);
    }
    let ghost target = with_file(folder_view(before), way, file@).dirs;
    if at < node.dirs.len() && same_text(node.dirs[at].name.as_str(), name) {
        let mut dir = node.dirs.remove(at);
        let ghost child = dir.node;
        assert(child == before.dirs@[at as int].node);
        assert(in_order(child));
        insert_file(&mut dir.node, dirs, from + 1, file);
        assert(dir.name@ == name@);
        let ghost grown = dir;
        node.dirs.insert(at, dir);
        proof {
            let now = node.dirs@;
            assert(now =~= before.dirs@.update(at as int, grown));
            assert forall|i: int, j: int| 0 <= i < j < now.len() implies text_less(
                #[trigger] now[i].name@,
                #[trigger] now[j].name@,
            ) by {
                assert(text_less(before.dirs@[i].name@, before.dirs@[j].name@));
            }
            assert forall|i: int| 0 <= i < now.len() implies in_order(#[trigger] now[i].node) by {
                if i != at {
                    assert(in_order(before.dirs@[i].node));
                }
            }
            assert(sorted(now));
            lemma_order_is_sorted(now);
            assert(dirs_view(before.dirs@).contains_key(before.dirs@[at as int].name@));
            assert forall|i: int| 0 <= i < now.len() implies target.contains_key(#[trigger] now[i].name@)
                && target[now[i].name@] == folder_view(now[i].node) by {
                assert(dirs_view(before.dirs@).contains_key(before.dirs@[i].name@));
                if i < at {
                    assert(text_less(before.dirs@[i].name@, before.dirs@[at as int].name@));
                } else if i > at {
                    assert(text_less(before.dirs@[at as int].name@, before.dirs@[i].name@));
                }
                lemma_less_is_irreflexive(name@);
            }
            assert forall|k: Seq<char>| #[trigger] target.contains_key(k) implies exists|i: int|
                0 <= i < now.len() && #[trigger] now[i].name@ == k by {
                if k == name@ {
                    assert(now[at as int].name@ == k);
                } else {
                    assert(dirs_view(before.dirs@).contains_key(k));
                    let i = choose|i: int| 0 <= i < before.dirs@.len() && #[trigger] before.dirs@[i].name@ == k;
                    assert(now[i].name@ == k);
                }
            }
            lemma_same_dirs_view(now, target);
        }
    } else {
        let mut child = empty_node();
        insert_file(&mut child, dirs, from + 1, file);
        let dir = FilterDir { name: dirs[from].clone(), node: child };
        let ghost grown = dir;
        node.dirs.insert(at, dir);
        proof {
            let old_dirs = before.dirs@;
            let now = node.dirs@;
            assert(now =~= old_dirs.insert(at as int, grown));
            if at < old_dirs.len() {
                lemma_less_is_total(old_dirs[at as int].name@, name@);
                assert(text_less(name@, old_dirs[at as int].name@));
            }
            assert forall|i: int| at <= i < old_dirs.len() implies text_less(name@, #[trigger] old_dirs[i].name@) by {
                if i > at {
                    assert(text_less(old_dirs[at as int].name@, old_dirs[i].name@));
                    lemma_less_is_transitive(name@, old_dirs[at as int].name@, old_dirs[i].name@);
                }
            }
            assert forall|i: int| 0 <= i < old_dirs.len() implies #[trigger] old_dirs[i].name@ != name@ by {
                lemma_less_is_irreflexive(name@);
            }
            assert forall|i: int, j: int| 0 <= i < j < now.len() implies text_less(
                #[trigger] now[i].name@,
                #[trigger] now[j].name@,
            ) by {
                let p = if i < at {
                    i
                } else {
                    i - 1
                };
                let q = if j < at {
                    j
                } else {
                    j - 1
                };
                if i != at && j != at {
                    assert(text_less(old_dirs[p].name@, old_dirs[q].name@));
                } else if i == at {
                    assert(now[j] == old_dirs[q]);
                } else {
                    assert(now[i] == old_dirs[p]);
                }
            }
            assert forall|i: int| 0 <= i < now.len() implies in_order(#[trigger] now[i].node) by {
                if i < at {
                    assert(in_order(old_dirs[i].node));
                } else if i > at {
                    assert(in_order(old_dirs[i - 1].node));
                }
            }
            assert(sorted(now));
            lemma_order_is_sorted(now);
            assert(!dirs_view(old_dirs).contains_key(name@)) by {
                if dirs_view(old_dirs).contains_key(name@) {
                    let i = choose|i: int| 0 <= i < old_dirs.len() && #[trigger] old_dirs[i].name@ == name@;
                    assert(old_dirs[i].name@ != name@);
                }
            }
            assert forall|i: int| 0 <= i < now.len() implies target.contains_key(#[trigger] now[i].name@)
                && target[now[i].name@] == folder_view(now[i].node) by {
                if i < at {
                    assert(now[i] == old_dirs[i]);
                    assert(dirs_view(old_dirs).contains_key(old_dirs[i].name@));
                } else if i > at {
                    assert(now[i] == old_dirs[i - 1]);
                    assert(dirs_view(old_dirs).contains_key(old_dirs[i - 1].name@));
                }
            }
            assert forall|k: Seq<char>| #[trigger] target.contains_key(k) implies exists|i: int|
                0 <= i < now.len() && #[trigger] now[i].name@ == k by {
                if k == name@ {
                    assert(now[at as int].name@ == k);
                } else {
                    assert(dirs_view(old_dirs).contains_key(k));
                    let i = choose|i: int| 0 <= i < old_dirs.len() && #[trigger] old_dirs[i].name@ == k;
                    if i < at {
                        assert(now[i].name@ == k);
                    } else {
                        assert(now[i + 1].name@ == k);
                    }
                }
            }
            lemma_same_dirs_view(now, target);
        }
    }
}

/// The tree of the available filters, without the folders that hold all shaders or all models.
pub fn build_filter_tree(available: &[(StageKind, String)]) -> (root: FilterNode)
    ensures
        folder_view(root) == filter_tree(available@),
        in_order(root),
{
    let mut root = empty_node();
    let mut i: usize = 0;
    assert(available@.take(0) =~= Seq::empty());
    while i < available.len()
        invariant
            i <= available@.len(),
            in_order(root),
            folder_view(root) == filter_tree(available@.take(i as int)),
        decreases available@.len() - i,
    {
        assert(available@.take(i + 1).drop_last() =~= available@.take(i as int));
        let kind = available[i].0;
        let path = available[i].1.as_str();
        if let Some(name) = strip_prefix(path, "builtin:") {
            let display = builtin_display_name(name.as_str());
            let none: Vec<String> = Vec::new();
            insert_file(&mut root, none.as_slice(), 0, FilterFile { kind, path: path.to_owned(), display });
            assert(texts(none@).skip(0) =~= Seq::<Seq<char>>::empty());
        } else {
            let mut pieces = split(path, '/');
            proof {
                split_on_has_a_piece(path@, '/');
            }
            let ghost all = texts(pieces@);
            let from: usize = if pieces.len() > 1 && (same_text(pieces[0].as_str(), "shaders") || same_text(
                pieces[0].as_str(),
                "models",
            )) {
                1
            } else {
                0
            };
            let n: usize = pieces.len();
            let file = pieces.remove(n - 1);
            assert(file@ == all.last());
            assert(texts(pieces@) =~= all.drop_last());
            insert_file(
                &mut root,
                pieces.as_slice(),
                from,
                FilterFile { kind, path: path.to_owned(), display: file },
            );
            proof {
                assert(all[0] == split_on(path@, '/')[0]);
                assert(texts(pieces@).skip(from as int) =~= shown_pieces(path@).drop_last());
                assert(shown_pieces(path@).last() == all.last());
            }
        }
        i += 1;
    }
    assert(available@.take(i as int) =~= available@);
    root
}

impl FilterNode {
    /// The folder with this name.
    pub fn dir(&self, name: &str) -> (r: Option<&FilterNode>)
        requires
            in_order(*self),
        ensures
            match r {
                Some(node) => folder_view(*self).dirs.contains_key(name@) && folder_view(*node) == folder_view(
                    *self,
                ).dirs[name@] && in_order(*node),
                None => !folder_view(*self).dirs.contains_key(name@),
            },
    {
        proof {
            lemma_order_is_sorted(self.dirs@);
            lemma_dirs_view(self.dirs@);
        }
        let mut i: usize = 0;
        while i < self.dirs.len()
            invariant
                i <= self.dirs@.len(),
                sorted(self.dirs@),
                forall|j: int| 0 <= j < i ==> #[trigger] self.dirs@[j].name@ != name@,
                forall|i: int|
                    0 <= i < self.dirs@.len() ==> dirs_view(self.dirs@).contains_key(
                        #[trigger] self.dirs@[i].name@,
                    ) && dirs_view(self.dirs@)[self.dirs@[i].name@] == folder_view(self.dirs@[i].node),
            decreases self.dirs@.len() - i,
        {
            if same_text(self.dirs[i].name.as_str(), name) {
                return Some(&self.dirs[i].node);
            }
            i += 1;
        }
        None
    }
}

// ---------------------------------------------------------------------------------------
// Rows of the picker

/// One row of the picker.
#[derive(Debug)]
pub enum PickerRow {
    /// A filter that can be chosen.
    Item { kind: StageKind, path: String, label: String },
    Separator,
    /// A folder that can be opened; its contents follow.
    Header { id: String, name: String },
    /// A folder without anything.
    Nothing,
}

/// A row as a mathematical value.
pub enum Row {
    Item { kind: StageKind, path: Seq<char>, label: Seq<char> },
    Separator,
    Header { id: Seq<char>, name: Seq<char> },
    Nothing,
}

impl View for PickerRow {
    type V = Row;

    open spec fn view(&self) -> Row {
        match *self {
            PickerRow::Item { kind, path, label } => Row::Item { kind, path: path@, label: label@ },
            PickerRow::Separator => Row::Separator,
            PickerRow::Header { id, name } => Row::Header { id: id@, name: name@ },
            PickerRow::Nothing => Row::Nothing,
        }
    }
}

pub open spec fn rows_view(rows: Seq<PickerRow>) -> Seq<Row> {
    rows.map_values(|r: PickerRow| r@)
}

pub open spec fn badge_of(kind: StageKind, builtin: Seq<char>) -> Seq<char> {
    match kind {
        StageKind::Glsl => "GLSL"@,
        StageKind::Onnx => "ONNX"@,
        StageKind::Flow => builtin,
    }
}

pub open spec fn item_row(file: File, builtin: Seq<char>) -> Row {
    Row::Item {
        kind: file.kind,
        path: file.path,
        label: "["@ + badge_of(file.kind, builtin) + "] "@ + file.display,
    }
}

/// The rows of a folder: its filters first, then a separator if folders follow, then each
/// folder with its contents.
pub open spec fn folder_rows(node: FilterNode, id: Seq<char>, builtin: Seq<char>) -> Seq<Row>
    decreases node,
{
    files_view(node.files@).map_values(|f: File| item_row(f, builtin)) + (if node.dirs@.len() > 0
        && node.files@.len() > 0 {
        seq![Row::Separator]
    } else {
        Seq::empty()
    }) + dirs_rows(node.dirs@, id, builtin) + (if node.dirs@.len() == 0 && node.files@.len() == 0 {
        seq![Row::Nothing]
    } else {
        Seq::empty()
    })
}

pub open spec fn dirs_rows(dirs: Seq<FilterDir>, id: Seq<char>, builtin: Seq<char>) -> Seq<Row>
    decreases dirs,
{
    if dirs.len() == 0 {
        Seq::empty()
    } else {
        let last = dirs[dirs.len() - 1];
        let child = id + "/"@ + last.name@;
        dirs_rows(dirs.subrange(0, dirs.len() - 1), id, builtin) + seq![
            Row::Header { id: child, name: last.name@ },
        ] + folder_rows(last.node, child, builtin)
    }
}

fn push_rows(node: &FilterNode, id: &str, builtin: &str, rows: &mut Vec<PickerRow>)
    ensures
        rows_view(final(rows)@) == rows_view(old(rows)@) + folder_rows(*node, id@, builtin@),
    decreases *node,
{
    let ghost start = rows_view(rows@);
    let ghost items = files_view(node.files@).map_values(|f: File| item_row(f, builtin@));
    let mut i: usize = 0;
    assert(start + items.take(0) =~= start);
    while i < node.files.len()
        invariant
            i <= node.files@.len(),
            items == files_view(node.files@).map_values(|f: File| item_row(f, builtin@)),
            rows_view(rows@) == start + items.take(i as int),
        decreases node.files@.len() - i,
    {
        let file = &node.files[i];
        let mut label = String::from_str("[");
        match file.kind {
            StageKind::Glsl => label.append("GLSL"),
            StageKind::Onnx => label.append("ONNX"),
            StageKind::Flow => label.append(builtin),
        }
        label.append("] ");
        label.append(file.display.as_str());
        let ghost before = rows_view(rows@);
        let row = PickerRow::Item { kind: file.kind, path: file.path.clone(), label };
        let ghost shown = row@;
        assert(shown == items[i as int]);
        rows.push(row);
        assert(rows_view(rows@) =~= before.push(shown));
        assert(start + items.take(i + 1) =~= (start + items.take(i as int)).push(items[i as int]));
        i += 1;
    }
    assert(items.take(i as int) =~= items);
    let ghost separator = if node.dirs@.len() > 0 && node.files@.len() > 0 {
        seq![Row::Separator]
    } else {
        Seq::<Row>::empty()
    };
    let ghost before = rows_view(rows@);
    if node.dirs.len() > 0 && node.files.len() > 0 {
        rows.push(PickerRow::Separator);
    }
    assert(rows_view(rows@) =~= before + separator);
    let ghost base = rows_view(rows@);
    let mut d: usize = 0;
    assert(node.dirs@.subrange(0, 0) =~= Seq::<FilterDir>::empty());
    assert(base + dirs_rows(node.dirs@.subrange(0, 0), id@, builtin@) =~= base);
    while d < node.dirs.len()
        invariant
            d <= node.dirs@.len(),
            rows_view(rows@) == base + dirs_rows(node.dirs@.subrange(0, d as int), id@, builtin@),
        decreases node.dirs@.len() - d,
    {
        let ghost some = node.dirs@.subrange(0, d + 1);
        assert(some.subrange(0, d as int) =~= node.dirs@.subrange(0, d as int));
        let dir = &node.dirs[d];
        let mut child = id.to_owned();
        child.append("/");
        child.append(dir.name.as_str());
        let ghost so_far = rows_view(rows@);
        let header = PickerRow::Header { id: child.clone(), name: dir.name.clone() };
        let ghost shown = header@;
        rows.push(header);
        assert(rows_view(rows@) =~= so_far.push(shown));
        assert(decreases_to!(*node => node.dirs@[d as int].node));
        push_rows(&dir.node, child.as_str(), builtin, rows);
        assert(rows_view(rows@) =~= base + dirs_rows(some, id@, builtin@));
        d += 1;
    }
    assert(node.dirs@.subrange(0, d as int) =~= node.dirs@);
    let ghost last = rows_view(rows@);
    if node.dirs.len() == 0 && node.files.len() == 0 {
        rows.push(PickerRow::Nothing);
    }
    assert(rows_view(rows@) =~= last + (if node.dirs@.len() == 0 && node.files@.len() == 0 {
        seq![Row::Nothing]
    } else {
        Seq::<Row>::empty()
    }));
    assert(rows_view(rows@) =~= start + folder_rows(*node, id@, builtin@));
}

/// The rows of the picker, with all folders open. `builtin` is the badge of built-in filters
/// in the language of the window.
pub fn picker_rows(root: &FilterNode, id: &str, builtin: &str) -> (rows: Vec<PickerRow>)
    ensures
        rows_view(rows@) == folder_rows(*root, id@, builtin@),
{
    let mut rows: Vec<PickerRow> = Vec::new();
    push_rows(root, id, builtin, &mut rows);
    assert(rows_view(rows@) =~= folder_rows(*root, id@, builtin@));
    rows
}

/// The filters of the root, built-in ones among them, stand above all folders.
pub proof fn root_filters_come_first(root: FilterNode, id: Seq<char>, builtin: Seq<char>)
    ensures
        forall|i: int|
            0 <= i < root.files@.len() ==> #[trigger] folder_rows(root, id, builtin)[i] == item_row(
                root.files@[i]@,
                builtin,
            ),
{
}

// ---------------------------------------------------------------------------------------
// What the picker is for

/// A filter stands in the folders that its path names, under its file's name, without the folder
/// that all filters of its kind share; everything that was in the tree before is still there.
pub proof fn a_file_stands_in_its_folders(folder: Folder, dirs: Seq<Seq<char>>, file: File)
    ensures
        dirs.len() == 0 ==> with_file(folder, dirs, file).files == folder.files.push(file) && with_file(
            folder,
            dirs,
            file,
        ).dirs == folder.dirs,
        dirs.len() > 0 ==> {
            let after = with_file(folder, dirs, file);
            &&& after.files == folder.files
            &&& after.dirs.contains_key(dirs[0])
            &&& folder.dirs.contains_key(dirs[0]) ==> after.dirs[dirs[0]] == with_file(
                folder.dirs[dirs[0]],
                dirs.skip(1),
                file,
            )
            &&& !folder.dirs.contains_key(dirs[0]) ==> after.dirs[dirs[0]] == with_file(
                Folder { files: Seq::empty(), dirs: Map::empty() },
                dirs.skip(1),
                file,
            )
            &&& after.dirs.remove(dirs[0]) == folder.dirs.remove(dirs[0])
        },
{
    if dirs.len() > 0 {
        let after = with_file(folder, dirs, file);
        assert(after.dirs.remove(dirs[0]) =~= folder.dirs.remove(dirs[0]));
    }
}

/// The path of a filter says where it is shown: a built-in one at the root under its name, any
/// other by the pieces of its path, the last of which is its file.
pub proof fn a_path_says_where_a_filter_is_shown(folder: Folder, kind: StageKind, path: Seq<char>, name: Seq<char>)
    ensures
        with_filter(folder, kind, "builtin:"@ + name) == with_file(
            folder,
            Seq::empty(),
            File {
                kind,
                path: "builtin:"@ + name,
                display: if "neoflow"@.is_prefix_of(lower_text(name)) {
                    "NeoFlow"@
                } else {
                    name
                },
            },
        ),
        !"builtin:"@.is_prefix_of(path) ==> {
            let pieces = split_on(path, '/');
            let shown = if pieces.len() > 1 && (pieces[0] == "shaders"@ || pieces[0] == "models"@) {
                pieces.skip(1)
            } else {
                pieces
            };
            with_filter(folder, kind, path) == with_file(
                folder,
                shown.drop_last(),
                File { kind, path, display: shown.last() },
            )
        },
{
    let whole = "builtin:"@ + name;
    assert("builtin:"@ =~= whole.subrange(0, "builtin:"@.len() as int));
    assert(whole.skip("builtin:"@.len() as int) =~= name);
}

/// The tree holds the filters that there are, one after the other, and nothing before the first.
pub proof fn the_tree_holds_every_filter(available: Seq<(StageKind, String)>, next: (StageKind, String))
    ensures
        filter_tree(available.push(next)) == with_filter(filter_tree(available), next.0, next.1@),
        filter_tree(Seq::empty()).files.len() == 0,
        filter_tree(Seq::empty()).dirs == Map::<Seq<char>, Folder>::empty(),
{
    assert(available.push(next).drop_last() =~= available);
}

/// A row of the picker adds the filter that it shows: its kind and its path, under a label with its
/// badge and its name.
pub proof fn a_row_adds_the_filter_that_it_shows(file: File, builtin: Seq<char>)
    ensures
        item_row(file, builtin) matches Row::Item { kind, path, label } && kind == file.kind && path == file.path && (
        file.kind == StageKind::Glsl ==> label == "["@ + "GLSL"@ + "] "@ + file.display) && (file.kind
            == StageKind::Onnx ==> label == "["@ + "ONNX"@ + "] "@ + file.display) && (file.kind == StageKind::Flow
            ==> label == "["@ + builtin + "] "@ + file.display),
{
}

/// Names are ordered as in a dictionary, letter by letter: a name comes after what it begins with,
/// never before itself, and of two names that differ exactly one comes first.
pub proof fn names_are_ordered_letter_by_letter(common: Seq<char>, a: Seq<char>, b: Seq<char>)
    ensures
        text_less(common + a, common + b) == text_less(a, b),
        !text_less(a, a),
        a.len() > 0 && b.len() > 0 && a[0] != b[0] ==> text_less(a, b) == (a[0] < b[0]),
        a.len() == 0 && b.len() > 0 ==> text_less(a, b),
        b.len() == 0 ==> !text_less(a, b),
    decreases common.len() + a.len(),
{
    if common.len() > 0 {
        names_are_ordered_letter_by_letter(common.skip(1), a, b);
        assert((common + a).skip(1) =~= common.skip(1) + a);
        assert((common + b).skip(1) =~= common.skip(1) + b);
    } else {
        assert(common + a =~= a);
        assert(common + b =~= b);
        if a.len() > 0 {
            names_are_ordered_letter_by_letter(common, a.skip(1), a.skip(1));
        }
    }
    if a.len() > 0 && common.len() > 0 {
        names_are_ordered_letter_by_letter(Seq::empty(), a, a);
    }
}

/// A folder is shown by its filters first and its folders after them, each folder under a header
/// with its name and its own rows behind it.
pub proof fn folders_are_shown_behind_their_headers(dirs: Seq<FilterDir>, id: Seq<char>, builtin: Seq<char>)
    requires
        dirs.len() > 0,
    ensures
        ({
            let last = dirs[dirs.len() - 1];
            let child = id + "/"@ + last.name@;
            dirs_rows(dirs, id, builtin) == dirs_rows(dirs.subrange(0, dirs.len() - 1), id, builtin).push(
                Row::Header { id: child, name: last.name@ },
            ) + folder_rows(last.node, child, builtin)
        }),
{
    let last = dirs[dirs.len() - 1];
    let child = id + "/"@ + last.name@;
    let before = dirs_rows(dirs.subrange(0, dirs.len() - 1), id, builtin);
    assert(before.push(Row::Header { id: child, name: last.name@ }) =~= before + seq![
        Row::Header { id: child, name: last.name@ },
    ]);
}

/// The folders of a folder stand in the order of their names, and so do those within them.
pub proof fn folders_stand_in_order(node: FilterNode, i: int, j: int)
    requires
        in_order(node),
        0 <= i < j < node.dirs@.len(),
    ensures
        text_less(node.dirs@[i].name@, node.dirs@[j].name@),
        in_order(node.dirs@[i].node),
        in_order(node.dirs@[j].node),
{
    lemma_order_is_sorted(node.dirs@);
}

/// Nothing of the tree is out of sight of its contracts.
pub proof fn the_tree_is_seen_whole(node: FilterNode, i: int)
    ensures
        folder_view(node).files.len() == node.files@.len(),
        0 <= i < node.files@.len() ==> folder_view(node).files[i].kind == node.files@[i].kind && folder_view(node).files[i].path
            == node.files@[i].path@ && folder_view(node).files[i].display == node.files@[i].display@,
        node.dirs@.len() > 0 ==> {
            let last = node.dirs@[node.dirs@.len() - 1];
            folder_view(node).dirs.contains_key(last.name@) && folder_view(node).dirs[last.name@] == folder_view(last.node)
        },
        node.dirs@.len() == 0 ==> folder_view(node).dirs == Map::<Seq<char>, Folder>::empty(),
{
}

} // verus!
