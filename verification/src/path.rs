use vstd::prelude::*;
use vstd::string::StringExecFns;
use crate::text::{chars_of, same_chars};

verus! {

/// A path is absolute when it starts at the root of the file system.
pub open spec fn is_absolute(path: Seq<char>) -> bool {
    path.len() > 0 && path[0] == '/'
}

/// The segments of a path: the runs of characters between its separators. A path of `n`
/// separators has `n + 1` segments, some of which may be empty.
pub open spec fn segments(path: Seq<char>) -> Seq<Seq<char>>
    decreases path.len(),
{
    if path.len() == 0 {
        seq![Seq::<char>::empty()]
    } else {
        let before = segments(path.drop_last());
        if path.last() == '/' {
            before.push(Seq::<char>::empty())
        } else {
            before.drop_last().push(before.last().push(path.last()))
        }
    }
}

/// Where one segment leads from the directory `stack`: an empty segment and `.` stay,
/// `..` goes to the parent (and stays where there is none), a name goes down.
pub open spec fn enter(stack: Seq<Seq<char>>, segment: Seq<char>) -> Seq<Seq<char>> {
    if segment.len() == 0 || segment == seq!['.'] {
        stack
    } else if segment == seq!['.', '.'] {
        if stack.len() > 0 {
            stack.drop_last()
        } else {
            stack
        }
    } else {
        stack.push(segment)
    }
}

/// Where a run of segments leads from the directory `stack`, taken from left to right.
pub open spec fn walk(stack: Seq<Seq<char>>, segments: Seq<Seq<char>>) -> Seq<Seq<char>>
    decreases segments.len(),
{
    if segments.len() == 0 {
        stack
    } else {
        enter(walk(stack, segments.drop_last()), segments.last())
    }
}

/// A path in normal form: whether it is absolute, and the names that lead to it, with no
/// `.`, no `..` and no empty name left. No file system is asked: a link is a name like
/// any other.
pub struct NormalPath {
    pub absolute: bool,
    pub names: Seq<Seq<char>>,
}

/// The normal form of a path.
pub open spec fn normal_form(path: Seq<char>) -> NormalPath {
    NormalPath { absolute: is_absolute(path), names: walk(Seq::empty(), segments(path)) }
}

impl NormalPath {
    /// Whether `self` is `ancestor` or lies below it.
    pub open spec fn is_descendant_of(self, ancestor: NormalPath) -> bool {
        self.absolute == ancestor.absolute && ancestor.names.is_prefix_of(self.names)
    }
}

/// `path` seen from the directory `base`: an absolute `path` is itself, a relative one is
/// appended to `base`, with one separator between the two where `base` does not end in one.
pub open spec fn join(base: Seq<char>, path: Seq<char>) -> Seq<char> {
    if is_absolute(path) || base.len() == 0 {
        path
    } else if base.last() == '/' {
        base + path
    } else {
        base + seq!['/'] + path
    }
}

/// The names held by each of the vectors of `parts`.
pub open spec fn names_of(parts: Seq<Vec<char>>) -> Seq<Seq<char>> {
    parts.map_values(|part: Vec<char>| part@)
}

/// Every path has a segment.
pub proof fn lemma_segments_len(path: Seq<char>)
    ensures
        segments(path).len() >= 1,
    decreases path.len(),
{
    if path.len() > 0 {
        lemma_segments_len(path.drop_last());
    }
}

/// The segments of two paths with a separator between them are those of the first, then
/// those of the second.
pub proof fn lemma_segments_of_separated(a: Seq<char>, b: Seq<char>)
    ensures
        segments(a + seq!['/'] + b) == segments(a) + segments(b),
    decreases b.len(),
{
    let whole = a + seq!['/'] + b;
    lemma_segments_len(a);
    lemma_segments_len(b);
    if b.len() == 0 {
        assert(whole.drop_last() =~= a);
    } else {
        lemma_segments_of_separated(a, b.drop_last());
        lemma_segments_len(b.drop_last());
        assert(whole.drop_last() =~= a + seq!['/'] + b.drop_last());
    }
}

/// Where the first of two paths is empty or ends in a separator, the segments of the two
/// put together are those of the first but its last (which is empty), then those of the
/// second.
pub proof fn lemma_segments_of_extended(a: Seq<char>, b: Seq<char>)
    requires
        a.len() == 0 || a.last() == '/',
    ensures
        segments(a + b) == segments(a).drop_last() + segments(b),
    decreases b.len(),
{
    let whole = a + b;
    lemma_segments_len(a);
    lemma_segments_len(b);
    if b.len() == 0 {
        if a.len() > 0 {
            lemma_segments_len(a.drop_last());
        }
    } else {
        lemma_segments_of_extended(a, b.drop_last());
        lemma_segments_len(b.drop_last());
        assert(whole.drop_last() =~= a + b.drop_last());
    }
}

/// A walk along two runs of segments is a walk along the first, then one along the second.
pub proof fn lemma_walk_of_two(stack: Seq<Seq<char>>, first: Seq<Seq<char>>, second: Seq<Seq<char>>)
    ensures
        walk(stack, first + second) == walk(walk(stack, first), second),
    decreases second.len(),
{
    if second.len() > 0 {
        lemma_walk_of_two(stack, first, second.drop_last());
        assert((first + second).drop_last() =~= first + second.drop_last());
    }
}

/// A walk along a relative path joined to a base is a walk along the base, then one along
/// the path.
pub proof fn lemma_walk_of_join(stack: Seq<Seq<char>>, base: Seq<char>, path: Seq<char>)
    requires
        !is_absolute(path),
    ensures
        walk(stack, segments(join(base, path))) == walk(
            walk(stack, segments(base)),
            segments(path),
        ),
        is_absolute(join(base, path)) == is_absolute(base),
{
    lemma_segments_len(base);
    lemma_segments_len(path);
    let empty = Seq::<char>::empty();
    if base.len() == 0 {
        assert(walk(stack, seq![empty].drop_last()) == stack);
    } else if base.last() == '/' {
        lemma_segments_of_extended(base, path);
        lemma_walk_of_two(stack, segments(base).drop_last(), segments(path));
        lemma_segments_len(base.drop_last());
    } else {
        lemma_segments_of_separated(base, path);
        lemma_walk_of_two(stack, segments(base), segments(path));
    }
}

/// A walk that meets no `..` never leaves the directory it starts from.
pub proof fn lemma_walk_without_parent(stack: Seq<Seq<char>>, segments: Seq<Seq<char>>)
    requires
        forall|i: int| 0 <= i < segments.len() ==> segments[i] != seq!['.', '.'],
    ensures
        stack.is_prefix_of(walk(stack, segments)),
    decreases segments.len(),
{
    if segments.len() > 0 {
        lemma_walk_without_parent(stack, segments.drop_last());
    }
}

fn join_paths(base: &str, path: &str) -> (joined: String)
    ensures
        joined@ == join(base@, path@),
{
    let head = chars_of(path);
    let stem = chars_of(base);
    if (head.len() > 0 && head[0] == '/') || stem.len() == 0 {
        String::from_str(path)
    } else {
        let mut joined = String::from_str(base);
        if stem[stem.len() - 1] != '/' {
            joined.push('/');
        }
        joined.append(path);
        joined
    }
}

fn is_dot(segment: &Vec<char>) -> (b: bool)
    ensures
        b == (segment@ == seq!['.']),
{
    let b = segment.len() == 1 && segment[0] == '.';
    assert(b ==> segment@ =~= seq!['.']);
    b
}

fn is_dot_dot(segment: &Vec<char>) -> (b: bool)
    ensures
        b == (segment@ == seq!['.', '.']),
{
    let b = segment.len() == 2 && segment[0] == '.' && segment[1] == '.';
    assert(b ==> segment@ =~= seq!['.', '.']);
    b
}

/// Takes one more segment of a path.
fn enter_segment(stack: &mut Vec<Vec<char>>, segment: Vec<char>)
    ensures
        names_of(final(stack)@) == enter(names_of(old(stack)@), segment@),
{
    if segment.len() == 0 || is_dot(&segment) {
    } else if is_dot_dot(&segment) {
        if stack.len() > 0 {
            stack.pop();
        }
    } else {
        stack.push(segment);
    }
}

/// The names of the normal form of `path`.
fn normal_names(path: &str) -> (names: Vec<Vec<char>>)
    ensures
        names_of(names@) == normal_form(path@).names,
{
    let chars = chars_of(path);
    let mut stack: Vec<Vec<char>> = Vec::new();
    let mut current: Vec<char> = Vec::new();
    let mut i: usize = 0;
    while i < chars.len()
        invariant
            i <= chars.len(),
            chars@ == path@,
            current@ == segments(chars@.take(i as int)).last(),
            names_of(stack@) == walk(
                Seq::empty(),
                segments(chars@.take(i as int)).drop_last(),
            ),
        decreases chars.len() - i,
    {
        let ghost before = chars@.take(i as int);
        let ghost after = chars@.take(i as int + 1);
        proof {
            lemma_segments_len(before);
            assert(after.drop_last() =~= before);
        }
        let c = chars[i];
        if c == '/' {
            enter_segment(&mut stack, current);
            current = Vec::new();
            proof {
                assert(segments(after).drop_last() =~= segments(before));
            }
        } else {
            current.push(c);
            proof {
                assert(segments(after).drop_last() =~= segments(before).drop_last());
            }
        }
        i = i + 1;
    }
    proof {
        assert(chars@.take(i as int) =~= path@);
        lemma_segments_len(path@);
    }
    enter_segment(&mut stack, current);
    stack
}

fn starts_with_names(names: &Vec<Vec<char>>, prefix: &Vec<Vec<char>>) -> (b: bool)
    ensures
        b == names_of(prefix@).is_prefix_of(names_of(names@)),
{
    if prefix.len() > names.len() {
        return false;
    }
    let mut i: usize = 0;
    while i < prefix.len()
        invariant
            i <= prefix.len() <= names.len(),
            forall|j: int| 0 <= j < i ==> names_of(prefix@)[j] == names_of(names@)[j],
        decreases prefix.len() - i,
    {
        if !same_chars(&names[i], &prefix[i]) {
            assert(names_of(prefix@)[i as int] != names_of(names@)[i as int]);
            return false;
        }
        i = i + 1;
    }
    true
}

fn starts_at_root(path: &str) -> (b: bool)
    ensures
        b == is_absolute(path@),
{
    let chars = chars_of(path);
    chars.len() > 0 && chars[0] == '/'
}

/// The file root of a run: the one directory whose files the entries may read, and the
/// current directory, which relative paths start from. The current directory is meant to
/// be absolute; the file root may be given relative to it. Paths are written with `/`.
#[derive(Clone, Debug, PartialEq, Eq)]
pub struct ContextDir {
    current_dir: String,
    file_root: String,
}

impl ContextDir {
    /// The directory that relative paths start from.
    pub closed spec fn current_dir(&self) -> Seq<char> {
        self.current_dir@
    }

    /// The file root, as it was given: absolute, or relative to the current directory.
    pub closed spec fn file_root(&self) -> Seq<char> {
        self.file_root@
    }

    /// The file root in normal form.
    pub open spec fn root(&self) -> NormalPath {
        normal_form(join(self.current_dir(), self.file_root()))
    }

    /// The path that `filename` stands for: itself where it is absolute, else the file
    /// root followed by it.
    pub open spec fn resolved(&self, filename: Seq<char>) -> Seq<char> {
        join(self.file_root(), filename)
    }

    /// The file that `filename` stands for, in normal form.
    pub open spec fn target(&self, filename: Seq<char>) -> NormalPath {
        normal_form(join(self.current_dir(), self.resolved(filename)))
    }

    /// Whether `filename` may be read: whether what it stands for is the file root or
    /// lies below it.
    pub open spec fn allows(&self, filename: Seq<char>) -> bool {
        self.target(filename).is_descendant_of(self.root())
    }

    pub fn new(current_dir: &str, file_root: &str) -> (context_dir: ContextDir)
        ensures
            context_dir.current_dir() == current_dir@,
            context_dir.file_root() == file_root@,
    {
        ContextDir {
            current_dir: String::from_str(current_dir),
            file_root: String::from_str(file_root),
        }
    }

    /// The path to read `filename` from. No file system is asked.
    pub fn get_path(&self, filename: &str) -> (path: String)
        ensures
            path@ == self.resolved(filename@),
    {
        join_paths(self.file_root.as_str(), filename)
    }

    /// Whether `filename` may be read. No file system is asked.
    pub fn is_access_allowed(&self, filename: &str) -> (allowed: bool)
        ensures
            allowed == self.allows(filename@),
    {
        let file = self.get_path(filename);
        let absolute_file = join_paths(self.current_dir.as_str(), file.as_str());
        let absolute_root = join_paths(self.current_dir.as_str(), self.file_root.as_str());
        if starts_at_root(absolute_file.as_str()) != starts_at_root(absolute_root.as_str()) {
            return false;
        }
        let file_names = normal_names(absolute_file.as_str());
        let root_names = normal_names(absolute_root.as_str());
        starts_with_names(&file_names, &root_names)
    }
}

/// A relative name is read from the file root: the file that it stands for is where the
/// segments of the name lead from there, and the name is allowed exactly when they lead to
/// the file root or below it.
pub proof fn lemma_relative_name_walks_from_root(context_dir: ContextDir, filename: Seq<char>)
    requires
        !is_absolute(filename),
    ensures
        context_dir.target(filename).absolute == context_dir.root().absolute,
        context_dir.target(filename).names == walk(context_dir.root().names, segments(filename)),
        context_dir.allows(filename) <==> context_dir.root().names.is_prefix_of(
            walk(context_dir.root().names, segments(filename)),
        ),
{
    let current = context_dir.current_dir();
    let root = context_dir.file_root();
    let empty = Seq::<Seq<char>>::empty();
    lemma_walk_of_join(empty, root, filename);
    if !is_absolute(root) {
        lemma_walk_of_join(empty, current, root);
        lemma_walk_of_join(empty, current, join(root, filename));
        lemma_walk_of_join(walk(empty, segments(current)), root, filename);
    }
}

/// The sandbox: a name that is allowed stands for the file root or for a file below it,
/// and a name that stands for anything else, as one that climbs out of the file root with
/// `..` does, is not allowed.
pub proof fn lemma_allowed_means_below_root(context_dir: ContextDir, filename: Seq<char>)
    ensures
        context_dir.allows(filename) <==> normal_form(
            join(context_dir.current_dir(), context_dir.resolved(filename)),
        ).is_descendant_of(context_dir.root()),
        context_dir.allows(filename) ==> context_dir.root().names.len()
            <= context_dir.target(filename).names.len(),
{
}

/// A relative name without a `..` segment is always allowed.
pub proof fn lemma_name_without_parent_allowed(context_dir: ContextDir, filename: Seq<char>)
    requires
        !is_absolute(filename),
        forall|i: int|
            0 <= i < segments(filename).len() ==> segments(filename)[i] != seq!['.', '.'],
    ensures
        context_dir.allows(filename),
{
    lemma_relative_name_walks_from_root(context_dir, filename);
    lemma_walk_without_parent(context_dir.root().names, segments(filename));
}

/// A name that goes up once and then down by one name leaves the file root, and is not
/// allowed, unless the file root is the root of the file system or is itself called by
/// that name.
pub proof fn lemma_parent_then_name_denied(
    context_dir: ContextDir,
    filename: Seq<char>,
    name: Seq<char>,
)
    requires
        filename == seq!['.', '.', '/'] + name,
        segments(name) == seq![name],
        name.len() > 0,
        name != seq!['.'],
        name != seq!['.', '.'],
        context_dir.root().names.len() > 0,
        context_dir.root().names.last() != name,
    ensures
        !context_dir.allows(filename),
{
    lemma_relative_name_walks_from_root(context_dir, filename);
    let up = seq!['.', '.'];
    assert(filename =~= up + seq!['/'] + name);
    lemma_segments_of_separated(up, name);
    let dot = seq!['.'];
    let none = Seq::<char>::empty();
    assert(dot.drop_last() =~= none);
    assert(segments(none) == seq![none]);
    assert(segments(dot) == seq![dot]);
    assert(up.drop_last() =~= dot);
    assert(dot.push('.') =~= up);
    let steps = seq![up, name];
    assert(segments(filename) =~= steps);
    let names = context_dir.root().names;
    assert(steps.drop_last() =~= seq![up]);
    assert(walk(names, seq![up]) == names.drop_last()) by {
        reveal_with_fuel(walk, 2);
    }
    assert(names.drop_last().push(name)[names.len() - 1] == name);
}

} // verus!
