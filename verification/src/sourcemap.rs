use crate::error::{LinkError, LinkErrorView};
use crate::text::{copy_strings, strings};
use vstd::prelude::*;
use vstd::string::*;

verus! {

/// One instance of the project tree, with the files that implement it.
#[derive(Debug)]
pub struct SourcemapNode {
    /// The name of the instance.
    pub name: String,
    /// The class of the instance. Nothing here depends on it.
    pub class_name: String,
    /// The files behind the instance, in the order in which the sourcemap gives them.
    pub file_paths: Vec<String>,
    /// The instances below this one, in order. Two may have the same name.
    pub children: Vec<SourcemapNode>,
}

/// The position of the first of `children` called `name`, from `start` on.
pub open spec fn first_named_from(children: Seq<SourcemapNode>, name: Seq<char>, start: int) -> Option<
    int,
>
    decreases children.len() - start,
{
    if start < 0 || start >= children.len() {
        None
    } else if children[start].name@ == name {
        Some(start)
    } else {
        first_named_from(children, name, start + 1)
    }
}

/// The position of the first of `children` called `name`.
pub open spec fn first_named(children: Seq<SourcemapNode>, name: Seq<char>) -> Option<int> {
    first_named_from(children, name, 0)
}

/// Whether `path` is one of the files behind `node`.
pub open spec fn owns(node: SourcemapNode, path: Seq<char>) -> bool {
    strings(node.file_paths@).contains(path)
}

/// The file paths of the tree under `node`: those of the node itself, then those of the
/// tree under each of its children, in order.
pub open spec fn all_paths(node: SourcemapNode) -> Seq<Seq<char>>
    decreases node,
{
    strings(node.file_paths@) + paths_among(node.children@, node.children@.len() as int)
}

/// The file paths of the trees under the first `count` of `nodes`, in order.
pub open spec fn paths_among(nodes: Seq<SourcemapNode>, count: int) -> Seq<Seq<char>>
    decreases nodes, count,
{
    if count <= 0 || count > nodes.len() {
        Seq::empty()
    } else {
        paths_among(nodes, count - 1) + all_paths(nodes[count - 1])
    }
}

/// Whether the two trees differ in their file paths at most: name by name and child by
/// child they are the same, and each node has as many files in one as in the other.
pub open spec fn same_shape(a: SourcemapNode, b: SourcemapNode) -> bool
    decreases a,
{
    &&& a.name@ == b.name@
    &&& a.class_name@ == b.class_name@
    &&& a.file_paths@.len() == b.file_paths@.len()
    &&& a.children@.len() == b.children@.len()
    &&& forall|i: int|
        0 <= i < a.children@.len() ==> same_shape(#[trigger] a.children@[i], b.children@[i])
}

/// `first_named` gives the first child of that name, and none only if there is none.
pub proof fn lemma_first_named(children: Seq<SourcemapNode>, name: Seq<char>, start: int)
    requires
        0 <= start,
    ensures
        match first_named_from(children, name, start) {
            Some(i) => start <= i < children.len() && children[i].name@ == name && forall|j: int|
                start <= j < i ==> children[j].name@ != name,
            None => forall|j: int| start <= j < children.len() ==> children[j].name@ != name,
        },
    decreases children.len() - start,
{
    if start < children.len() && children[start].name@ != name {
        lemma_first_named(children, name, start + 1);
    }
}

/// A tree has the shape of itself.
pub proof fn lemma_same_shape_reflexive(a: SourcemapNode)
    ensures
        same_shape(a, a),
    decreases a,
{
    assert forall|i: int| 0 <= i < a.children@.len() implies same_shape(
        #[trigger] a.children@[i],
        a.children@[i],
    ) by {
        lemma_same_shape_reflexive(a.children@[i]);
    }
}

impl SourcemapNode {
    /// The first child called `name`.
    pub fn find_child(&self, name: String) -> (found: Option<&SourcemapNode>)
        ensures
            match found {
                Some(child) => exists|i: int|
                    {
                        &&& first_named(self.children@, name@) == Some(i)
                        &&& 0 <= i < self.children@.len()
                        &&& *child == self.children@[i]
                        &&& child.name@ == name@
                        &&& forall|j: int| 0 <= j < i ==> self.children@[j].name@ != name@
                    },
                None => {
                    &&& first_named(self.children@, name@) is None
                    &&& forall|j: int|
                        0 <= j < self.children@.len() ==> self.children@[j].name@ != name@
                },
            },
    {
        let mut i: usize = 0;
        while i < self.children.len()
            invariant
                i <= self.children.len(),
                first_named(self.children@, name@) == first_named_from(
                    self.children@,
                    name@,
                    i as int,
                ),
            decreases self.children.len() - i,
        {
            if self.children[i].name == name {
                proof {
                    lemma_first_named(self.children@, name@, 0);
                }
                return Some(&self.children[i]);
            }
            i += 1;
        }
        proof {
            lemma_first_named(self.children@, name@, 0);
        }
        None
    }
}

/// The paths among the first nodes of two lists are the same where those nodes are.
pub proof fn lemma_paths_among_prefix(a: Seq<SourcemapNode>, b: Seq<SourcemapNode>, count: int)
    requires
        0 <= count <= a.len(),
        count <= b.len(),
        forall|k: int| 0 <= k < count ==> a[k] == b[k],
    ensures
        paths_among(a, count) == paths_among(b, count),
    decreases count,
{
    if count > 0 {
        lemma_paths_among_prefix(a, b, count - 1);
    }
}

/// The paths among the first nodes of a list are the first of the paths among more.
pub proof fn lemma_paths_among_grow(nodes: Seq<SourcemapNode>, count: int, more: int)
    requires
        0 <= count <= more <= nodes.len(),
    ensures
        paths_among(nodes, count).len() <= paths_among(nodes, more).len(),
        count < more ==> paths_among(nodes, count).len() + all_paths(nodes[count]).len()
            <= paths_among(nodes, more).len(),
    decreases more - count,
{
    if count < more {
        lemma_paths_among_grow(nodes, count + 1, more);
    }
}

/// The file paths of the tree under `node`: those of the node itself, then those of the
/// tree under each of its children, in order.
pub fn file_paths(node: &SourcemapNode) -> (paths: Vec<String>)
    ensures
        strings(paths@) == all_paths(*node),
    decreases *node,
{
    let mut paths = copy_strings(&node.file_paths);
    let mut j: usize = 0;
    proof {
        assert(strings(paths@) =~= strings(node.file_paths@) + paths_among(node.children@, 0));
    }
    while j < node.children.len()
        invariant
            j <= node.children.len(),
            strings(paths@) == strings(node.file_paths@) + paths_among(
                node.children@,
                j as int,
            ),
        decreases node.children.len() - j,
    {
        let mut below = file_paths(&node.children[j]);
        let ghost before = strings(paths@);
        let ghost added = strings(below@);
        paths.append(&mut below);
        proof {
            assert(strings(paths@) =~= before + added);
            assert(strings(paths@) =~= strings(node.file_paths@) + paths_among(
                node.children@,
                j + 1,
            ));
        }
        j += 1;
    }
    paths
}

/// Gives the tree under `node` the file paths `paths[from..]`, in the order of
/// `all_paths`, and says where in `paths` the next tree goes on.
fn replace_from(node: &mut SourcemapNode, paths: &Vec<String>, from: usize) -> (next: usize)
    requires
        from + all_paths(*old(node)).len() <= paths@.len(),
    ensures
        next == from + all_paths(*old(node)).len(),
        same_shape(*old(node), *final(node)),
        all_paths(*final(node)) == strings(paths@).subrange(from as int, next as int),
    decreases *old(node),
{
    let count = node.file_paths.len();
    let total = paths.len();
    let mut own: Vec<String> = Vec::new();
    let mut i: usize = 0;
    proof {
        assert(all_paths(*node) == strings(node.file_paths@) + paths_among(
            node.children@,
            node.children@.len() as int,
        ));
        assert(strings(node.file_paths@).len() == count);
        assert(all_paths(*node).len() >= count);
    }
    while i < count
        invariant
            *node == *old(node),
            count == node.file_paths@.len(),
            total == paths@.len(),
            from + count <= total,
            i <= count,
            own@.len() == i,
            forall|k: int| 0 <= k < i ==> own@[k]@ == paths@[from + k]@,
        decreases count - i,
    {
        own.push(paths[from + i].clone());
        i += 1;
    }
    node.file_paths = own;
    let mut at: usize = from + count;
    proof {
        assert(strings(node.file_paths@) =~= strings(paths@).subrange(
            from as int,
            from + count,
        ));
        assert(paths_among(node.children@, 0) =~= strings(paths@).subrange(
            from + count,
            at as int,
        ));
    }
    let mut j: usize = 0;
    while j < node.children.len()
        invariant
            j <= node.children.len(),
            node.name == old(node).name,
            node.class_name == old(node).class_name,
            count == old(node).file_paths@.len(),
            node.file_paths@.len() == count,
            node.children@.len() == old(node).children@.len(),
            from + all_paths(*old(node)).len() <= paths@.len(),
            strings(node.file_paths@) == strings(paths@).subrange(from as int, from + count),
            at == from + count + paths_among(old(node).children@, j as int).len(),
            paths_among(node.children@, j as int) == strings(paths@).subrange(
                from + count,
                at as int,
            ),
            forall|k: int|
                0 <= k < j ==> same_shape(#[trigger] old(node).children@[k], node.children@[k]),
            forall|k: int|
                j <= k < node.children@.len() ==> old(node).children@[k] == node.children@[k],
        decreases node.children.len() - j,
    {
        let ghost before = node.children@;
        let ghost start = at;
        proof {
            lemma_paths_among_grow(
                old(node).children@,
                j as int,
                old(node).children@.len() as int,
            );
        }
        at = replace_from(&mut node.children[j], paths, at);
        proof {
            lemma_paths_among_prefix(before, node.children@, j as int);
            assert(paths_among(node.children@, j + 1) =~= strings(paths@).subrange(
                from + count,
                at as int,
            )) by {
                assert(paths_among(node.children@, j + 1) == paths_among(
                    node.children@,
                    j as int,
                ) + all_paths(node.children@[j as int]));
                assert(strings(paths@).subrange(from + count, start as int) + strings(
                    paths@,
                ).subrange(start as int, at as int) =~= strings(paths@).subrange(
                    from + count,
                    at as int,
                ));
            }
            assert forall|k: int| 0 <= k < j + 1 implies same_shape(
                #[trigger] old(node).children@[k],
                node.children@[k],
            ) by {
                if k < j {
                    assert(node.children@[k] == before[k]);
                }
            }
        }
        j += 1;
    }
    proof {
        assert(all_paths(*node) =~= strings(paths@).subrange(from as int, at as int));
    }
    at
}

/// Gives the tree under `node` the file paths `paths`, in the order of `all_paths`: each
/// path goes where the old path of that position was, and the tree keeps its shape.
/// Where `paths` are more or fewer than the tree has paths, nothing is done.
pub fn replace_file_paths(node: &mut SourcemapNode, paths: &Vec<String>) -> (replaced: bool)
    ensures
        replaced == (paths@.len() == all_paths(*old(node)).len()),
        replaced ==> same_shape(*old(node), *final(node)) && all_paths(*final(node)) == strings(
            paths@,
        ),
        !replaced ==> *final(node) == *old(node),
{
    let held = file_paths(node);
    if held.len() != paths.len() {
        return false;
    }
    let next = replace_from(node, paths, 0);
    proof {
        assert(strings(paths@).subrange(0, next as int) =~= strings(paths@));
    }
    true
}

/// The position of the first of the first `count` paths, from `start` on, for which
/// `canonical` holds no form.
pub open spec fn first_missing_from(canonical: Seq<Result<String, String>>, count: int, start: int) -> Option<
    int,
>
    decreases count - start,
{
    if start < 0 || start >= count {
        None
    } else if start >= canonical.len() || canonical[start] is Err {
        Some(start)
    } else {
        first_missing_from(canonical, count, start + 1)
    }
}

/// The first `count` forms that `canonical` holds.
pub open spec fn canonical_forms(canonical: Seq<Result<String, String>>, count: int) -> Seq<Seq<char>> {
    Seq::new(count as nat, |i: int| canonical[i]->Ok_0@)
}

/// Why the path at `position` has no form, as `canonical` says it; nothing where
/// `canonical` ends before that position.
pub open spec fn missing_reason(canonical: Seq<Result<String, String>>, position: int) -> Seq<
    char,
> {
    if 0 <= position < canonical.len() && canonical[position] is Err {
        canonical[position]->Err_0@
    } else {
        Seq::empty()
    }
}

/// `first_missing_from` gives the first path without a form, and none only if every path
/// has one.
pub proof fn lemma_first_missing(canonical: Seq<Result<String, String>>, count: int, start: int)
    requires
        0 <= start,
    ensures
        match first_missing_from(canonical, count, start) {
            Some(i) => start <= i < count && (i >= canonical.len() || canonical[i] is Err)
                && forall|j: int| start <= j < i ==> j < canonical.len() && canonical[j] is Ok,
            None => forall|j: int|
                start <= j < count ==> j < canonical.len() && canonical[j] is Ok,
        },
    decreases count - start,
{
    if start < count && start < canonical.len() && canonical[start] is Ok {
        lemma_first_missing(canonical, count, start + 1);
    }
}

/// Replaces every file path of the tree by its canonical form, so that the paths can be
/// compared later. The forms are those of `canonical`: one for each path in the order of
/// `file_paths`, or the reason why the path has none. The tree keeps its shape. Fails at
/// the first path without a form, with that path and the reason; the tree is then as it
/// was.
pub fn mutate_sourcemap(node: &mut SourcemapNode, canonical: &Vec<Result<String, String>>) -> (outcome:
    Result<(), LinkError>)
    ensures
        match first_missing_from(canonical@, all_paths(*old(node)).len() as int, 0) {
            Some(i) => {
                &&& *final(node) == *old(node)
                &&& outcome matches Err(error) && error@ == (LinkErrorView::PathCanonicalization {
                    path: all_paths(*old(node))[i],
                    reason: missing_reason(canonical@, i),
                })
            },
            None => outcome is Ok && same_shape(*old(node), *final(node)) && all_paths(
                *final(node),
            ) == canonical_forms(canonical@, all_paths(*old(node)).len() as int),
        },
        outcome is Ok <==> forall|j: int|
            0 <= j < all_paths(*old(node)).len() ==> j < canonical@.len() && canonical@[j] is Ok,
{
    let paths = file_paths(node);
    let ghost count = paths@.len() as int;
    proof {
        assert(strings(paths@).len() == paths@.len());
        lemma_first_missing(canonical@, count, 0);
    }
    let mut forms: Vec<String> = Vec::new();
    let mut i: usize = 0;
    while i < paths.len()
        invariant
            *node == *old(node),
            strings(paths@) == all_paths(*node),
            count == paths@.len(),
            i <= paths.len(),
            forms@.len() == i,
            first_missing_from(canonical@, count, 0) == first_missing_from(
                canonical@,
                count,
                i as int,
            ),
            forall|k: int|
                0 <= k < i ==> k < canonical@.len() && canonical@[k] is Ok && forms@[k]@
                    == canonical@[k]->Ok_0@,
        decreases paths.len() - i,
    {
        if i >= canonical.len() {
            proof {
                assert(strings(paths@)[i as int] == paths@[i as int]@);
            }
            return Err(
                LinkError::PathCanonicalization { path: paths[i].clone(), reason: String::new() },
            );
        }
        match &canonical[i] {
            Ok(form) => {
                forms.push(form.clone());
            },
            Err(reason) => {
                proof {
                    assert(strings(paths@)[i as int] == paths@[i as int]@);
                }
                return Err(
                    LinkError::PathCanonicalization {
                        path: paths[i].clone(),
                        reason: reason.clone(),
                    },
                );
            },
        }
        i += 1;
    }
    let replaced = replace_file_paths(node, &forms);
    proof {
        assert(strings(paths@).len() == paths@.len());
        assert(replaced);
        assert(strings(forms@) =~= canonical_forms(canonical@, count));
    }
    Ok(())
}

} // verus!
