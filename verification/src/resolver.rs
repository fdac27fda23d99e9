use crate::error::{LinkError, LinkErrorView};
use crate::sourcemap::{first_named, lemma_first_named, owns, SourcemapNode};
use crate::text::{
    contains_string, has_extension, join, joined, path_has_extension, str_eq, strings,
};
use vstd::prelude::*;
use vstd::string::*;

verus! {

/// The nodes that the references of `chain` point to.
pub open spec fn nodes_of(chain: Seq<&SourcemapNode>) -> Seq<SourcemapNode> {
    Seq::new(chain.len(), |i: int| *chain[i])
}

/// Whether `chain` leads from `root` down the tree: it starts with `root`, and each
/// further node is a child of the one before it.
pub open spec fn is_chain(root: SourcemapNode, chain: Seq<SourcemapNode>) -> bool {
    &&& chain.len() > 0
    &&& chain[0] == root
    &&& forall|i: int|
        0 < i < chain.len() ==> (#[trigger] chain[i - 1]).children@.contains(chain[i])
}

/// The chain from `node` to the first node at or below it that owns `path`, in the
/// order of the search: a node comes before the nodes below it, and of two children the
/// later one comes first, with all that is below it.
pub open spec fn locate(node: SourcemapNode, path: Seq<char>) -> Option<Seq<SourcemapNode>>
    decreases node,
{
    if owns(node, path) {
        Some(seq![node])
    } else {
        match locate_among(node.children@, path, node.children@.len() as int) {
            Some(chain) => Some(seq![node] + chain),
            None => None,
        }
    }
}

/// The chain from one of the first `count` of `nodes` to the first node that owns
/// `path`, in the order of the search.
pub open spec fn locate_among(nodes: Seq<SourcemapNode>, path: Seq<char>, count: int) -> Option<
    Seq<SourcemapNode>,
>
    decreases nodes, count,
{
    if count <= 0 || count > nodes.len() {
        None
    } else {
        match locate(nodes[count - 1], path) {
            Some(chain) => Some(chain),
            None => locate_among(nodes, path, count - 1),
        }
    }
}

/// What `locate` finds is a chain from `node` whose last node owns `path`.
pub proof fn lemma_locate_sound(node: SourcemapNode, path: Seq<char>)
    ensures
        locate(node, path) matches Some(chain) ==> is_chain(node, chain) && owns(
            chain.last(),
            path,
        ),
    decreases node, 0int, 0int,
{
    if !owns(node, path) {
        lemma_locate_among_sound(node.children@, path, node.children@.len() as int);
        match locate_among(node.children@, path, node.children@.len() as int) {
            Some(chain) => {
                let whole = seq![node] + chain;
                assert forall|i: int| 0 < i < whole.len() implies (#[trigger] whole[i
                    - 1]).children@.contains(whole[i]) by {
                    if i > 1 {
                        assert(whole[i - 1] == chain[i - 2]);
                        assert(whole[i] == chain[i - 1]);
                        assert(chain[i - 1 - 1].children@.contains(chain[i - 1]));
                    }
                }
                assert(whole.last() == chain.last());
            },
            None => {},
        }
    }
}

/// What `locate_among` finds is a chain from one of the first `count` of `nodes`, and its
/// last node owns `path`.
pub proof fn lemma_locate_among_sound(nodes: Seq<SourcemapNode>, path: Seq<char>, count: int)
    ensures
        locate_among(nodes, path, count) matches Some(chain) ==> chain.len() > 0
            && nodes.contains(chain[0]) && is_chain(chain[0], chain) && owns(
            chain.last(),
            path,
        ),
    decreases nodes, 1int, count,
{
    if 0 < count <= nodes.len() {
        lemma_locate_sound(nodes[count - 1], path);
        lemma_locate_among_sound(nodes, path, count - 1);
    }
}

/// Where one of the first `count` of `nodes` leads to an owner of `path`, `locate_among`
/// finds one.
pub proof fn lemma_locate_among_complete(
    nodes: Seq<SourcemapNode>,
    path: Seq<char>,
    count: int,
    at: int,
)
    requires
        0 <= at < count <= nodes.len(),
        locate(nodes[at], path) is Some,
    ensures
        locate_among(nodes, path, count) is Some,
    decreases count,
{
    if at < count - 1 {
        lemma_locate_among_complete(nodes, path, count - 1, at);
    }
}

/// Where a chain from `node` ends in an owner of `path`, `locate` finds an owner.
pub proof fn lemma_locate_complete(node: SourcemapNode, path: Seq<char>, chain: Seq<SourcemapNode>)
    requires
        is_chain(node, chain),
        owns(chain.last(), path),
    ensures
        locate(node, path) is Some,
    decreases chain.len(),
{
    if !owns(node, path) {
        let rest = chain.skip(1);
        assert(chain[1 - 1].children@.contains(chain[1]));
        let at = choose|at: int| 0 <= at < node.children@.len() && node.children@[at] == chain[1];
        assert forall|i: int| 0 < i < rest.len() implies (#[trigger] rest[i
            - 1]).children@.contains(rest[i]) by {
            assert(rest[i - 1] == chain[i + 1 - 1]);
            assert(chain[i + 1 - 1].children@.contains(chain[i + 1]));
        }
        assert(rest.last() == chain.last());
        lemma_locate_complete(node.children@[at], path, rest);
        lemma_locate_among_complete(node.children@, path, node.children@.len() as int, at);
    }
}

/// The chain from `root` to the first node that owns `path`, in the order of the search.
fn find_node_from<'a>(root: &'a SourcemapNode, path: &String) -> (found: Option<
    Vec<&'a SourcemapNode>,
>)
    ensures
        match found {
            Some(chain) => locate(*root, path@) == Some(nodes_of(chain@)),
            None => locate(*root, path@) is None,
        },
    decreases *root,
{
    if contains_string(&root.file_paths, path) {
        let mut chain: Vec<&'a SourcemapNode> = Vec::new();
        chain.push(root);
        proof {
            assert(nodes_of(chain@) =~= seq![*root]);
        }
        return Some(chain);
    }
    let mut count: usize = root.children.len();
    while count > 0
        invariant
            count <= root.children.len(),
            !owns(*root, path@),
            locate_among(root.children@, path@, root.children@.len() as int) == locate_among(
                root.children@,
                path@,
                count as int,
            ),
        decreases count,
    {
        match find_node_from(&root.children[count - 1], path) {
            Some(mut chain) => {
                let ghost below = nodes_of(chain@);
                chain.insert(0, root);
                proof {
                    assert(nodes_of(chain@) =~= seq![*root] + below);
                }
                return Some(chain);
            },
            None => {},
        }
        count -= 1;
    }
    None
}

/// The chain from `root` to the node that owns the file `path`: the first such node in
/// the order of the search, where a node comes before the nodes below it and, of two
/// children, the later one first. None if no node of the tree owns `path`.
pub fn find_node<'a>(root: &'a SourcemapNode, path: String) -> (found: Option<
    Vec<&'a SourcemapNode>,
>)
    ensures
        match found {
            Some(chain) => {
                &&& locate(*root, path@) == Some(nodes_of(chain@))
                &&& is_chain(*root, nodes_of(chain@))
                &&& owns(nodes_of(chain@).last(), path@)
            },
            None => {
                &&& locate(*root, path@) is None
                &&& forall|chain: Seq<SourcemapNode>| #[trigger]
                    is_chain(*root, chain) ==> !owns(chain.last(), path@)
            },
        },
{
    let found = find_node_from(root, &path);
    proof {
        lemma_locate_sound(*root, path@);
        if found is None {
            assert forall|chain: Seq<SourcemapNode>| #[trigger]
                is_chain(*root, chain) implies !owns(chain.last(), path@) by {
                if owns(chain.last(), path@) {
                    lemma_locate_complete(*root, path@, chain);
                }
            }
        }
    }
    found
}

/// The names of the nodes of `chain`, in order.
pub open spec fn chain_names(chain: Seq<SourcemapNode>) -> Seq<Seq<char>> {
    Seq::new(chain.len(), |i: int| chain[i].name@)
}

/// The names of the nodes of `chain`, with a slash between each two.
pub open spec fn chain_text(chain: Seq<SourcemapNode>) -> Seq<char> {
    joined(chain_names(chain), "/"@)
}

/// Where `components` lead from the end of `chain`: `Parent` leaves the last node of the
/// chain, which may not be the only one; any other component adds the first child of
/// that name of the last node.
pub open spec fn walk(chain: Seq<SourcemapNode>, components: Seq<Seq<char>>) -> Result<
    Seq<SourcemapNode>,
    LinkErrorView,
>
    decreases components.len(),
{
    if components.len() == 0 {
        Ok(chain)
    } else if components[0] == "Parent"@ {
        if chain.len() <= 1 {
            Err(LinkErrorView::BrokenPath)
        } else {
            walk(chain.drop_last(), components.drop_first())
        }
    } else {
        match first_named(chain.last().children@, components[0]) {
            Some(i) => walk(chain.push(chain.last().children@[i]), components.drop_first()),
            None => Err(
                LinkErrorView::UnresolvedChild { chain: chain_text(chain), name: components[0] },
            ),
        }
    }
}

/// The chain that a path starts from: for `script` the chain to the node that owns
/// `file`, for `game` the root alone.
pub open spec fn anchor_chain(root: SourcemapNode, file: Seq<char>, components: Seq<Seq<char>>) -> Result<
    Seq<SourcemapNode>,
    LinkErrorView,
> {
    if components.len() == 0 {
        Err(LinkErrorView::UnsupportedAnchor { anchor: Seq::empty() })
    } else if components[0] == "script"@ {
        match locate(root, file) {
            Some(chain) => Ok(chain),
            None => Err(LinkErrorView::NotFound { path: file }),
        }
    } else if components[0] == "game"@ {
        Ok(seq![root])
    } else {
        Err(LinkErrorView::UnsupportedAnchor { anchor: components[0] })
    }
}

/// The node that `components` name when they are read in the file `file`.
pub open spec fn resolved(root: SourcemapNode, file: Seq<char>, components: Seq<Seq<char>>) -> Result<
    SourcemapNode,
    LinkErrorView,
> {
    match anchor_chain(root, file, components) {
        Ok(start) => match walk(start, components.drop_first()) {
            Ok(chain) => Ok(chain.last()),
            Err(error) => Err(error),
        },
        Err(error) => Err(error),
    }
}

/// Whether `path` names a file that holds a module.
pub open spec fn is_module_file(path: Seq<char>) -> bool {
    has_extension(path, "lua"@) || has_extension(path, "luau"@)
}

/// The position of the first module file among `paths`, from `start` on.
pub open spec fn first_module_file_from(paths: Seq<Seq<char>>, start: int) -> Option<int>
    decreases paths.len() - start,
{
    if start < 0 || start >= paths.len() {
        None
    } else if is_module_file(paths[start]) {
        Some(start)
    } else {
        first_module_file_from(paths, start + 1)
    }
}

/// The file of the module behind `node`: the first of its files that holds a module.
pub open spec fn module_file(node: SourcemapNode) -> Result<Seq<char>, LinkErrorView> {
    match first_module_file_from(strings(node.file_paths@), 0) {
        Some(i) => Ok(node.file_paths@[i]@),
        None => Err(LinkErrorView::NoModuleFile { node: node.name@ }),
    }
}

/// `first_module_file_from` gives the first module file, and none only if there is none.
pub proof fn lemma_first_module_file(paths: Seq<Seq<char>>, start: int)
    requires
        0 <= start,
    ensures
        match first_module_file_from(paths, start) {
            Some(i) => start <= i < paths.len() && is_module_file(paths[i]) && forall|j: int|
                start <= j < i ==> !is_module_file(paths[j]),
            None => forall|j: int| start <= j < paths.len() ==> !is_module_file(paths[j]),
        },
    decreases paths.len() - start,
{
    if start < paths.len() && !is_module_file(paths[start]) {
        lemma_first_module_file(paths, start + 1);
    }
}

/// Wherever `components` lead from a chain that starts at `root`, the way there is again
/// a chain that starts at `root`.
pub proof fn lemma_walk_keeps_chain(
    root: SourcemapNode,
    chain: Seq<SourcemapNode>,
    components: Seq<Seq<char>>,
)
    requires
        is_chain(root, chain),
    ensures
        walk(chain, components) matches Ok(reached) ==> is_chain(root, reached),
    decreases components.len(),
{
    if components.len() > 0 {
        if components[0] == "Parent"@ {
            if chain.len() > 1 {
                let up = chain.drop_last();
                assert forall|i: int| 0 < i < up.len() implies (#[trigger] up[i
                    - 1]).children@.contains(up[i]) by {
                    assert(chain[i - 1].children@.contains(chain[i]));
                }
                lemma_walk_keeps_chain(root, up, components.drop_first());
            }
        } else {
            match first_named(chain.last().children@, components[0]) {
                Some(at) => {
                    lemma_first_named(chain.last().children@, components[0], 0);
                    let down = chain.push(chain.last().children@[at]);
                    assert forall|i: int| 0 < i < down.len() implies (#[trigger] down[i
                        - 1]).children@.contains(down[i]) by {
                        if i < chain.len() {
                            assert(chain[i - 1].children@.contains(chain[i]));
                        } else {
                            assert(down[i - 1] == chain.last());
                        }
                    }
                    lemma_walk_keeps_chain(root, down, components.drop_first());
                },
                None => {},
            }
        }
    }
}

/// The node that a path leads to is a node of the tree: a chain leads to it from `root`.
pub proof fn lemma_resolved_in_tree(
    root: SourcemapNode,
    file: Seq<char>,
    components: Seq<Seq<char>>,
)
    ensures
        resolved(root, file, components) matches Ok(node) ==> exists|chain: Seq<SourcemapNode>|
            #[trigger] is_chain(root, chain) && chain.last() == node,
{
    match anchor_chain(root, file, components) {
        Ok(start) => {
            lemma_locate_sound(root, file);
            lemma_walk_keeps_chain(root, start, components.drop_first());
            match walk(start, components.drop_first()) {
                Ok(reached) => {
                    assert(is_chain(root, reached) && reached.last() == reached.last());
                },
                Err(_) => {},
            }
        },
        Err(_) => {},
    }
}

/// The names of the nodes of `chain`, with a slash between each two.
fn chain_name(chain: &Vec<&SourcemapNode>) -> (text: String)
    ensures
        text@ == chain_text(nodes_of(chain@)),
{
    let mut names: Vec<String> = Vec::new();
    let mut i: usize = 0;
    while i < chain.len()
        invariant
            i <= chain.len(),
            names@.len() == i,
            forall|k: int| 0 <= k < i ==> names@[k]@ == chain@[k].name@,
        decreases chain.len() - i,
    {
        names.push(chain[i].name.clone());
        i += 1;
    }
    proof {
        assert(strings(names@) =~= chain_names(nodes_of(chain@)));
    }
    join(&names, "/")
}

/// The node that `components` name when they are read in the file
/// `requesting_file_path`. The first component says where to start: `script` at the node
/// that owns the file, `game` at `root`. Each further component moves from there:
/// `Parent` to the node above, any other to the first child of that name.
pub fn resolve<'a>(
    root: &'a SourcemapNode,
    requesting_file_path: &str,
    components: &Vec<String>,
) -> (target: Result<&'a SourcemapNode, LinkError>)
    ensures
        match target {
            Ok(node) => resolved(*root, requesting_file_path@, strings(components@)) == Ok::<
                SourcemapNode,
                LinkErrorView,
            >(*node),
            Err(error) => resolved(*root, requesting_file_path@, strings(components@)) == Err::<
                SourcemapNode,
                LinkErrorView,
            >(error@),
        },
        target matches Ok(node) ==> exists|chain: Seq<SourcemapNode>| #[trigger]
            is_chain(*root, chain) && chain.last() == *node,
{
    let ghost names = strings(components@);
    proof {
        lemma_resolved_in_tree(*root, requesting_file_path@, names);
    }
    if components.len() == 0 {
        return Err(LinkError::UnsupportedAnchor { anchor: String::new() });
    }
    let mut chain: Vec<&'a SourcemapNode> = if str_eq(components[0].as_str(), "script") {
        match find_node(root, String::from_str(requesting_file_path)) {
            Some(chain) => chain,
            None => {
                return Err(LinkError::NotFound { path: String::from_str(requesting_file_path) });
            },
        }
    } else if str_eq(components[0].as_str(), "game") {
        let mut chain: Vec<&'a SourcemapNode> = Vec::new();
        chain.push(root);
        proof {
            assert(nodes_of(chain@) =~= seq![*root]);
        }
        chain
    } else {
        return Err(LinkError::UnsupportedAnchor { anchor: components[0].clone() });
    };
    let ghost start = nodes_of(chain@);
    let mut i: usize = 1;
    proof {
        assert(names.drop_first() =~= names.skip(1));
    }
    while i < components.len()
        invariant
            1 <= i <= components.len(),
            names == strings(components@),
            chain@.len() >= 1,
            anchor_chain(*root, requesting_file_path@, names) == Ok::<
                Seq<SourcemapNode>,
                LinkErrorView,
            >(start),
            walk(start, names.drop_first()) == walk(nodes_of(chain@), names.skip(i as int)),
        decreases components.len() - i,
    {
        let ghost before = nodes_of(chain@);
        proof {
            assert(names.skip(i as int).drop_first() =~= names.skip(i + 1));
            assert(names.skip(i as int)[0] == components@[i as int]@);
        }
        if str_eq(components[i].as_str(), "Parent") {
            if chain.len() <= 1 {
                return Err(LinkError::BrokenPath);
            }
            chain.pop();
            proof {
                assert(nodes_of(chain@) =~= before.drop_last());
            }
        } else {
            let tail: &'a SourcemapNode = chain[chain.len() - 1];
            match tail.find_child(components[i].clone()) {
                Some(child) => {
                    chain.push(child);
                    proof {
                        assert(nodes_of(chain@) =~= before.push(*child));
                    }
                },
                None => {
                    return Err(
                        LinkError::UnresolvedChild {
                            chain: chain_name(&chain),
                            name: components[i].clone(),
                        },
                    );
                },
            }
        }
        i += 1;
    }
    proof {
        assert(names.skip(components@.len() as int) =~= Seq::<Seq<char>>::empty());
    }
    Ok(chain[chain.len() - 1])
}

/// The file of the module behind `node`: the first of its files, in the order of the
/// sourcemap, whose extension is `lua` or `luau`.
pub fn select_module_file(node: &SourcemapNode) -> (file: Result<&String, LinkError>)
    ensures
        match file {
            Ok(path) => module_file(*node) == Ok::<Seq<char>, LinkErrorView>(path@),
            Err(error) => module_file(*node) == Err::<Seq<char>, LinkErrorView>(error@),
        },
        match file {
            Ok(path) => exists|i: int|
                0 <= i < node.file_paths@.len() && node.file_paths@[i] == *path
                    && is_module_file(path@) && forall|j: int|
                    0 <= j < i ==> !is_module_file(node.file_paths@[j]@),
            Err(error) => forall|j: int|
                0 <= j < node.file_paths@.len() ==> !is_module_file(node.file_paths@[j]@),
        },
{
    let ghost paths = strings(node.file_paths@);
    let mut i: usize = 0;
    while i < node.file_paths.len()
        invariant
            i <= node.file_paths.len(),
            paths == strings(node.file_paths@),
            first_module_file_from(paths, 0) == first_module_file_from(paths, i as int),
        decreases node.file_paths.len() - i,
    {
        let path = &node.file_paths[i];
        if path_has_extension(path.as_str(), "lua") || path_has_extension(path.as_str(), "luau") {
            proof {
                lemma_first_module_file(paths, 0);
                assert(paths[i as int] == path@);
                assert forall|j: int| 0 <= j < i implies !is_module_file(
                    node.file_paths@[j]@,
                ) by {
                    assert(paths[j] == node.file_paths@[j]@);
                }
            }
            return Ok(path);
        }
        i += 1;
    }
    proof {
        lemma_first_module_file(paths, 0);
        assert forall|j: int| 0 <= j < node.file_paths@.len() implies !is_module_file(
            node.file_paths@[j]@,
        ) by {
            assert(paths[j] == node.file_paths@[j]@);
        }
    }
    Err(LinkError::NoModuleFile { node: node.name.clone() })
}

/// `Parent` leaves the last node of a chain, and fails on a chain of one node: nothing is
/// above the node that the chain starts from.
pub proof fn lemma_parent_step(chain: Seq<SourcemapNode>, rest: Seq<Seq<char>>)
    ensures
        walk(chain, seq!["Parent"@] + rest) == if chain.len() <= 1 {
            Err::<Seq<SourcemapNode>, LinkErrorView>(LinkErrorView::BrokenPath)
        } else {
            walk(chain.drop_last(), rest)
        },
{
    let components = seq!["Parent"@] + rest;
    assert(components[0] == "Parent"@);
    assert(components.drop_first() =~= rest);
}

/// From a node two levels or more below the start of its chain, `Parent`, `Parent` and a
/// name lead to the first child of that name of the node two levels up.
pub proof fn lemma_grandparent_sibling(chain: Seq<SourcemapNode>, name: Seq<char>)
    requires
        chain.len() >= 3,
        name != "Parent"@,
    ensures
        walk(chain, seq!["Parent"@, "Parent"@, name]) == match first_named(
            chain[chain.len() - 3].children@,
            name,
        ) {
            Some(i) => Ok::<Seq<SourcemapNode>, LinkErrorView>(
                chain.take(chain.len() - 2).push(chain[chain.len() - 3].children@[i]),
            ),
            None => Err::<Seq<SourcemapNode>, LinkErrorView>(
                LinkErrorView::UnresolvedChild {
                    chain: chain_text(chain.take(chain.len() - 2)),
                    name,
                },
            ),
        },
{
    let up = chain.take(chain.len() - 2);
    assert(seq!["Parent"@, "Parent"@, name] =~= seq!["Parent"@] + seq!["Parent"@, name]);
    lemma_parent_step(chain, seq!["Parent"@, name]);
    assert(seq!["Parent"@, name] =~= seq!["Parent"@] + seq![name]);
    lemma_parent_step(chain.drop_last(), seq![name]);
    assert(chain.drop_last().drop_last() =~= up);
    assert(up.last() == chain[chain.len() - 3]);
    let last = seq![name];
    assert(last[0] == name);
    assert(last.drop_first() =~= Seq::<Seq<char>>::empty());
    match first_named(up.last().children@, name) {
        Some(i) => {
            assert(walk(up.push(up.last().children@[i]), last.drop_first()) == Ok::<
                Seq<SourcemapNode>,
                LinkErrorView,
            >(up.push(up.last().children@[i])));
        },
        None => {},
    }
}

/// A path that goes up from the root fails, whatever follows.
pub proof fn lemma_parent_of_root(root: SourcemapNode, file: Seq<char>, rest: Seq<Seq<char>>)
    ensures
        resolved(root, file, seq!["game"@, "Parent"@] + rest) == Err::<
            SourcemapNode,
            LinkErrorView,
        >(LinkErrorView::BrokenPath),
{
    let components = seq!["game"@, "Parent"@] + rest;
    reveal_strlit("game");
    reveal_strlit("script");
    assert("game"@.len() != "script"@.len());
    assert(components[0] == "game"@);
    assert(components.drop_first() =~= seq!["Parent"@] + rest);
    lemma_parent_step(seq![root], rest);
}

} // verus!
