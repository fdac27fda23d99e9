use std::path::Path;
use wally_package_types::error::LinkError;
use wally_package_types::sourcemap::{
    file_paths, mutate_sourcemap, replace_file_paths, SourcemapNode,
};

fn node(name: &str, file_paths: Vec<&str>, children: Vec<SourcemapNode>) -> SourcemapNode {
    SourcemapNode {
        name: name.to_string(),
        class_name: "ModuleScript".to_string(),
        file_paths: file_paths.into_iter().map(String::from).collect(),
        children,
    }
}

#[test]
fn find_child_takes_the_first_of_a_name() {
    let first = node("Twin", vec!["/first.lua"], vec![]);
    let second = node("Twin", vec!["/second.lua"], vec![]);
    let root = node("root", vec![], vec![node("Other", vec![], vec![]), first, second]);
    let found = root.find_child("Twin".to_string()).unwrap();
    assert_eq!(found.file_paths, vec!["/first.lua".to_string()]);
    assert!(root.find_child("Missing".to_string()).is_none());
    assert!(root.find_child("twin".to_string()).is_none());
    assert!(node("leaf", vec![], vec![]).find_child("Twin".to_string()).is_none());
}

fn sample() -> SourcemapNode {
    node(
        "root",
        vec!["r1", "r2"],
        vec![
            node("a", vec!["a1"], vec![node("deep", vec!["d1", "d2"], vec![])]),
            node("b", vec![], vec![]),
            node("c", vec!["c1"], vec![]),
        ],
    )
}

fn forms(list: Vec<Option<&str>>) -> Vec<Result<String, String>> {
    list.into_iter()
        .map(|form| form.map(String::from).ok_or("No such file or directory".to_string()))
        .collect()
}

#[test]
fn mutate_sourcemap_gives_every_path_its_canonical_form() {
    let mut tree = sample();
    let canonical =
        forms(vec![Some("/R1"), Some("/R2"), Some("/A1"), Some("/D1"), Some("/D2"), Some("/C1")]);
    assert_eq!(mutate_sourcemap(&mut tree, &canonical), Ok(()));
    assert_eq!(tree.name, "root");
    assert_eq!(tree.class_name, "ModuleScript");
    assert_eq!(tree.file_paths, vec!["/R1", "/R2"]);
    assert_eq!(tree.children.len(), 3);
    assert_eq!(tree.children[0].name, "a");
    assert_eq!(tree.children[0].file_paths, vec!["/A1"]);
    assert_eq!(tree.children[0].children[0].name, "deep");
    assert_eq!(tree.children[0].children[0].file_paths, vec!["/D1", "/D2"]);
    assert!(tree.children[1].file_paths.is_empty());
    assert_eq!(tree.children[2].file_paths, vec!["/C1"]);
}

#[test]
fn mutate_sourcemap_with_real_paths() {
    let mut tree = node("root", vec!["/.", "."], vec![node("child", vec!["./."], vec![])]);
    let canonical: Vec<Result<String, String>> = file_paths(&tree)
        .iter()
        .map(|path| {
            Path::new(path)
                .canonicalize()
                .map(|found| found.to_str().unwrap().to_string())
                .map_err(|err| err.to_string())
        })
        .collect();
    assert_eq!(mutate_sourcemap(&mut tree, &canonical), Ok(()));
    let root = Path::new("/").canonicalize().unwrap().to_str().unwrap().to_string();
    let here = Path::new(".").canonicalize().unwrap().to_str().unwrap().to_string();
    assert_eq!(tree.file_paths, vec![root, here.clone()]);
    assert_eq!(tree.children[0].file_paths, vec![here]);
}

#[test]
fn mutate_sourcemap_fails_at_the_first_path_without_a_form() {
    let mut tree = sample();
    let canonical = forms(vec![Some("/R1"), Some("/R2"), None, Some("/D1"), None, Some("/C1")]);
    assert_eq!(
        mutate_sourcemap(&mut tree, &canonical),
        Err(LinkError::PathCanonicalization {
            path: "a1".to_string(),
            reason: "No such file or directory".to_string()
        })
    );
    assert_eq!(file_paths(&tree), vec!["r1", "r2", "a1", "d1", "d2", "c1"]);
    assert_eq!(tree.children[0].children[0].name, "deep");
}

#[test]
fn mutate_sourcemap_wants_a_form_for_every_path() {
    let mut tree = sample();
    let canonical = forms(vec![Some("/R1"), Some("/R2"), Some("/A1"), Some("/D1")]);
    assert_eq!(
        mutate_sourcemap(&mut tree, &canonical),
        Err(LinkError::PathCanonicalization { path: "d2".to_string(), reason: String::new() })
    );
    assert_eq!(mutate_sourcemap(&mut tree, &vec![]), Err(LinkError::PathCanonicalization { path: "r1".to_string(), reason: String::new() }));
    assert_eq!(file_paths(&tree), vec!["r1", "r2", "a1", "d1", "d2", "c1"]);
    let more = forms(vec![Some("1"), Some("2"), Some("3"), Some("4"), Some("5"), Some("6"), None, Some("8")]);
    assert_eq!(mutate_sourcemap(&mut tree, &more), Ok(()));
    assert_eq!(file_paths(&tree), vec!["1", "2", "3", "4", "5", "6"]);
    let mut leaf = node("leaf", vec![], vec![]);
    assert_eq!(mutate_sourcemap(&mut leaf, &vec![]), Ok(()));
}

#[test]
fn file_paths_are_listed_node_before_children() {
    let tree = node(
        "root",
        vec!["r1", "r2"],
        vec![
            node("a", vec!["a1"], vec![node("deep", vec!["d1", "d2"], vec![])]),
            node("b", vec![], vec![]),
            node("c", vec!["c1"], vec![]),
        ],
    );
    assert_eq!(file_paths(&tree), vec!["r1", "r2", "a1", "d1", "d2", "c1"]);
    assert!(file_paths(&node("leaf", vec![], vec![])).is_empty());
}

#[test]
fn replace_file_paths_puts_each_path_where_the_old_one_was() {
    let mut tree = node(
        "root",
        vec!["r1", "r2"],
        vec![
            node("a", vec!["a1"], vec![node("deep", vec!["d1", "d2"], vec![])]),
            node("b", vec![], vec![]),
            node("c", vec!["c1"], vec![]),
        ],
    );
    let new: Vec<String> = ["R1", "R2", "A1", "D1", "D2", "C1"].into_iter().map(String::from).collect();
    assert!(!replace_file_paths(&mut tree, &new[1..].to_vec()));
    assert!(!replace_file_paths(&mut tree, &vec![]));
    assert_eq!(file_paths(&tree), vec!["r1", "r2", "a1", "d1", "d2", "c1"]);
    assert!(replace_file_paths(&mut tree, &new));
    assert_eq!(file_paths(&tree), new);
    assert_eq!(tree.file_paths, vec!["R1", "R2"]);
    assert_eq!(tree.children[0].file_paths, vec!["A1"]);
    assert_eq!(tree.children[0].children[0].file_paths, vec!["D1", "D2"]);
    assert!(tree.children[1].file_paths.is_empty());
    assert_eq!(tree.children[2].file_paths, vec!["C1"]);
    assert_eq!(tree.children[2].name, "c");
}
