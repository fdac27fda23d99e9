use wally_package_types::text::{
    char_is_whitespace, contains_string, copy_strings, join, path_has_extension, str_eq, trim,
};

#[test]
fn white_space_is_what_std_takes_for_it() {
    for code in 0..=0x10FFFFu32 {
        if let Some(c) = char::from_u32(code) {
            assert_eq!(char_is_whitespace(c), c.is_whitespace(), "U+{:04X}", code);
        }
    }
}

#[test]
fn trim_is_what_std_does() {
    for s in [
        "",
        " ",
        "a",
        "  a  ",
        "\t\n a b \r\n",
        "\u{a0}x\u{3000}",
        "--[[c]] name ",
        " \u{2003}é\u{2003} ",
        "no margin",
        "\n\n\n",
    ] {
        assert_eq!(trim(s), s.trim(), "{:?}", s);
    }
    assert_eq!(trim("  Example "), "Example");
}

#[test]
fn join_puts_the_separator_between() {
    let none: Vec<String> = vec![];
    assert_eq!(join(&none, "/"), "");
    assert_eq!(join(&vec!["root".to_string()], "/"), "root");
    assert_eq!(
        join(&vec!["root".to_string(), "Packages".to_string(), "".to_string(), "x".to_string()], "/"),
        "root/Packages//x"
    );
    assert_eq!(join(&vec!["a".to_string(), "b".to_string()], ", "), "a, b");
}

#[test]
fn strings_are_found_and_copied() {
    let v = vec!["any".to_string(), "Action".to_string()];
    assert!(contains_string(&v, &"Action".to_string()));
    assert!(!contains_string(&v, &"action".to_string()));
    assert!(!contains_string(&vec![], &"".to_string()));
    assert_eq!(copy_strings(&v), v);
    assert!(str_eq("Parent", "Parent"));
    assert!(!str_eq("Parent", "parent"));
    assert!(!str_eq("Parent", "Parent "));
}

#[test]
fn extensions_are_read_as_std_reads_them() {
    for path in [
        "/a/b/module.lua",
        "/a/b/module.luau",
        "/a/b/module.server.lua",
        "/a/b/.lua",
        "/a/b/..lua",
        "/a/b/lua",
        "/a/b.lua/module",
        "module.lua",
        ".lua",
        "a.lua",
        "/a/b/module.LUA",
        "/a/b/module.lua ",
        "/a/b/module.json",
        "/a/b/init.meta.json",
        "",
        ".",
        "x.",
        "é.lua",
        "/a/b/xlua",
    ] {
        let extension = std::path::Path::new(path).extension().and_then(|e| e.to_str());
        assert_eq!(path_has_extension(path, "lua"), extension == Some("lua"), "{:?}", path);
        assert_eq!(path_has_extension(path, "luau"), extension == Some("luau"), "{:?}", path);
    }
    assert!(path_has_extension("C:\\a\\module.lua", "lua"));
    assert!(!path_has_extension("C:\\a\\.lua", "lua"));
    assert!(path_has_extension("a.", ""));
    assert!(!path_has_extension("a.b.c", "b.c"));
    assert!(path_has_extension("a.b.c", "c"));
}
