use processor::paths::{chars_of, extension_of, join};
use std::path::Path;

fn std_extension(path: &str) -> Option<String> {
    Path::new(path).extension().map(|e| e.to_str().unwrap().to_string())
}

fn std_join(base: &str, name: &str) -> String {
    Path::new(base).join(name).to_str().unwrap().to_string()
}

#[test]
fn chars_of_keeps_every_character() {
    assert_eq!(chars_of("a/é.py"), vec!['a', '/', 'é', '.', 'p', 'y']);
    assert_eq!(chars_of(""), Vec::<char>::new());
}

#[test]
fn extension_of_a_file() {
    assert_eq!(extension_of("module.wasm"), Some("wasm".to_string()));
    assert_eq!(extension_of("/tmp/work/app.tar.gz"), Some("gz".to_string()));
    assert_eq!(extension_of("relative/dir/script.PY"), Some("PY".to_string()));
}

#[test]
fn extension_of_a_path_without_one() {
    assert_eq!(extension_of("project"), None);
    assert_eq!(extension_of("/home/user/project"), None);
    assert_eq!(extension_of(""), None);
    assert_eq!(extension_of("/"), None);
    assert_eq!(extension_of("."), None);
    assert_eq!(extension_of(".."), None);
    assert_eq!(extension_of("a.wasm/.."), None);
}

#[test]
fn extension_of_a_name_with_a_leading_dot() {
    assert_eq!(extension_of(".bashrc"), None);
    assert_eq!(extension_of("dir/.hidden"), None);
    assert_eq!(extension_of(".hidden.txt"), Some("txt".to_string()));
}

#[test]
fn extension_of_a_name_that_ends_in_a_dot() {
    assert_eq!(extension_of("name."), Some("".to_string()));
    assert_eq!(extension_of("..."), Some("".to_string()));
}

#[test]
fn extension_ignores_trailing_separators_and_dots() {
    assert_eq!(extension_of("a.wasm/"), Some("wasm".to_string()));
    assert_eq!(extension_of("a.wasm///"), Some("wasm".to_string()));
    assert_eq!(extension_of("a.wasm/."), Some("wasm".to_string()));
    assert_eq!(extension_of("a.wasm/./"), Some("wasm".to_string()));
    assert_eq!(extension_of("project/"), None);
}

#[test]
fn extension_ignores_blank_steps_inside() {
    assert_eq!(extension_of("a//b.js"), extension_of("a/b.js"));
    assert_eq!(extension_of("a/./b.js"), extension_of("a/b.js"));
    assert_eq!(extension_of("a/./b.js"), Some("js".to_string()));
    assert_eq!(extension_of("x.d//y"), None);
}

#[test]
fn extension_agrees_with_the_standard_library() {
    let samples = [
        "", "/", ".", "..", "./", "./.", "a", "a.b", "a.b.c", ".a", ".a.b", "a.", "..a", "...",
        "a/b", "a/b.c", "a.b/c", "a.b/", "a.b//", "a.b/.", "a.b/..", "a.b/./", "/a.b", "/a.b/",
        "//a.b", "a//b.c", "a/./b.c", "./a.b", "../a.b", "a/..", "a/../b.c", "dir.d/.hid",
        "dir/.hid.e", "x.wasm", "X.WASM", "é.ü", "a b.c d", "a.b/c.d/e.f", "a/.", "a/./.",
    ];
    for sample in samples {
        assert_eq!(extension_of(sample), std_extension(sample), "{:?}", sample);
    }
}

#[test]
fn join_appends_after_a_separator() {
    assert_eq!(join("/tmp", "work"), "/tmp/work");
    assert_eq!(join("/tmp/", "work"), "/tmp/work");
    assert_eq!(join("a/b", "c/d"), "a/b/c/d");
}

#[test]
fn join_with_an_empty_side() {
    assert_eq!(join("", "work"), "work");
    assert_eq!(join("/tmp", ""), "/tmp/");
    assert_eq!(join("/tmp/", ""), "/tmp/");
    assert_eq!(join("", ""), "");
}

#[test]
fn join_lets_an_absolute_name_stand_alone() {
    assert_eq!(join("/tmp", "/etc/passwd"), "/etc/passwd");
    assert_eq!(join("", "/"), "/");
}

#[test]
fn join_agrees_with_the_standard_library() {
    let bases = ["", "/", "a", "a/", "/a/b", "/a/b/", "./a", "é"];
    let names = ["", "x", "x/y", "/x", "/", ".", "..", "x.y"];
    for base in bases {
        for name in names {
            assert_eq!(join(base, name), std_join(base, name), "{:?} {:?}", base, name);
        }
    }
}
