use plugin_reloader::path_resolver::{chars_of, plugin_name, plugin_url};
use plugin_reloader::text::decimal_string;
use std::path::{Component, Path, PathBuf};

fn name_by_std(dir: &str) -> Option<String> {
    match Path::new(dir).components().last() {
        Some(Component::Normal(name)) => name.to_str().map(|n| n.to_owned()),
        _ => None,
    }
}

fn url_by_std(dir: &str) -> Option<String> {
    let name = name_by_std(dir)?;
    let mut path = PathBuf::from(dir);
    path.extend(PathBuf::from(format!("target/wasm32-wasi/debug/{}.wasm", name)).components());
    Some(format!("file:{}", path.display()))
}

#[test]
fn name_is_the_last_component() {
    assert_eq!(plugin_name("/home/u/myplug"), Some("myplug".to_owned()));
    assert_eq!(plugin_name("myplug"), Some("myplug".to_owned()));
    assert_eq!(plugin_name("a/b"), Some("b".to_owned()));
}

#[test]
fn url_lies_in_the_build_output_directory() {
    assert_eq!(
        plugin_url("/home/u/myplug"),
        Some("file:/home/u/myplug/target/wasm32-wasi/debug/myplug.wasm".to_owned())
    );
    assert_eq!(
        plugin_url("plug"),
        Some("file:plug/target/wasm32-wasi/debug/plug.wasm".to_owned())
    );
}

#[test]
fn trailing_separator_is_not_doubled() {
    assert_eq!(plugin_name("/home/u/myplug/"), Some("myplug".to_owned()));
    assert_eq!(
        plugin_url("/home/u/myplug/"),
        Some("file:/home/u/myplug/target/wasm32-wasi/debug/myplug.wasm".to_owned())
    );
    assert_eq!(
        plugin_url("/home/u/myplug//"),
        Some("file:/home/u/myplug//target/wasm32-wasi/debug/myplug.wasm".to_owned())
    );
}

#[test]
fn empty_and_current_components_are_skipped() {
    assert_eq!(plugin_name("a//b//"), Some("b".to_owned()));
    assert_eq!(plugin_name("a/b/."), Some("b".to_owned()));
    assert_eq!(plugin_name("a/./"), Some("a".to_owned()));
    assert_eq!(
        plugin_url("a/b/."),
        Some("file:a/b/./target/wasm32-wasi/debug/b.wasm".to_owned())
    );
}

#[test]
fn directory_without_a_name_has_neither() {
    for dir in ["", "/", "//", ".", "./", "..", "../", "a/..", "/..", "a/b/../.", "/./."] {
        assert_eq!(plugin_name(dir), None, "{:?}", dir);
        assert_eq!(plugin_url(dir), None, "{:?}", dir);
    }
}

#[test]
fn names_that_only_look_special_are_names() {
    assert_eq!(plugin_name("..."), Some("...".to_owned()));
    assert_eq!(plugin_name("a/.b"), Some(".b".to_owned()));
    assert_eq!(plugin_name("a/b."), Some("b.".to_owned()));
    assert_eq!(plugin_name("/x/..y"), Some("..y".to_owned()));
}

#[test]
fn names_may_hold_any_characters() {
    assert_eq!(plugin_name("/home/ü/plügin"), Some("plügin".to_owned()));
    assert_eq!(
        plugin_url("/home/ü/plügin"),
        Some("file:/home/ü/plügin/target/wasm32-wasi/debug/plügin.wasm".to_owned())
    );
    assert_eq!(plugin_name("/a b/c d"), Some("c d".to_owned()));
}

#[test]
fn agrees_with_the_path_type_of_std() {
    let dirs = [
        "", "/", ".", "..", "a", "/a", "a/", "a/b", "/a/b/", "a//b", "a/./b", "a/b/.", "./a",
        "./", "../a", "a/..", "a/../b", "/..", "/.", "//a//", "a/b/c/d/e", "...", ".a", "a.",
        "/home/u/myplug", "/home/u/myplug/", "/home/u/my plug", "/tmp/x/./", "x/.//./",
        "/home/ü/plügin", "a/..b", "a/.. ", " ", "/ /",
    ];
    for dir in dirs {
        assert_eq!(plugin_name(dir), name_by_std(dir), "name of {:?}", dir);
        assert_eq!(plugin_url(dir), url_by_std(dir), "url of {:?}", dir);
    }
}

#[test]
fn characters_come_out_in_order() {
    assert_eq!(chars_of("a/ü"), vec!['a', '/', 'ü']);
    assert_eq!(chars_of(""), Vec::<char>::new());
}

#[test]
fn numbers_in_decimal() {
    assert_eq!(decimal_string(0), "0");
    assert_eq!(decimal_string(7), "7");
    assert_eq!(decimal_string(10), "10");
    assert_eq!(decimal_string(1234567890), "1234567890");
    assert_eq!(decimal_string(u32::MAX), "4294967295");
    for n in [1u32, 9, 11, 99, 100, 101, 65535, 1000000] {
        assert_eq!(decimal_string(n), n.to_string());
    }
}
