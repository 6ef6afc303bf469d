use python_backend::paths::{copy_names, is_listed, join_names, Location};

fn names(items: &[&str]) -> Vec<String> {
    items.iter().map(|s| s.to_string()).collect()
}

fn abs(items: &[&str]) -> Location {
    Location { anchor: Some("/".to_string()), names: names(items) }
}

fn rel(items: &[&str]) -> Location {
    Location { anchor: None, names: names(items) }
}

#[test]
fn relative_has_no_anchor() {
    assert_eq!(Location::relative(names(&["a", "b"])), rel(&["a", "b"]));
    assert_eq!(Location::relative(Vec::new()), rel(&[]));
}

#[test]
fn duplicate_is_equal() {
    assert_eq!(abs(&["usr", "bin"]).duplicate(), abs(&["usr", "bin"]));
    assert_eq!(rel(&[]).duplicate(), rel(&[]));
}

#[test]
fn child_adds_one_name() {
    assert_eq!(abs(&["usr"]).child("bin"), abs(&["usr", "bin"]));
    assert_eq!(rel(&[]).child("python3"), rel(&["python3"]));
}

#[test]
fn descend_adds_the_names_in_order() {
    assert_eq!(abs(&["app"]).descend(&vec!["backend", "main.py"]), abs(&["app", "backend", "main.py"]));
    assert_eq!(abs(&["app"]).descend(&Vec::new()), abs(&["app"]));
    assert_eq!(rel(&[]).descend(&vec!["x"]), rel(&["x"]));
}

#[test]
fn parent_drops_the_last_name() {
    assert_eq!(abs(&["usr", "bin"]).parent(), Some(abs(&["usr"])));
    assert_eq!(abs(&["usr"]).parent(), Some(abs(&[])));
    assert_eq!(rel(&["python3"]).parent(), Some(rel(&[])));
}

#[test]
fn parent_of_a_root_or_of_nothing_is_none() {
    assert_eq!(abs(&[]).parent(), None);
    assert_eq!(rel(&[]).parent(), None);
}

#[test]
fn is_named_looks_at_the_last_name_only() {
    assert!(abs(&["opt", "bin"]).is_named("bin"));
    assert!(!abs(&["bin", "opt"]).is_named("bin"));
    assert!(!abs(&["opt", "Bin"]).is_named("bin"));
    assert!(!abs(&[]).is_named("bin"));
    assert!(!rel(&[]).is_named(""));
}

#[test]
fn same_agrees_part_for_part() {
    assert!(abs(&["a", "b"]).same(&abs(&["a", "b"])));
    assert!(!abs(&["a", "b"]).same(&rel(&["a", "b"])));
    assert!(!abs(&["a", "b"]).same(&abs(&["a"])));
    assert!(!abs(&["a"]).same(&abs(&["a", "b"])));
    assert!(!abs(&["a", "b"]).same(&abs(&["a", "c"])));
    assert!(!abs(&["a", "b"]).same(&abs(&["c", "b"])));
    assert!(rel(&[]).same(&rel(&[])));
    let drive = Location { anchor: Some("C:\\".to_string()), names: names(&["a"]) };
    assert!(!drive.same(&abs(&["a"])));
    assert!(drive.same(&drive.duplicate()));
}

#[test]
fn display_joins_with_slashes() {
    assert_eq!(abs(&["usr", "bin", "python3"]).display(), "/usr/bin/python3");
    assert_eq!(rel(&["backend", "main.py"]).display(), "backend/main.py");
    assert_eq!(abs(&[]).display(), "/");
    assert_eq!(rel(&[]).display(), "");
    assert_eq!(rel(&["python3"]).display(), "python3");
}

#[test]
fn join_names_puts_the_separator_between() {
    assert_eq!(join_names(&names(&["a", "b", "c"]), ", "), "a, b, c");
    assert_eq!(join_names(&names(&["a"]), ", "), "a");
    assert_eq!(join_names(&names(&[]), ", "), "");
    assert_eq!(join_names(&names(&["", ""]), "/"), "/");
    assert_eq!(join_names(&names(&["a", "b"]), ""), "ab");
}

#[test]
fn copy_names_is_equal() {
    assert_eq!(copy_names(&names(&["x", "y"])), names(&["x", "y"]));
    assert_eq!(copy_names(&Vec::new()), Vec::<String>::new());
}

#[test]
fn is_listed_finds_equal_locations() {
    let list = vec![abs(&["a"]), rel(&["b"]), abs(&["c", "d"])];
    assert!(is_listed(&list, &abs(&["a"])));
    assert!(is_listed(&list, &rel(&["b"])));
    assert!(is_listed(&list, &abs(&["c", "d"])));
    assert!(!is_listed(&list, &rel(&["a"])));
    assert!(!is_listed(&list, &abs(&["c"])));
    assert!(!is_listed(&Vec::new(), &abs(&["a"])));
}
