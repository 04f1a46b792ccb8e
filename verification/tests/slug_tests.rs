use blog_posts::models::Post;

#[test]
fn slugify_replaces_spaces_and_lowercases() {
    let s = Post::slugify(&String::from("Hello World"));
    assert_eq!(s, "hellotoworld");
}

#[test]
fn slugify_empty_title() {
    let s = Post::slugify(&String::from(""));
    assert_eq!(s, "");
}

#[test]
fn slugify_no_spaces_only_case_folds() {
    let s = Post::slugify(&String::from("ABC"));
    assert_eq!(s, "abc");
}

#[test]
fn slugify_fixed_point_when_lowercase_without_spaces() {
    let s = Post::slugify(&String::from("hellotoworld"));
    assert_eq!(s, "hellotoworld");
}

#[test]
fn slugify_not_fixed_point_with_uppercase() {
    let s = Post::slugify(&String::from("Hello"));
    assert_ne!(s, "Hello");
    assert_eq!(s, "hello");
}

#[test]
fn slugify_several_spaces() {
    let s = Post::slugify(&String::from("Tango Down Now"));
    assert_eq!(s, "tangotodowntonow");
}

#[test]
fn slugify_applied_twice_stabilizes() {
    let once = Post::slugify(&String::from("Hello World"));
    let twice = Post::slugify(&once);
    assert_eq!(once, twice);
}
