use join_my_ride::url::Url;

fn read_all(url: &mut Url) -> Vec<String> {
    let mut parts = vec![];
    while let Some(part) = url.next_path_part() {
        parts.push(part.to_owned());
    }
    parts
}

#[test]
fn a_new_url_has_no_parts() {
    let mut url = Url::new();
    assert_eq!(url.next_path_part(), None);
    assert_eq!(url.next_path_part(), None);
    assert_eq!(url.to_string(), "");
}

#[test]
fn parts_are_read_in_order_and_once() {
    let mut url = Url::from_str("/event/1234").unwrap();
    assert_eq!(url.next_path_part(), Some("event"));
    assert_eq!(url.next_path_part(), Some("1234"));
    assert_eq!(url.next_path_part(), None);
    assert_eq!(url.next_path_part(), None);
}

#[test]
fn empty_parts_are_left_out() {
    assert_eq!(read_all(&mut Url::from_str("").unwrap()), Vec::<String>::new());
    assert_eq!(read_all(&mut Url::from_str("/").unwrap()), Vec::<String>::new());
    assert_eq!(read_all(&mut Url::from_str("///").unwrap()), Vec::<String>::new());
    assert_eq!(read_all(&mut Url::from_str("login").unwrap()), vec!["login"]);
    assert_eq!(read_all(&mut Url::from_str("//a///bc/").unwrap()), vec!["a", "bc"]);
    assert_eq!(read_all(&mut Url::from_str("a/b/c").unwrap()), vec!["a", "b", "c"]);
    assert_eq!(read_all(&mut Url::from_str("/é/ü x").unwrap()), vec!["é", "ü x"]);
}

#[test]
fn text_has_a_slash_between_parts() {
    assert_eq!(Url::from_str("/event/1234/").unwrap().to_string(), "event/1234");
    assert_eq!(Url::from_str("login").unwrap().to_string(), "login");
    assert_eq!(Url::from_str("//").unwrap().to_string(), "");
}

#[test]
fn text_does_not_depend_on_what_was_read() {
    let mut url = Url::from_str("/a/b").unwrap();
    assert_eq!(url.next_path_part(), Some("a"));
    assert_eq!(url.to_string(), "a/b");
}

#[test]
fn a_copy_has_read_as_far_as_its_source() {
    let mut url = Url::from_str("/a/b/c").unwrap();
    assert_eq!(url.next_path_part(), Some("a"));
    let mut copy = url.duplicate();
    assert_eq!(copy.next_path_part(), Some("b"));
    assert_eq!(url.next_path_part(), Some("b"));
    assert_eq!(url.next_path_part(), Some("c"));
    assert_eq!(copy.next_path_part(), Some("c"));
    assert_eq!(copy.next_path_part(), None);
}

#[test]
fn reading_a_url_from_its_text_starts_over() {
    let mut url = Url::from_str("/a/b").unwrap();
    assert_eq!(url.next_path_part(), Some("a"));
    let mut again = Url::from_str(&url.to_string()).unwrap();
    assert_eq!(read_all(&mut again), vec!["a", "b"]);
}
