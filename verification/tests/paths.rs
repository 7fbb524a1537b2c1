use wave::error::RuntimeError;
use wave::path::{
    finish_path, get_components, is_relative, join_components, min_depth, OwnedComponent, OwnedComponents, PathExpander,
    MAXSYMLINKS,
};
use wave::types::PATH_MAX;

fn normal(s: &str) -> OwnedComponent {
    OwnedComponent::Normal(s.as_bytes().to_vec())
}

#[test]
fn components_of_an_absolute_path() {
    assert_eq!(
        get_components(b"/a//b/./c"),
        vec![OwnedComponent::RootDir, normal("a"), normal("b"), normal("c")]
    );
}

#[test]
fn components_of_relative_paths() {
    assert_eq!(get_components(b"./x/.."), vec![OwnedComponent::CurDir, normal("x"), OwnedComponent::ParentDir]);
    assert_eq!(get_components(b"a/b/"), vec![normal("a"), normal("b")]);
    assert_eq!(get_components(b""), Vec::<OwnedComponent>::new());
    assert_eq!(get_components(b"."), vec![OwnedComponent::CurDir]);
}

#[test]
fn join_spells_the_components() {
    let cs = vec![normal("a"), OwnedComponent::ParentDir, normal("b")];
    assert_eq!(join_components(&cs), b"a/../b".to_vec());
    assert_eq!(join_components(&get_components(b"./x/y")), b"./x/y".to_vec());
    assert_eq!(join_components(&get_components(b"/x")), b"/x".to_vec());
}

#[test]
fn depth_of_paths() {
    assert_eq!(min_depth(&get_components(b"a/../b")), 1);
    assert_eq!(min_depth(&get_components(b"a/b/c")), 3);
    assert_eq!(min_depth(&get_components(b"a/../..")), -1);
    assert_eq!(min_depth(&get_components(b"a/../../b")), -1);
    assert_eq!(min_depth(&get_components(b"/a")), i32::MIN as isize);
    assert_eq!(min_depth(&vec![normal("a"), OwnedComponent::RootDir]), i32::MIN as isize);
    assert!(is_relative(&get_components(b"a")));
    assert!(!is_relative(&get_components(b"/a")));
}

#[test]
fn sandboxed_path_is_padded() {
    let p = finish_path(get_components(b"a/b")).ok().unwrap();
    let bytes = p.as_bytes();
    assert_eq!(bytes.len(), PATH_MAX);
    assert_eq!(&bytes[..3], b"a/b");
    assert!(bytes[3..].iter().all(|b| *b == 0));
}

#[test]
fn escaping_paths_are_refused() {
    assert_eq!(finish_path(get_components(b"/etc/passwd")).err(), Some(RuntimeError::Enotcapable));
    assert_eq!(finish_path(get_components(b"../x")).err(), Some(RuntimeError::Enotcapable));
    assert_eq!(finish_path(get_components(b"a/../../x")).err(), Some(RuntimeError::Enotcapable));
    assert_eq!(finish_path(get_components(b"")).err(), Some(RuntimeError::Enotcapable));
}

#[test]
fn long_paths_are_refused() {
    let long = "ab/".repeat(1400);
    assert_eq!(finish_path(get_components(long.as_bytes())).err(), Some(RuntimeError::Enametoolong));
}

#[test]
fn resolution_without_links_keeps_the_components() {
    let mut e = PathExpander::new(b"a/b", true);
    assert_eq!(e.next_query(), Some(b"a".to_vec()));
    e.answer(None);
    assert_eq!(e.next_query(), Some(b"a/b".to_vec()));
    e.answer(None);
    assert_eq!(e.next_query(), None);
    assert_eq!(e.finish(), Ok(vec![normal("a"), normal("b")]));
}

#[test]
fn resolution_expands_a_link() {
    let mut e = PathExpander::new(b"link/c", true);
    assert_eq!(e.next_query(), Some(b"link".to_vec()));
    e.answer(Some(b"d".to_vec()));
    assert_eq!(e.next_query(), Some(b"d".to_vec()));
    e.answer(None);
    assert_eq!(e.next_query(), Some(b"d/c".to_vec()));
    e.answer(None);
    assert_eq!(e.next_query(), None);
    assert_eq!(e.finish(), Ok(vec![normal("d"), normal("c")]));
}

#[test]
fn last_component_not_followed() {
    let mut e = PathExpander::new(b"a/l", false);
    assert_eq!(e.next_query(), Some(b"a".to_vec()));
    e.answer(None);
    assert_eq!(e.next_query(), None);
    assert_eq!(e.finish(), Ok(vec![normal("a"), normal("l")]));
}

#[test]
fn link_loops_fail() {
    let mut e = PathExpander::new(b"l", true);
    let mut answered = 0;
    while let Some(q) = e.next_query() {
        assert_eq!(q, b"l".to_vec());
        e.answer(Some(b"l".to_vec()));
        answered += 1;
    }
    assert_eq!(answered, MAXSYMLINKS);
    assert_eq!(e.finish(), Err(RuntimeError::Eloop));
}

#[test]
fn owned_components_push_pop_lookup() {
    let mut oc = OwnedComponents::new();
    assert_eq!(oc.len(), 0);
    assert_eq!(oc.pop(), None);
    oc.push(normal("a"));
    oc.push(OwnedComponent::ParentDir);
    oc.push(normal("b"));
    assert_eq!(oc.len(), 3);
    assert_eq!(oc.lookup(1), OwnedComponent::ParentDir);
    assert_eq!(oc.as_pathbuf(), b"a/../b".to_vec());
    assert_eq!(oc.pop(), Some(normal("b")));
    assert_eq!(oc.len(), 2);
}

#[test]
fn owned_components_parse_and_unparse() {
    let oc = OwnedComponents::parse(b"/x//y/./z/");
    assert_eq!(oc.inner, vec![OwnedComponent::RootDir, normal("x"), normal("y"), normal("z")]);
    assert_eq!(oc.as_pathbuf(), b"/x/y/z".to_vec());
    let p = oc.unparse().unwrap();
    assert_eq!(p.as_bytes().len(), PATH_MAX);
    assert_eq!(&p.as_bytes()[..7], b"/x/y/z\0");
    let long = vec![b'q'; PATH_MAX];
    assert!(OwnedComponents::parse(&long).unparse().is_none());
}

#[test]
fn component_text() {
    assert_eq!(OwnedComponent::RootDir.as_os_string(), b"/".to_vec());
    assert_eq!(OwnedComponent::CurDir.as_os_string(), b".".to_vec());
    assert_eq!(OwnedComponent::ParentDir.as_os_string(), b"..".to_vec());
    assert_eq!(normal("abc").as_os_string(), b"abc".to_vec());
}
