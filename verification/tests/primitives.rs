//! Unit tests for the user-set and name-keyed map primitives.

use task_lifecycle::errors::TaskError;
use task_lifecycle::files::{OutputFile, TaskFileOwners, TaskFiles};
use task_lifecycle::named_map::{list_contains, NamedMap};
use task_lifecycle::users::UserList;

fn users(names: &[&str]) -> UserList {
    let mut l = UserList::new();
    for n in names {
        l.insert((*n).to_owned());
    }
    l
}

#[test]
fn user_list_is_a_set() {
    let mut l = users(&["alice", "bob"]);
    assert_eq!(l.len(), 2);
    l.insert("alice".to_owned());
    assert_eq!(l.len(), 2);
    assert!(l.contains(&"alice".to_owned()));
    assert!(!l.contains(&"charlie".to_owned()));
}

#[test]
fn user_list_equality_ignores_order() {
    let a = users(&["alice", "bob"]);
    let b = users(&["bob", "alice"]);
    assert!(a.set_eq(&b));
    assert!(!a.set_eq(&users(&["alice"])));
}

#[test]
fn user_list_union() {
    let mut a = users(&["alice"]);
    a.union_with(&users(&["bob", "alice"]));
    assert!(a.set_eq(&users(&["alice", "bob"])));
    assert_eq!(a.len(), 2);
}

#[test]
fn named_map_single_assignment() {
    let mut m: NamedMap<String> = NamedMap::new();
    assert!(m.assign("x".to_owned(), "1".to_owned()).is_ok());
    let e = m.assign("x".to_owned(), "2".to_owned()).err().unwrap();
    assert_eq!(e, TaskError::AlreadyAssigned);
    assert_eq!(e.message(), "parameter name is already assigned");
    assert!(m.contains_key(&"x".to_owned()));
    assert_eq!(m.get(&"x".to_owned()).unwrap(), "1");
    assert!(m.get(&"y".to_owned()).is_none());
}

#[test]
fn named_map_key_listing() {
    let mut m: NamedMap<String> = NamedMap::new();
    m.assign("a".to_owned(), "1".to_owned()).unwrap();
    m.assign("b".to_owned(), "2".to_owned()).unwrap();
    let list = vec!["b".to_owned(), "a".to_owned()];
    assert!(m.keys_match_list(&list));
    assert!(!m.keys_match_list(&vec!["a".to_owned()]));
    assert!(list_contains(&list, &"a".to_owned()));
    assert!(!list_contains(&list, &"c".to_owned()));
}

#[test]
fn owners_check_compares_sets() {
    let mut decl = TaskFileOwners::new();
    decl.assign("in".to_owned(), users(&["alice", "bob"])).unwrap();
    assert!(decl.check(&"in".to_owned(), &users(&["bob", "alice"])).is_ok());
    let e = decl.check(&"in".to_owned(), &users(&["alice"])).err().unwrap();
    assert_eq!(e, TaskError::OwnerMismatch);
    assert_eq!(e.message(), "file owners do not match the declared owners");
    let e = decl.check(&"missing".to_owned(), &users(&["alice"])).err().unwrap();
    assert_eq!(e, TaskError::UnknownName);
}

#[test]
fn all_owners_unions_every_declared_set() {
    let mut decl = TaskFileOwners::new();
    decl.assign("a".to_owned(), users(&["alice", "bob"])).unwrap();
    decl.assign("b".to_owned(), users(&["charlie"])).unwrap();
    let all = decl.all_owners();
    assert!(all.set_eq(&users(&["alice", "bob", "charlie"])));
}

#[test]
fn update_cmac_attaches_tag() {
    let mut files: TaskFiles<OutputFile> = NamedMap::new();
    files
        .assign(
            "out".to_owned(),
            OutputFile { external_id: "output-1".to_owned(), owner: users(&["alice"]), cmac: None },
        )
        .unwrap();
    files.update_cmac(&"out".to_owned(), &vec![1, 2, 3]).unwrap();
    let f = files.get(&"out".to_owned()).unwrap();
    assert_eq!(f.cmac.as_ref().unwrap(), &vec![1, 2, 3]);
    let e = files.update_cmac(&"other".to_owned(), &vec![1]).err().unwrap();
    assert_eq!(e, TaskError::UnknownName);
}

#[test]
fn key_prefix_is_stable() {
    assert_eq!(task_lifecycle::task_state::TaskState::key_prefix(), "task");
}
