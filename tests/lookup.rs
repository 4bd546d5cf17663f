use isofs::{EntryInfo, EntryKind, FsError, PathComponent, Selected, Step, Walk};
use std::time::SystemTime;

fn entry(name: &str, kind: EntryKind, len: u64) -> Option<EntryInfo> {
    Some(EntryInfo {
        identifier: name.to_string(),
        kind,
        len,
        group: None,
        owner: None,
        modified: SystemTime::UNIX_EPOCH,
    })
}

fn normal(name: &str) -> PathComponent {
    PathComponent::Normal(name.to_string())
}

fn root_listing() -> Vec<Option<EntryInfo>> {
    vec![
        entry("README.TXT", EntryKind::File, 12),
        entry("DIR", EntryKind::Directory, 34),
        entry("LINK", EntryKind::Symlink, 40),
    ]
}

fn dir_listing() -> Vec<Option<EntryInfo>> {
    vec![None, entry("FILE.TXT", EntryKind::File, 5)]
}

/// Walks a path over a root holding README.TXT, DIR and LINK, where DIR
/// holds FILE.TXT; returns the entry's name, or the directory's name for a
/// path that ends on a directory.
fn resolve(components: Vec<PathComponent>) -> Result<String, FsError> {
    let mut walk = Walk::new(components);
    let mut current = String::from("/");
    loop {
        match walk.next_step()? {
            Step::Finished => return Ok(current),
            Step::Lookup => {}
        }
        let children = if current == "/" { root_listing() } else { dir_listing() };
        match walk.select(&children)? {
            Selected::Found(i) => return Ok(children[i].as_ref().unwrap().identifier.clone()),
            Selected::Descend(i) => current = children[i].as_ref().unwrap().identifier.clone(),
        }
    }
}

#[test]
fn root_path_names_root_directory() {
    assert_eq!(resolve(vec![PathComponent::Root]), Ok(String::from("/")));
}

#[test]
fn empty_path_names_root_directory() {
    assert_eq!(resolve(vec![]), Ok(String::from("/")));
}

#[test]
fn repeated_root_components_name_root_directory() {
    let mut walk = Walk::new(vec![PathComponent::Root, PathComponent::Root]);
    assert_eq!(walk.next_step(), Ok(Step::Finished));
}

#[test]
fn lookup_ignores_ascii_case() {
    let a = resolve(vec![PathComponent::Root, normal("DIR"), normal("file.txt")]);
    let b = resolve(vec![PathComponent::Root, normal("dir"), normal("FILE.TXT")]);
    assert_eq!(a, Ok(String::from("FILE.TXT")));
    assert_eq!(a, b);
}

#[test]
fn path_ending_on_directory_names_it() {
    assert_eq!(resolve(vec![PathComponent::Root, normal("dir")]), Ok(String::from("DIR")));
    assert_eq!(resolve(vec![PathComponent::Root, normal("dir"), PathComponent::Root]), Ok(String::from("DIR")));
}

#[test]
fn parent_reference_is_unsupported() {
    assert_eq!(
        resolve(vec![PathComponent::Root, PathComponent::Unsupported]),
        Err(FsError::UnsupportedPathComponent)
    );
    assert_eq!(
        resolve(vec![PathComponent::Root, normal("DIR"), PathComponent::Unsupported]),
        Err(FsError::UnsupportedPathComponent)
    );
}

#[test]
fn file_before_last_component_is_not_a_directory() {
    assert_eq!(
        resolve(vec![PathComponent::Root, normal("README.TXT"), normal("X")]),
        Err(FsError::NotADirectory)
    );
    assert_eq!(
        resolve(vec![PathComponent::Root, normal("link"), normal("X")]),
        Err(FsError::NotADirectory)
    );
}

#[test]
fn missing_component_is_reported_upper_cased_and_transient() {
    let r = resolve(vec![PathComponent::Root, normal("dir"), normal("nothere.txt")]);
    assert_eq!(r, Err(FsError::ComponentNotFound(String::from("NOTHERE.TXT"))));
    assert!(r.unwrap_err().is_transient());
}

#[test]
fn entries_that_failed_to_decode_are_skipped() {
    let mut walk = Walk::new(vec![normal("file.txt")]);
    assert_eq!(walk.next_step(), Ok(Step::Lookup));
    assert_eq!(walk.select(&dir_listing()), Ok(Selected::Found(1)));
}

#[test]
fn first_case_insensitive_match_wins() {
    let children = vec![
        entry("A", EntryKind::File, 1),
        entry("Dup", EntryKind::File, 2),
        entry("DUP", EntryKind::Directory, 3),
    ];
    let mut walk = Walk::new(vec![normal("dup")]);
    assert_eq!(walk.next_step(), Ok(Step::Lookup));
    assert_eq!(walk.select(&children), Ok(Selected::Found(1)));
}

#[test]
fn lookup_in_empty_directory_fails() {
    let mut walk = Walk::new(vec![PathComponent::Root, normal("a")]);
    assert_eq!(walk.next_step(), Ok(Step::Lookup));
    assert_eq!(walk.select(&[]), Err(FsError::ComponentNotFound(String::from("A"))));
}

#[test]
fn only_ascii_case_is_folded() {
    assert!(isofs::eq_ignore_case("file.TXT", "FILE.txt"));
    assert!(!isofs::eq_ignore_case("file", "files"));
    assert!(!isofs::eq_ignore_case("é", "É"));
}

#[test]
fn errors_other_than_not_found_are_permanent() {
    assert!(!FsError::UnsupportedPathComponent.is_transient());
    assert!(!FsError::NotADirectory.is_transient());
    assert!(!FsError::NotPermittedOnFile.is_transient());
    assert!(!FsError::NotAFile.is_transient());
    assert!(!FsError::PermissionDenied.is_transient());
}
