use generals_shim::error::{Disposition, ShimError};
use generals_shim::file_system::{
    host_failure, is_seek_mode, join_path, sanity_check_passed, seek_target, FileCall,
    FilenameList, HybridLocalFileSystem, SeekTarget, SANITY_MARKER,
};

fn file_system_at(root: &str) -> HybridLocalFileSystem {
    let mut fs = HybridLocalFileSystem::default();
    fs.init(Some(String::from(root))).unwrap();
    fs
}

fn names_of(list: &FilenameList) -> Vec<String> {
    let mut names = Vec::new();
    for i in 0..list.len() {
        names.push(String::from_utf8(list.get(i).to_vec()).unwrap());
    }
    names
}

#[test]
fn relative_path_is_put_behind_the_base() {
    assert_eq!(join_path("root", "a"), "root/a");
    assert_eq!(join_path("/data/game", "Data/INI/x.ini"), "/data/game/Data/INI/x.ini");
}

#[test]
fn base_that_ends_in_a_separator_gets_no_second_one() {
    assert_eq!(join_path("root/", "a"), "root/a");
    assert_eq!(join_path("/", "a"), "/a");
}

#[test]
fn empty_base_gets_no_separator() {
    assert_eq!(join_path("", "a/b"), "a/b");
    assert_eq!(join_path("", ""), "");
}

#[test]
fn absolute_path_stands_for_itself() {
    assert_eq!(join_path("root", "/etc/x"), "/etc/x");
    assert_eq!(join_path("", "/"), "/");
}

#[test]
fn empty_path_leaves_the_base_with_a_separator() {
    assert_eq!(join_path("root", ""), "root/");
    assert_eq!(join_path("root/", ""), "root/");
}

#[test]
fn join_path_agrees_with_the_host() {
    let cases = [
        ("root", "a"),
        ("root/", "a"),
        ("", "a"),
        ("root", "/abs"),
        ("root", ""),
        ("/", "x/y"),
        ("a/b", "**"),
        ("r\u{e9}sum\u{e9}", "\u{fc}"),
    ];
    for (base, path) in cases.iter() {
        let host = std::path::Path::new(base).join(path);
        assert_eq!(join_path(base, path), host.to_str().unwrap());
    }
}

#[test]
fn default_file_system_has_an_empty_root() {
    let fs = HybridLocalFileSystem::default();
    assert_eq!(fs.root_path(), "");
}

#[test]
fn init_sets_the_root() {
    let mut fs = HybridLocalFileSystem::default();
    assert_eq!(fs.init(Some(String::from("/opt/game"))), Ok(()));
    assert_eq!(fs.root_path(), "/opt/game");
}

#[test]
fn init_without_a_root_is_a_configuration_failure() {
    let mut fs = file_system_at("/opt/game");
    assert_eq!(fs.init(None), Err(ShimError::Configuration));
    assert_eq!(fs.root_path(), "/opt/game");
    assert_eq!(ShimError::Configuration.disposition(), Disposition::Abort);
}

#[test]
fn reset_and_update_keep_the_root() {
    let mut fs = file_system_at("/opt/game");
    fs.reset();
    assert_eq!(fs.root_path(), "/opt/game");
    fs.update();
    assert_eq!(fs.root_path(), "/opt/game");
}

#[test]
fn sanity_marker_lies_under_the_root() {
    let fs = file_system_at("/opt/game");
    assert_eq!(SANITY_MARKER, "Data/Scripts/SkirmishScripts.scb");
    assert_eq!(fs.sanity_marker(), "/opt/game/Data/Scripts/SkirmishScripts.scb");
}

#[test]
fn sanity_check_passes_only_on_a_marker_that_was_found() {
    assert!(sanity_check_passed(Some(true)));
    assert!(!sanity_check_passed(Some(false)));
    assert!(!sanity_check_passed(None));
}

#[test]
fn file_names_are_resolved_under_the_root() {
    let fs = file_system_at("/opt/game");
    assert_eq!(fs.resolve("Data/INI/GameData.ini"), "/opt/game/Data/INI/GameData.ini");
    assert_eq!(fs.resolve("/tmp/x"), "/tmp/x");
}

#[test]
fn missing_file_does_not_exist_under_its_resolved_path() {
    let fs = file_system_at(".");
    let path = fs.resolve("does/not/exist");
    assert_eq!(path, "./does/not/exist");
    assert!(!std::path::Path::new(&path).exists());
    assert_eq!(host_failure(FileCall::Open), ShimError::NotFound);
    assert_eq!(host_failure(FileCall::Open).disposition(), Disposition::Sentinel);
}

#[test]
fn failed_read_or_seek_is_fatal() {
    assert_eq!(host_failure(FileCall::Read), ShimError::HostIo);
    assert_eq!(host_failure(FileCall::Seek), ShimError::HostIo);
    assert_eq!(host_failure(FileCall::Read).disposition(), Disposition::Abort);
    assert_eq!(host_failure(FileCall::Seek).disposition(), Disposition::Abort);
}

#[test]
fn search_pattern_without_recursion_is_the_name_under_the_root() {
    let fs = file_system_at("/opt/game");
    assert_eq!(fs.search_pattern("*.ini", false), "/opt/game/*.ini");
    assert_eq!(fs.search_pattern("Data/*.big", false), "/opt/game/Data/*.big");
}

#[test]
fn search_pattern_with_recursion_goes_through_all_directories() {
    let fs = file_system_at("/opt/game");
    assert_eq!(fs.search_pattern("*.ini", true), "/opt/game/**/*.ini");
    let fs = file_system_at("root/");
    assert_eq!(fs.search_pattern("x", true), "root/**/x");
}

#[test]
fn recursive_listing_finds_files_in_subdirectories() {
    let fs = file_system_at(".");
    let mut list = FilenameList::new();
    assert_eq!(fs.list_directory("", "", "file_system.rs", &mut list, true), Ok(()));
    let mut names = names_of(&list);
    names.sort();
    assert_eq!(names, vec!["src/file_system.rs", "tests/file_system.rs"]);
}

#[test]
fn plain_listing_does_not_look_into_subdirectories() {
    let fs = file_system_at(".");
    let mut list = FilenameList::new();
    assert_eq!(fs.list_directory("", "", "file_system.rs", &mut list, false), Ok(()));
    assert_eq!(list.len(), 0);
}

#[test]
fn plain_listing_finds_files_in_the_root() {
    let fs = file_system_at("tests");
    let mut list = FilenameList::new();
    assert_eq!(fs.list_directory("", "", "file_sys*.rs", &mut list, false), Ok(()));
    assert_eq!(names_of(&list), vec!["tests/file_system.rs"]);
}

#[test]
fn listing_adds_behind_what_the_list_holds() {
    let fs = file_system_at("src");
    let mut list = FilenameList::new();
    list.insert(b"before".to_vec());
    assert_eq!(fs.list_directory("", "", "lib.rs", &mut list, false), Ok(()));
    assert_eq!(names_of(&list), vec!["before", "src/lib.rs"]);
    assert_eq!(fs.list_directory("", "", "no_such_file_*", &mut list, true), Ok(()));
    assert_eq!(names_of(&list), vec!["before", "src/lib.rs"]);
}

#[test]
fn listing_with_a_current_directory_is_unimplemented() {
    let fs = file_system_at(".");
    let mut list = FilenameList::new();
    list.insert(b"kept".to_vec());
    assert_eq!(
        fs.list_directory("Data", "", "*.rs", &mut list, true),
        Err(ShimError::Unimplemented)
    );
    assert_eq!(
        fs.list_directory("Data", "", "*.rs", &mut list, false),
        Err(ShimError::Unimplemented)
    );
    assert_eq!(names_of(&list), vec!["kept"]);
}

#[test]
fn listing_with_an_original_directory_is_unimplemented() {
    let fs = file_system_at(".");
    let mut list = FilenameList::new();
    assert_eq!(
        fs.list_directory("", "Data", "*.rs", &mut list, true),
        Err(ShimError::Unimplemented)
    );
    assert_eq!(
        fs.list_directory("a", "b", "*.rs", &mut list, false),
        Err(ShimError::Unimplemented)
    );
    assert_eq!(list.len(), 0);
}

#[test]
fn listing_with_empty_directories_is_accepted() {
    let fs = file_system_at(".");
    let mut list = FilenameList::new();
    assert_eq!(fs.list_directory("", "", "*.nothing", &mut list, false), Ok(()));
    assert_eq!(fs.list_directory("", "", "*.nothing", &mut list, true), Ok(()));
    assert_eq!(list.len(), 0);
}

#[test]
fn listing_with_an_invalid_pattern_is_refused() {
    let fs = file_system_at(".");
    let mut list = FilenameList::new();
    list.insert(b"kept".to_vec());
    assert_eq!(fs.list_directory("", "", "[", &mut list, false), Err(ShimError::InvalidPattern));
    assert_eq!(fs.list_directory("", "", "a***", &mut list, true), Err(ShimError::InvalidPattern));
    assert_eq!(fs.list_directory("", "", "**b", &mut list, true), Err(ShimError::InvalidPattern));
    assert_eq!(names_of(&list), vec!["kept"]);
}

#[test]
fn filename_list_keeps_names_in_order() {
    let mut list = FilenameList::new();
    assert_eq!(list.len(), 0);
    list.insert(b"b".to_vec());
    list.insert(b"a".to_vec());
    list.insert(vec![0xff, 0xfe]);
    assert_eq!(list.len(), 3);
    assert_eq!(list.get(0), b"b");
    assert_eq!(list.get(1), b"a");
    assert_eq!(list.get(2), &[0xffu8, 0xfe][..]);
}

#[test]
fn append_found_passes_over_unreadable_entries() {
    let mut list = FilenameList::new();
    list.insert(b"first".to_vec());
    let found = vec![Some(b"x/1".to_vec()), None, Some(b"x/0".to_vec()), None, None];
    list.append_found(&found);
    assert_eq!(list.len(), 3);
    assert_eq!(list.get(0), b"first");
    assert_eq!(list.get(1), b"x/1");
    assert_eq!(list.get(2), b"x/0");
    list.append_found(&[]);
    list.append_found(&[None]);
    assert_eq!(list.len(), 3);
}

#[test]
fn seek_modes_are_start_current_end() {
    assert_eq!(seek_target(10, 0), SeekTarget::Start(10));
    assert_eq!(seek_target(10, 1), SeekTarget::Current(10));
    assert_eq!(seek_target(10, 2), SeekTarget::End(10));
    assert_eq!(seek_target(-4, 1), SeekTarget::Current(-4));
    assert_eq!(seek_target(-4, 2), SeekTarget::End(-4));
    assert_eq!(seek_target(0, 0), SeekTarget::Start(0));
    assert_eq!(seek_target(i32::MAX, 0), SeekTarget::Start(2147483647));
    assert_eq!(seek_target(i32::MIN, 2), SeekTarget::End(-2147483648));
}

#[test]
fn negative_offset_from_the_start_wraps_around() {
    assert_eq!(seek_target(-1, 0), SeekTarget::Start(u64::MAX));
    assert_eq!(seek_target(-2, 0), SeekTarget::Start(u64::MAX - 1));
    assert_eq!(seek_target(i32::MIN, 0), SeekTarget::Start(0xffff_ffff_8000_0000));
}

#[test]
fn only_three_seek_modes_are_known() {
    assert!(is_seek_mode(0));
    assert!(is_seek_mode(1));
    assert!(is_seek_mode(2));
    assert!(!is_seek_mode(3));
    assert!(!is_seek_mode(-1));
}

#[test]
fn file_info_is_unimplemented() {
    let fs = file_system_at(".");
    assert_eq!(fs.get_file_info("Data/x.ini"), Err(ShimError::Unimplemented));
}

#[test]
fn directory_creation_is_unimplemented() {
    let mut fs = file_system_at("/opt/game");
    assert_eq!(fs.create_directory("Save"), Err(ShimError::Unimplemented));
    assert_eq!(fs.create_directory(""), Err(ShimError::Unimplemented));
    assert_eq!(fs.root_path(), "/opt/game");
    assert_eq!(ShimError::Unimplemented.disposition(), Disposition::Abort);
}
