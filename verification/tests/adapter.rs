use bevy_vach::FileType;
use bevy_vach::Metadata;
use bevy_vach::VachAssetIo;
use bevy_vach::VfsError;
use std::io::Cursor;
use vach::builder::dump;
use vach::builder::BuilderConfig;
use vach::builder::Leaf;

fn build_archive(entries: &[(&str, &[u8])]) -> Vec<u8> {
    let mut leaves: Vec<Leaf<&[u8]>> = Vec::new();
    for (id, data) in entries {
        leaves.push(Leaf::new(*data, *id));
    }
    let mut target = Cursor::new(Vec::new());
    dump(&mut target, &mut leaves, &BuilderConfig::default(), None).unwrap();
    target.into_inner()
}

fn adapter(entries: &[(&str, &[u8])]) -> VachAssetIo {
    VachAssetIo::from_bytes(build_archive(entries)).unwrap()
}

fn scenario() -> VachAssetIo {
    adapter(&[
        ("textures/a.png", b"b1".as_slice()),
        ("textures/b.png", b"b2".as_slice()),
        ("config.json", b"b3".as_slice()),
    ])
}

fn sorted(mut v: Vec<String>) -> Vec<String> {
    v.sort();
    v
}

#[test]
fn load_returns_stored_bytes_unchanged() {
    let io = scenario();
    assert_eq!(io.load_path("textures/a.png").unwrap(), b"b1".to_vec());
    assert_eq!(io.load_path("textures/b.png").unwrap(), b"b2".to_vec());
    assert_eq!(io.load_path("config.json").unwrap(), b"b3".to_vec());
}

#[test]
fn load_missing_fails_not_found_with_path() {
    let io = scenario();
    assert_eq!(
        io.load_path("missing").unwrap_err(),
        VfsError::NotFound("missing".to_string())
    );
}

#[test]
fn get_metadata_exact_key_is_file() {
    let io = scenario();
    let m = io.get_metadata("textures/a.png").unwrap();
    assert_eq!(m, Metadata::new(FileType::File));
}

#[test]
fn get_metadata_prefix_is_directory() {
    let io = scenario();
    let m = io.get_metadata("textures").unwrap();
    assert_eq!(m, Metadata::new(FileType::Directory));
    // Prefix matching is plain string prefix: a partial file name counts too.
    let m = io.get_metadata("textures/a").unwrap();
    assert_eq!(m, Metadata::new(FileType::Directory));
}

#[test]
fn get_metadata_no_match_fails_not_found_with_path() {
    let io = scenario();
    assert_eq!(
        io.get_metadata("missing").unwrap_err(),
        VfsError::NotFound("missing".to_string())
    );
}

#[test]
fn exact_key_takes_precedence_over_prefix() {
    // "textures" is itself a key and also a prefix of "textures/a.png":
    // classification must say File.
    let io = adapter(&[
        ("textures", b"top".as_slice()),
        ("textures/a.png", b"b1".as_slice()),
    ]);
    let m = io.get_metadata("textures").unwrap();
    assert_eq!(m, Metadata::new(FileType::File));
    assert_eq!(io.load_path("textures").unwrap(), b"top".to_vec());
}

#[test]
fn read_directory_returns_all_keys_under_prefix() {
    let io = scenario();
    let listed = sorted(io.read_directory("textures"));
    assert_eq!(
        listed,
        vec!["textures/a.png".to_string(), "textures/b.png".to_string()]
    );
}

#[test]
fn read_directory_is_flat_not_one_level() {
    // Entries at deeper nesting than one level below the prefix are listed too.
    let io = adapter(&[
        ("a/b/c/deep.txt", b"x".as_slice()),
        ("a/shallow.txt", b"y".as_slice()),
        ("other.txt", b"z".as_slice()),
    ]);
    let listed = sorted(io.read_directory("a"));
    assert_eq!(
        listed,
        vec!["a/b/c/deep.txt".to_string(), "a/shallow.txt".to_string()]
    );
}

#[test]
fn read_directory_empty_prefix_lists_every_entry() {
    let io = scenario();
    let listed = sorted(io.read_directory(""));
    assert_eq!(
        listed,
        vec![
            "config.json".to_string(),
            "textures/a.png".to_string(),
            "textures/b.png".to_string()
        ]
    );
}

#[test]
fn read_directory_no_match_is_empty_not_an_error() {
    let io = scenario();
    assert_eq!(io.read_directory("missing"), Vec::<String>::new());
}

#[test]
fn watch_path_always_fails_unsupported_with_path() {
    let io = scenario();
    assert_eq!(
        io.watch_path_for_changes("textures/a.png").unwrap_err(),
        VfsError::Unsupported("textures/a.png".to_string())
    );
    assert_eq!(
        io.watch_path_for_changes("missing").unwrap_err(),
        VfsError::Unsupported("missing".to_string())
    );
}

#[test]
fn watch_all_always_fails_unsupported() {
    let io = scenario();
    assert_eq!(
        io.watch_for_changes().unwrap_err(),
        VfsError::Unsupported(
            "<Vach Archives are read only, so there is no need to watch for changes. \
             Save yourself the milliseconds>"
                .to_string()
        )
    );
}

#[test]
fn clones_share_the_archive_and_agree() {
    let io = scenario();
    let a = io.clone();
    let b = io.clone();
    let from_a = a.load_path("textures/a.png").unwrap();
    let from_b = b.load_path("textures/a.png").unwrap();
    assert_eq!(from_a, from_b);
    assert_eq!(from_a, b"b1".to_vec());
    assert_eq!(
        sorted(a.read_directory("")),
        sorted(b.read_directory(""))
    );
}

#[test]
fn from_bytes_rejects_a_malformed_source() {
    let err = VachAssetIo::from_bytes(vec![1, 2, 3, 4]).unwrap_err();
    assert!(matches!(err, VfsError::Open(_)));
}

#[test]
fn new_wraps_a_preopened_archive() {
    let bytes = build_archive(&[("hello", b"world".as_slice())]);
    let archive = vach::archive::Archive::new(Cursor::new(bytes)).unwrap();
    let io = VachAssetIo::new(archive);
    assert_eq!(io.load_path("hello").unwrap(), b"world".to_vec());
}

#[test]
fn empty_archive_finds_nothing() {
    let io = adapter(&[]);
    assert_eq!(
        io.load_path("anything").unwrap_err(),
        VfsError::NotFound("anything".to_string())
    );
    assert_eq!(
        io.get_metadata("").unwrap_err(),
        VfsError::NotFound("".to_string())
    );
    assert_eq!(io.read_directory(""), Vec::<String>::new());
}

#[test]
fn filter_by_prefix_keeps_enumeration_order() {
    let keys = vec![
        "b/two".to_string(),
        "a/one".to_string(),
        "b/one".to_string(),
        "c".to_string(),
    ];
    let kept = bevy_vach::filter_by_prefix(&keys, "b/");
    assert_eq!(kept, vec!["b/two".to_string(), "b/one".to_string()]);
    let all = bevy_vach::filter_by_prefix(&keys, "");
    assert_eq!(all, keys);
}
