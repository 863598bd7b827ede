use collabook::error::MyError;
use collabook::tree::Book;
use collabook::tree::File;
use collabook::tree::RawEntry;
use tempdir::TempDir;

fn entry(rel_path: &str, is_folder: bool, data: &str, synopsis: &str) -> RawEntry {
    RawEntry {
        rel_path: rel_path.to_string(),
        is_folder,
        data: data.to_string(),
        synopsis: synopsis.to_string(),
    }
}

fn find<'a>(book: &'a Book, id: &str) -> &'a File {
    book.files.iter().find(|f| f.id == id).unwrap()
}

#[test]
fn test_file_constructor() {
    let root = File::new("testbook", "", "0", true, false);
    assert_eq!(&root.id, "da39a3ee5e6b4b0d3255bfef95601890afd80709");
    assert_eq!(root.content.is_none(), true);
    assert_eq!(&root.parent, "0");
    assert_eq!(&root.rel_path, "");

    let sec1 = File::new("sec1", "Book/Chap1/Sec1", &root.id, false, false);
    assert_eq!(&sec1.id, "0ad0fd5d1787ebf9465fb46c743d35eb6b9ab783");
    assert_eq!(&sec1.content.unwrap(), "");
}

#[test]
fn file_from_location() {
    //a sec1 file with an empty synopsis
    let sec1 = File::from_entry("test_book", &entry("Sec1", false, "", ""));
    assert_eq!(sec1.is_folder, false);
    assert_eq!(sec1.content, Some("".to_string()));
    assert_eq!(sec1.name, "Sec1".to_string());
    assert_eq!(sec1.synopsis, "".to_string());
    assert_eq!(sec1.id, "fbd662164e6d85d890952881f948ef17acaecc2d");

    //a research file with some content
    let chars = File::from_entry("test_book", &entry("Research/Chars", false, "some content", ""));
    assert_eq!(chars.is_folder, false);
    assert_eq!(chars.is_research, true);
    assert_eq!(chars.content, Some("some content".to_string()));
    assert_eq!(chars.id, "f7de51de1cd3ad2e789300bd2f11f84f9f35ced0");
}

fn setup_book() -> Book {
    let mut files = Vec::new();
    let root = File::new("test_book", "", "0", true, false);
    let book = File::new("Book", "Book", &root.id, true, false);
    let chap1 = File::new("Chap1", "Book/Chap1", &book.id, true, false);
    let sec1 = File::new("Sec1", "Book/Chap1/Sec1", &chap1.id, false, false);
    let sec2 = File::new("Sec2", "Book/Chap1/Sec2", &chap1.id, false, false);
    let chap2 = File::new("Chap2", "Book/Chap2", &book.id, true, false);
    let c2_sec1 = File::new("Sec1", "Book/Chap2/Sec1", &chap2.id, false, false);

    files.push(root);
    files.push(book);
    files.push(chap1);
    files.push(sec1);
    files.push(sec2);
    files.push(chap2);
    files.push(c2_sec1);

    Book {
        files,
        location: "test_book".to_string(),
        name: "test_book".to_string(),
        remotes: Vec::new(),
        branches: Vec::new(),
    }
}

#[test]
fn combine_content_works() {
    let mut book = setup_book();

    let ids = [
        "0ad0fd5d1787ebf9465fb46c743d35eb6b9ab783",
        "ad547798d6f4c6e1224226f5bd5253b93fde470f",
        "722935af1ff2d97062f48532f2ef95827da39b93",
    ];
    for f in book.files.iter_mut() {
        if f.id == ids[0] {
            f.content = Some("hello from sec1\n".to_string());
        } else if f.id == ids[1] {
            f.content = Some("hello from sec2\n".to_string());
        } else if f.id == ids[2] {
            f.content = Some("hello from chap2 sec1".to_string());
        }
    }

    let ids: Vec<String> = ids.iter().map(|s| s.to_string()).collect();
    let content = book.combine_content(&ids).unwrap();
    assert_eq!(
        content,
        "hello from sec1\nhello from sec2\nhello from chap2 sec1".to_string()
    )
}

#[test]
fn combine_content_is_exact_concatenation() {
    let mut book = setup_book();
    let a = "0ad0fd5d1787ebf9465fb46c743d35eb6b9ab783";
    let b = "ad547798d6f4c6e1224226f5bd5253b93fde470f";
    for f in book.files.iter_mut() {
        if f.id == a {
            f.content = Some("X\n".to_string());
        } else if f.id == b {
            f.content = Some("Y\n".to_string());
        }
    }
    let ids = vec![a.to_string(), b.to_string()];
    assert_eq!(book.combine_content(&ids).unwrap(), "X\nY\n");
}

#[test]
fn combine_content_rejects_unknown_and_folder_ids() {
    let book = setup_book();
    let unknown = vec!["not an id".to_string()];
    assert!(matches!(
        book.combine_content(&unknown),
        Err(MyError::UnknownNode)
    ));

    // "Book" is a folder
    let folder = vec!["f69f233005f15802770fd26fbf7ead52ec13d9e6".to_string()];
    assert!(matches!(
        book.combine_content(&folder),
        Err(MyError::IsDirectory)
    ));
}

#[test]
fn open_book_reads_content_correctly() {
    let temp_dir = TempDir::new("test_dir").unwrap();
    let path = temp_dir.path().join("test_book");

    let sec1_sha1 = "169a91e9a0699ef3d8cee8f29a76856498ef0c0e";
    let chars_sha1 = "f7de51de1cd3ad2e789300bd2f11f84f9f35ced0";

    fs_extra::dir::create_all(&path, false).unwrap();
    git2::Repository::init(&path).unwrap();

    let content = String::from("Synopsis for the character research file");
    let synopsis = String::from("Content inside the sec1 file");

    // the walk of the directory, as the disk layer hands it over
    let entries = vec![
        entry("", true, "", ""),
        entry("Book", true, "", ""),
        entry("Research", true, "", ""),
        entry("Book/Sec1", false, &content, ""),
        entry("Research/Chars", false, "", &synopsis),
    ];

    let book = Book::open(path.to_str().unwrap(), "test_book", &entries).unwrap();

    assert_eq!(find(&book, chars_sha1).synopsis, synopsis);
    assert_eq!(find(&book, sec1_sha1).content, Some(content));
}

fn materialize(book: &Book, root: &std::path::Path) {
    for plan in book.mkdirs_plan() {
        let target = root.join(&plan.rel_path);
        if plan.is_folder {
            fs_extra::dir::create_all(&target, false).unwrap();
        } else {
            if let Some(parent) = target.parent() {
                fs_extra::dir::create_all(parent, false).unwrap();
            }
            fs_extra::file::write_all(&target, "").unwrap();
        }
    }
}

#[test]
fn new_book_creates_correct_files() {
    let temp_dir = TempDir::new("test_dir").unwrap();
    let path = temp_dir.path().join("test_book");
    fs_extra::dir::create_all(&path, false).unwrap();

    let book = Book::new(path.to_str().unwrap(), "test_book").unwrap();
    materialize(&book, &path);

    assert_eq!(path.join("Book/Chap1/Sec1").exists(), true);
    assert_eq!(path.join("Research/Chars").exists(), true);
}

#[test]
fn new_book_skeleton_scenario() {
    let temp_dir = TempDir::new("test_dir").unwrap();
    let path = temp_dir.path().join("N");
    fs_extra::dir::create_all(&path, false).unwrap();

    let book = Book::new(path.to_str().unwrap(), "N").unwrap();

    // a root with the empty relative path
    let root = &book.files[0];
    assert_eq!(root.rel_path, "");
    assert_eq!(root.name, "N");
    assert_eq!(root.parent, "0");
    assert!(root.is_folder);

    // a leaf at Book/Chap1/Sec1 with empty content
    let sec1 = book.files.iter().find(|f| f.rel_path == "Book/Chap1/Sec1").unwrap();
    assert!(!sec1.is_folder);
    assert_eq!(sec1.content, Some("".to_string()));

    // a leaf at Research/Chars flagged as research
    let chars = book.files.iter().find(|f| f.rel_path == "Research/Chars").unwrap();
    assert!(chars.is_research);
    assert_eq!(chars.content, Some("".to_string()));

    // each node backed on disk by an empty content file and an empty sidecar
    materialize(&book, &path);
    for f in &book.files {
        if !f.is_folder {
            assert_eq!(
                fs_extra::file::read_to_string(path.join(&f.rel_path)).unwrap(),
                ""
            );
        }
        let sidecar = path.join(".collabook/synopsis").join(&f.id);
        assert_eq!(fs_extra::file::read_to_string(&sidecar).unwrap(), "");
    }
}

#[test]
fn materialized_skeleton_loads_back_to_the_same_tree() {
    let temp_dir = TempDir::new("test_dir").unwrap();
    let path = temp_dir.path().join("round_trip_book");
    fs_extra::dir::create_all(&path, false).unwrap();

    let book = Book::new(path.to_str().unwrap(), "round_trip_book").unwrap();
    materialize(&book, &path);

    // the walk: every non-hidden entry under the root, with its texts
    let mut entries = vec![entry("", true, "", "")];
    for f in &book.files {
        if f.rel_path.is_empty() {
            continue;
        }
        let data = if f.is_folder {
            String::new()
        } else {
            fs_extra::file::read_to_string(path.join(&f.rel_path)).unwrap()
        };
        let synopsis =
            fs_extra::file::read_to_string(path.join(".collabook/synopsis").join(&f.id)).unwrap();
        entries.push(entry(&f.rel_path, f.is_folder, &data, &synopsis));
    }

    let reloaded = Book::open(path.to_str().unwrap(), "round_trip_book", &entries).unwrap();

    assert_eq!(reloaded.files.len(), book.files.len());
    for f in &book.files {
        let r = find(&reloaded, &f.id);
        assert_eq!(r.name, f.name);
        assert_eq!(r.rel_path, f.rel_path);
        assert_eq!(r.parent, f.parent);
        assert_eq!(r.is_folder, f.is_folder);
        assert_eq!(r.is_research, f.is_research);
        assert_eq!(r.content, f.content);
        assert_eq!(r.synopsis, f.synopsis);
    }
}

#[test]
fn plan_new_file_decides_everything_before_disk() {
    let f = collabook::tree::plan_new_file("Sec9", "Book/Chap1", "parent-id", false);
    assert_eq!(f.rel_path, "Book/Chap1/Sec9");
    assert_eq!(f.name, "Sec9");
    assert_eq!(f.parent, "parent-id");
    assert_eq!(f.content, Some("".to_string()));
    assert!(!f.is_research);

    let note = collabook::tree::plan_new_file("Villains", "Research", "rid", false);
    assert!(note.is_research);

    let folder = collabook::tree::plan_new_file("Chap3", "Book", "bid", true);
    assert!(folder.is_folder);
    assert_eq!(folder.content, None);
}

#[test]
fn synopsis_rel_path_is_under_the_metadata_directory() {
    assert_eq!(
        collabook::tree::synopsis_rel_path("abc123"),
        ".collabook/synopsis/abc123"
    );
}

#[test]
#[should_panic(expected = "Not a Collabook directory")]
fn opening_not_a_book_gives_error() {
    let location = std::path::Path::new("doesn't_exist");
    let marker = location.join(".collabook").exists();
    if let Err(e) = collabook::tree::require_book_marker(marker) {
        panic!("{}", e.message());
    }
}

#[test]
fn opening_without_the_marker_is_not_a_book() {
    assert!(matches!(
        collabook::tree::require_book_marker(false),
        Err(MyError::NotABook)
    ));
    assert!(collabook::tree::require_book_marker(true).is_ok());
}

#[test]
fn hidden_names_are_skipped_by_the_walk() {
    assert!(collabook::tree::is_hidden_name(".collabook"));
    assert!(collabook::tree::is_hidden_name(".git"));
    assert!(collabook::tree::is_hidden_name("target"));
    assert!(collabook::tree::is_hidden_name("my_target_dir"));
    assert!(!collabook::tree::is_hidden_name("Book"));
    assert!(!collabook::tree::is_hidden_name("Research"));
}
