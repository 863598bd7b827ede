use collabook::auth::AuthType;
use collabook::error::MyError;
use collabook::auth::Author;
use collabook::vcs::BookRepo;
use tempdir::TempDir;

fn author() -> Author {
    Author {
        name: "name".to_string(),
        email: "email".to_string(),
        auth: AuthType::SSHAgent,
        token: "token".to_string(),
    }
}

fn write_file(path: &std::path::Path, content: &str) {
    fs_extra::file::write_all(path, content).unwrap();
}

#[test]
fn test_commit() {
    let temp_dir = TempDir::new("test_dir").unwrap();
    let path = temp_dir.path();

    let repo = BookRepo::new(path.to_str().unwrap()).unwrap();

    write_file(&path.join("test.txt"), "some text");

    let author = author();

    let oid = repo.commit("test commit", &author).unwrap();

    let check = git2::Repository::open(path).unwrap();
    let commit = check.find_commit(oid).unwrap();
    assert_eq!(commit.message().unwrap(), "test commit");
}

#[test]
fn test_create_branch() {
    let temp_dir = TempDir::new("test_dir").unwrap();
    let path = temp_dir.path();

    let repo = BookRepo::new(path.to_str().unwrap()).unwrap();

    //this is an error as repo doesn't have any commits yet
    assert!(repo.create_branch("topic").is_err());

    write_file(&path.join("test.txt"), "some text");

    let author = author();

    let _oid = repo.commit("test commit", &author).unwrap();

    repo.create_branch("dev").unwrap();

    let check = git2::Repository::open(path).unwrap();
    assert_eq!(
        check
            .find_branch("dev", git2::BranchType::Local)
            .unwrap()
            .name(),
        Ok(Some("dev"))
    );
}

#[test]
fn test_get_branches() {
    let temp_dir = TempDir::new("test_dir").unwrap();
    let path = temp_dir.path();

    let repo = BookRepo::new(path.to_str().unwrap()).unwrap();

    write_file(&path.join("test.txt"), "some text");

    let author = author();

    let oid = repo.commit("test commit", &author).unwrap();
    let check = git2::Repository::open(path).unwrap();
    check.find_commit(oid).unwrap();

    repo.create_branch("dev").unwrap();
    repo.create_branch("topic").unwrap();

    let branches = repo.get_branches().unwrap();
    assert_eq!(branches.len(), 3);
}

#[test]
fn test_switch_branch() {
    let temp_dir = TempDir::new("test_dir").unwrap();
    let path = temp_dir.path();

    let repo = BookRepo::new(path.to_str().unwrap()).unwrap();

    write_file(&path.join("test.txt"), "some text");

    let author = author();

    let oid = repo.commit("test commit", &author).unwrap();
    let check = git2::Repository::open(path).unwrap();
    check.find_commit(oid).unwrap();

    repo.create_branch("topic").unwrap();
    repo.switch_branch("topic").unwrap();

    write_file(&path.join("test.txt"), "changes made on topic branch");

    repo.switch_branch("master").unwrap();

    let content = fs_extra::file::read_to_string(path.join("test.txt")).unwrap();
    assert_eq!(content, "some text");
}

#[test]
fn test_add_remotes() {
    let temp_dir = TempDir::new("test_dir").unwrap();
    let path = temp_dir.path();

    let repo = BookRepo::new(path.to_str().unwrap()).unwrap();

    assert!(repo.add_remote("origin", "http://remote.git").is_ok());
}

#[test]
fn test_get_remotes() {
    let temp_dir = TempDir::new("test_dir").unwrap();
    let path = temp_dir.path();

    let repo = BookRepo::new(path.to_str().unwrap()).unwrap();

    repo.add_remote("origin", "url1").unwrap();
    repo.add_remote("upstream", "url2").unwrap();

    assert_eq!(repo.get_remotes().unwrap().len(), 2);
}

#[test]
fn test_log() {
    let temp_dir = TempDir::new("test_dir").unwrap();
    let path = temp_dir.path();

    let repo = BookRepo::new(path.to_str().unwrap()).unwrap();
    let author = author();

    write_file(&path.join("test.txt"), "some text");
    let _oid1 = repo.commit("test commit 1", &author).unwrap();

    write_file(&path.join("test.txt"), "some textsome other text");
    let _oid2 = repo.commit("test commit 2 ", &author).unwrap();

    assert_eq!(repo.log().unwrap().len(), 2);
}

#[test]
fn test_checkout_commit() {
    let temp_dir = TempDir::new("test_dir").unwrap();
    let path = temp_dir.path();

    let repo = BookRepo::new(path.to_str().unwrap()).unwrap();
    let author = author();

    write_file(&path.join("test.txt"), "some text");
    let oid1 = repo.commit("test commit 1", &author).unwrap();

    write_file(&path.join("test.txt"), "some textsome other text");
    let _oid2 = repo.commit("test commit 2 ", &author).unwrap();

    repo.checkout_commit(&oid1).unwrap();
    let content = fs_extra::file::read_to_string(path.join("test.txt")).unwrap();

    assert_eq!(content, "some text".to_string());
}

#[test]
fn test_get_current_branch() {
    let temp_dir = TempDir::new("test_dir").unwrap();
    let path = temp_dir.path();

    let repo = BookRepo::new(path.to_str().unwrap()).unwrap();
    let author = author();

    write_file(&path.join("test.txt"), "some text");
    let _oid1 = repo.commit("test commit 1", &author).unwrap();

    assert_eq!(repo.current_branch_name().unwrap(), "master");

    repo.create_branch("topic").unwrap();
    repo.switch_branch("topic").unwrap();

    assert_eq!(repo.current_branch_name().unwrap(), "topic");
}

#[test]
fn log_reports_time_and_ids_exactly() {
    let temp_dir = TempDir::new("test_dir").unwrap();
    let path = temp_dir.path();

    let repo = BookRepo::new(path.to_str().unwrap()).unwrap();
    let author = author();

    write_file(&path.join("test.txt"), "some text");
    let oid = repo.commit("only commit", &author).unwrap();

    let logs = repo.log().unwrap();
    assert_eq!(logs.len(), 1);
    assert_eq!(logs[0].oid, oid.to_string());
    assert_eq!(logs[0].message, "only commit");
    assert_eq!(logs[0].author, "name");

    let check = git2::Repository::open(path).unwrap();
    let commit = check.find_commit(oid).unwrap();
    let t = commit.time();
    let shifted = t.seconds() + t.offset_minutes() as i64 * 60;
    let expected = chrono::DateTime::from_timestamp(shifted, 0).unwrap().to_rfc2822();
    assert_eq!(logs[0].time, expected);
}

#[test]
fn present_names_keeps_the_named_entries_in_order() {
    let names = vec![
        Some("origin".to_string()),
        None,
        Some("upstream".to_string()),
    ];
    assert_eq!(
        collabook::vcs::present_names(&names),
        vec!["origin".to_string(), "upstream".to_string()]
    );
    assert_eq!(collabook::vcs::present_names(&vec![]), Vec::<String>::new());
}

#[test]
fn log_entry_renders_the_shifted_time_and_rejects_the_unrenderable() {
    let oid = git2::Oid::from_str("da39a3ee5e6b4b0d3255bfef95601890afd80709").unwrap();

    let entry = collabook::vcs::log_entry(&oid, "m".to_string(), "a".to_string(), 0, 60).unwrap();
    assert_eq!(entry.oid, "da39a3ee5e6b4b0d3255bfef95601890afd80709");
    assert_eq!(entry.message, "m");
    assert_eq!(entry.author, "a");
    assert_eq!(
        entry.time,
        chrono::DateTime::from_timestamp(3600, 0).unwrap().to_rfc2822()
    );

    // year ten thousand: representable as a date, but not renderable
    let far = collabook::vcs::log_entry(&oid, String::new(), String::new(), 253_402_300_800, 0);
    assert!(matches!(far, Err(MyError::Vcs(_))));

    // a negative year is not renderable either
    let early = collabook::vcs::log_entry(&oid, String::new(), String::new(), -62_167_219_201, 0);
    assert!(matches!(early, Err(MyError::Vcs(_))));

    // the shift itself can leave the representable seconds
    let wide = collabook::vcs::log_entry(&oid, String::new(), String::new(), i64::MIN, -60);
    assert!(matches!(wide, Err(MyError::Vcs(_))));
}
