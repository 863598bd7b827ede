use collabook::error::MyError;
use collabook::github;
use collabook::ident;
use collabook::templates::Template;
use collabook::vcs;
use tempdir::TempDir;

#[test]
fn node_id_depends_only_on_the_normalized_path() {
    // backslashes and forward slashes normalize to one form, one identity
    assert_eq!(ident::normalize_path("Book\\Chap1\\Sec1"), "Book/Chap1/Sec1");
    assert_eq!(
        ident::node_id("Book\\Chap1\\Sec1"),
        ident::node_id("Book/Chap1/Sec1")
    );
    assert_eq!(
        ident::node_id("Book/Chap1/Sec1"),
        "0ad0fd5d1787ebf9465fb46c743d35eb6b9ab783"
    );
}

#[test]
fn distinct_paths_get_distinct_ids() {
    let paths = ["", "Book", "Book/Chap1", "Book/Chap1/Sec1", "Research", "Research/Chars", "Research/World"];
    let ids: Vec<String> = paths.iter().map(|p| ident::node_id(p)).collect();
    for i in 0..ids.len() {
        assert_eq!(ids[i].len(), 40);
        for j in 0..ids.len() {
            if i != j {
                assert_ne!(ids[i], ids[j]);
            }
        }
    }
}

#[test]
fn root_id_is_independent_of_the_display_name() {
    let a = collabook::tree::Book::skeleton_files("One Name");
    let b = collabook::tree::Book::skeleton_files("Another Name");
    assert_eq!(a[0].id, b[0].id);
    assert_eq!(a[0].id, "da39a3ee5e6b4b0d3255bfef95601890afd80709");
}

#[test]
fn hex_encoding_is_exact() {
    assert_eq!(ident::bytes_to_hex(&vec![]), "");
    assert_eq!(ident::bytes_to_hex(&vec![0u8]), "00");
    assert_eq!(ident::bytes_to_hex(&vec![255u8]), "ff");
    assert_eq!(ident::bytes_to_hex(&vec![0u8, 16, 31, 170, 255]), "00101faaff");
}

#[test]
fn path_decomposition_is_exact() {
    assert_eq!(ident::parent_of("Book/Chap1/Sec1"), "Book/Chap1");
    assert_eq!(ident::parent_of("Book"), "");
    assert_eq!(ident::parent_of(""), "");
    assert_eq!(ident::base_name_of("Book/Chap1/Sec1"), "Sec1");
    assert_eq!(ident::base_name_of("Book"), "Book");
}

#[test]
fn substring_search_is_exact() {
    assert!(ident::contains_str("Research/Chars", "Research"));
    assert!(ident::contains_str("My Research!", "Research"));
    assert!(!ident::contains_str("Book/Chap1/Sec1", "Research"));
    assert!(ident::contains_str("anything", ""));
    assert!(!ident::contains_str("short", "much longer pattern"));
}

#[test]
fn reference_names_are_exact() {
    assert_eq!(vcs::branch_ref_of("master"), "refs/heads/master");
    assert_eq!(
        vcs::upstream_ref_of("origin", "master"),
        "refs/remotes/origin/master"
    );
    assert_eq!(
        vcs::push_refspec_of("dev"),
        "refs/heads/dev:refs/heads/dev"
    );
    assert_eq!(
        vcs::fork_refspec_of("upstream", "master"),
        "refs/remotes/upstream/master:refs/heads/master"
    );
}

#[test]
fn hosting_urls_are_exact() {
    assert_eq!(github::create_repo_url(), "https://api.github.com/user/repos");
    assert_eq!(
        github::repo_url("collabook", "testapi"),
        "https://api.github.com/repos/collabook/testapi"
    );
    assert_eq!(
        github::fork_url("akhilkpdasan", "rs-attendance"),
        "https://api.github.com/repos/akhilkpdasan/rs-attendance/forks"
    );
    assert_eq!(github::token_header("my_test_token"), "token my_test_token");
}

#[test]
fn hosting_responses_surface_the_api_message() {
    assert!(github::interpret_response(true, "").is_ok());
    let err = github::interpret_response(false, "Some error message").unwrap_err();
    match err {
        MyError::Vcs(m) => assert_eq!(m, "Some error message"),
        _ => panic!("wrong error kind"),
    }
}

#[test]
fn save_template_saves_files() {
    let td = TempDir::new("test_dir").unwrap();
    let template = Template {
        files: vec![
            ("Book/Chap1/Sec1".to_string(), "Content {{var_1}}".to_string()),
            ("Book/Chap2/Sec1".to_string(), "Content {{var_2}}".to_string()),
        ],
        name: "test1".to_string(),
        location: td.path().to_str().unwrap().to_string(),
    };

    for (target, content) in template.save_plan() {
        let target = std::path::PathBuf::from(target);
        fs_extra::dir::create_all(target.parent().unwrap(), false).unwrap();
        fs_extra::file::write_all(&target, &content).unwrap();
    }

    let path = td.path();
    assert_eq!(path.join("test1/Book/Chap1/Sec1").exists(), true);
    assert_eq!(path.join("test1/Book/Chap2/Sec1").exists(), true);
    let content = fs_extra::file::read_to_string(path.join("test1/Book/Chap1/Sec1")).unwrap();
    assert_eq!("Content {{var_1}}", content);
    let content2 = fs_extra::file::read_to_string(path.join("test1/Book/Chap2/Sec1")).unwrap();
    assert_eq!("Content {{var_2}}", content2);
}

#[test]
fn error_messages_are_preserved() {
    assert_eq!(
        MyError::Vcs("exact words".to_string()).message(),
        "exact words"
    );
    assert_eq!(MyError::EmptyMessage.message(), "Commit message cannot be empty");
    assert_eq!(MyError::NotABook.message(), "Not a Collabook directory");
    assert_eq!(MyError::UnknownNode.message(), "File doesn't exist");
    assert_eq!(MyError::IsDirectory.message(), "Is a directory");
}

#[test]
fn credential_username_defaults_to_git() {
    assert_eq!(collabook::auth::auth_username(Some("alice")), "alice");
    assert_eq!(collabook::auth::auth_username(None), "git");
}

#[test]
fn missing_identity_fails_credential_resolution() {
    assert!(collabook::auth::resolve_credential(None, Some("alice")).is_err());
}
