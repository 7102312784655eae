use repo_rs::config::Config;
use repo_rs::error::RepoRsError;
use repo_rs::repo::Repo;

fn descriptor(key: &str, path: &str, remote: &str, branch: &str) -> Repo {
    Repo {
        key: key.to_string(),
        path: path.to_string(),
        remote: remote.to_string(),
        branch: branch.to_string(),
    }
}

#[test]
fn equality() {
    let repo1 = Repo {
        key: "foo".to_string(),
        path: "bar".to_string(),
        remote: "baz".to_string(),
        branch: "fez".to_string(),
    };

    let repo2 = Repo {
        key: "foo".to_string(),
        path: "hoof".to_string(),
        remote: "herp".to_string(),
        branch: "derp".to_string(),
    };

    let repo3 = Repo {
        key: "doof".to_string(),
        path: "bar".to_string(),
        remote: "herp1".to_string(),
        branch: "derp1".to_string(),
    };

    assert_eq!(true, repo1 == repo2);
    assert_eq!(true, repo1 == repo3);
    assert_eq!(false, repo2 == repo3);
}

#[test]
fn duplicate_detected_by_key() {
    let mut config = Config::empty();
    config.add(descriptor("app", "/r/app", "origin", "main"));
    let candidate = descriptor("app", "/elsewhere", "upstream", "dev");
    assert!(config.contains(&candidate));
}

#[test]
fn duplicate_detected_by_path_alone() {
    let mut config = Config::empty();
    config.add(descriptor("app", "/r/app", "origin", "main"));
    let candidate = descriptor("other", "/r/app", "upstream", "dev");
    assert!(config.contains(&candidate));
}

#[test]
fn unrelated_candidate_not_contained() {
    let mut config = Config::empty();
    config.add(descriptor("app", "/r/app", "origin", "main"));
    let candidate = descriptor("other", "/r/other", "origin", "main");
    assert!(!config.contains(&candidate));
}

#[test]
fn listing_sorted_regardless_of_insertion_order() {
    let mut config = Config::empty();
    config.add(descriptor("zeta", "/r/zeta", "origin", "main"));
    config.add(descriptor("alpha", "/r/alpha", "origin", "main"));
    let listed = config.repos_sorted();
    let keys: Vec<&str> = listed.iter().map(|r| r.key.as_str()).collect();
    assert_eq!(keys, vec!["alpha", "zeta"]);
}

#[test]
fn listing_sorted_many_keys() {
    let mut config = Config::empty();
    for key in ["delta", "alpha", "charlie", "bravo", "echo"] {
        let path = format!("/r/{}", key);
        config.add(descriptor(key, &path, "origin", "main"));
    }
    let listed = config.repos_sorted();
    let keys: Vec<&str> = listed.iter().map(|r| r.key.as_str()).collect();
    assert_eq!(keys, vec!["alpha", "bravo", "charlie", "delta", "echo"]);
}

#[test]
fn add_replaces_entry_with_same_key() {
    let mut config = Config::empty();
    config.add(descriptor("app", "/r/app", "origin", "main"));
    config.add(descriptor("app", "/r/app2", "upstream", "dev"));
    let listed = config.repos_sorted();
    assert_eq!(listed.len(), 1);
    assert_eq!(listed[0].path, "/r/app2");
    assert_eq!(listed[0].branch, "dev");
}

#[test]
fn remove_present_and_absent() {
    let mut config = Config::empty();
    config.add(descriptor("app", "/r/app", "origin", "main"));
    config.add(descriptor("lib", "/r/lib", "origin", "main"));
    assert!(config.remove("app"));
    assert!(!config.remove("app"));
    assert!(!config.remove("missing"));
    let listed = config.repos_sorted();
    assert_eq!(listed.len(), 1);
    assert_eq!(listed[0].key, "lib");
}

#[test]
fn track_rejects_duplicate_and_keeps_registry() {
    let mut config = Config::empty();
    assert!(config.track(descriptor("app", "/r/app", "origin", "main")).is_ok());
    let result = config.track(descriptor("dup", "/r/app", "origin", "main"));
    match result {
        Err(RepoRsError::DuplicateRepo(key)) => assert_eq!(key, "dup"),
        other => panic!("expected DuplicateRepo, got {:?}", other),
    }
    assert_eq!(config.repos_sorted().len(), 1);
}

#[test]
fn track_accepts_fresh_repository() {
    let mut config = Config::empty();
    assert!(config.track(descriptor("app", "/r/app", "origin", "main")).is_ok());
    assert!(config.track(descriptor("lib", "/r/lib", "origin", "main")).is_ok());
    let listed = config.repos_sorted();
    assert_eq!(listed.len(), 2);
    assert_eq!(listed[0].key, "app");
    assert_eq!(listed[1].key, "lib");
}

#[test]
fn error_values_compare_by_structure() {
    let a = RepoRsError::ConfigError("bad json".to_string());
    let b = RepoRsError::ConfigError("bad json".to_string());
    let c = RepoRsError::IOError("disk".to_string());
    assert_eq!(a, b);
    assert_ne!(a, c);
}
