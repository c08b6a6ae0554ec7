use tropical_pm::github::{github_api_url, github_repo_path};
use tropical_pm::project::{
    sort_projects, summarize_statuses, FileStatusType, GitHubStats, Project, RepoScan, StatusFlags,
    MAX_LISTED_CHANGES,
};

fn flags() -> StatusFlags {
    StatusFlags {
        index_new: false,
        index_modified: false,
        index_deleted: false,
        index_renamed: false,
        wt_new: false,
        wt_modified: false,
        wt_deleted: false,
        wt_renamed: false,
    }
}

fn scan(name: &str, statuses: Vec<(String, StatusFlags)>) -> RepoScan {
    RepoScan {
        name: name.to_string(),
        path: format!("/src/{}", name),
        branch: Some("main".to_string()),
        head_commit: Some((1_700_000_000, Some("Initial commit".to_string()))),
        ahead_behind: Some((1, 2)),
        statuses,
    }
}

fn project(name: &str) -> Project {
    Project::from_scan(scan(name, vec![]), None)
}

#[test]
fn status_kinds() {
    let new = StatusFlags { wt_new: true, ..flags() };
    let staged = StatusFlags { index_new: true, ..flags() };
    let renamed = StatusFlags { index_renamed: true, ..flags() };
    let gone = StatusFlags { wt_deleted: true, ..flags() };
    assert!(new.is_new() && staged.is_new() && !renamed.is_new());
    assert!(renamed.is_modified() && StatusFlags { wt_modified: true, ..flags() }.is_modified());
    assert!(gone.is_deleted() && StatusFlags { index_deleted: true, ..flags() }.is_deleted());
    assert!(!flags().is_new() && !flags().is_modified() && !flags().is_deleted());
}

#[test]
fn summary_counts_and_order() {
    let entries = vec![
        ("a.rs".to_string(), StatusFlags { wt_modified: true, ..flags() }),
        ("b.rs".to_string(), StatusFlags { wt_new: true, ..flags() }),
        ("c.rs".to_string(), StatusFlags { index_deleted: true, ..flags() }),
        ("d.rs".to_string(), StatusFlags { index_new: true, wt_modified: true, wt_deleted: true, ..flags() }),
        ("e.rs".to_string(), flags()),
    ];
    let s = summarize_statuses(&entries);
    assert_eq!((s.untracked, s.modified, s.deleted), (2, 2, 2));
    let files: Vec<(&str, FileStatusType)> = s.changed_files.iter().map(|(p, k)| (p.as_str(), *k)).collect();
    assert_eq!(
        files,
        vec![
            ("a.rs", FileStatusType::Modified),
            ("b.rs", FileStatusType::Untracked),
            ("c.rs", FileStatusType::Deleted),
            ("d.rs", FileStatusType::Untracked),
            ("d.rs", FileStatusType::Modified),
            ("d.rs", FileStatusType::Deleted),
        ]
    );
}

#[test]
fn summary_keeps_first_fifteen_changes() {
    let entries: Vec<(String, StatusFlags)> = (0..10)
        .map(|i| (format!("f{}", i), StatusFlags { wt_new: true, wt_modified: true, ..flags() }))
        .collect();
    let s = summarize_statuses(&entries);
    assert_eq!((s.untracked, s.modified, s.deleted), (10, 10, 0));
    assert_eq!(s.changed_files.len(), MAX_LISTED_CHANGES);
    assert_eq!(s.changed_files[14], ("f7".to_string(), FileStatusType::Untracked));
    let total = s.untracked + s.modified + s.deleted;
    assert_eq!(total - s.changed_files.len(), 5);
}

#[test]
fn empty_summary() {
    let s = summarize_statuses(&vec![]);
    assert_eq!((s.untracked, s.modified, s.deleted), (0, 0, 0));
    assert!(s.changed_files.is_empty());
}

#[test]
fn project_from_full_scan() {
    let p = Project::from_scan(
        scan("alpha", vec![("x".to_string(), StatusFlags { wt_new: true, ..flags() })]),
        Some(GitHubStats { stars: 3, forks: 1, open_issues: 0, url: "https://github.com/o/alpha".to_string() }),
    );
    assert_eq!(p.name, "alpha");
    assert_eq!(p.path, "/src/alpha");
    assert_eq!(p.current_branch, "main");
    assert_eq!(p.last_commit_time, 1_700_000_000);
    assert_eq!(p.last_commit_msg.as_deref(), Some("Initial commit"));
    assert_eq!((p.ahead, p.behind), (1, 2));
    assert!(p.is_dirty);
    assert_eq!(p.untracked, 1);
    assert_eq!(p.github_stats.as_ref().map(|g| g.stars), Some(3));
}

#[test]
fn project_from_bare_scan() {
    let bare = RepoScan {
        name: "empty".to_string(),
        path: "/src/empty".to_string(),
        branch: None,
        head_commit: None,
        ahead_behind: None,
        statuses: vec![],
    };
    let p = Project::from_scan(bare, None);
    assert_eq!(p.current_branch, "unknown");
    assert_eq!(p.last_commit_time, 0);
    assert!(p.last_commit_msg.is_none());
    assert_eq!((p.ahead, p.behind), (0, 0));
    assert!(!p.is_dirty);
    assert!(p.changed_files.is_empty());
    assert!(p.github_stats.is_none());
}

#[test]
fn dirty_exactly_when_files_listed() {
    let clean = Project::from_scan(scan("c", vec![("x".to_string(), flags())]), None);
    assert!(!clean.is_dirty && clean.changed_files.is_empty());
    let dirty = Project::from_scan(scan("d", vec![("x".to_string(), StatusFlags { wt_deleted: true, ..flags() })]), None);
    assert!(dirty.is_dirty && !dirty.changed_files.is_empty());
}

#[test]
fn sort_is_case_insensitive_and_stable() {
    let mut ps = vec![project("b"), project("C"), project("B"), project("a"), project("Ab")];
    sort_projects(&mut ps);
    let names: Vec<&str> = ps.iter().map(|p| p.name.as_str()).collect();
    assert_eq!(names, vec!["a", "Ab", "b", "B", "C"]);
    let mut again = vec![project("B"), project("b")];
    sort_projects(&mut again);
    let names: Vec<&str> = again.iter().map(|p| p.name.as_str()).collect();
    assert_eq!(names, vec!["B", "b"]);
}

#[test]
fn sort_of_nothing() {
    let mut ps: Vec<Project> = vec![];
    sort_projects(&mut ps);
    assert!(ps.is_empty());
    let mut one = vec![project("Zed")];
    sort_projects(&mut one);
    assert_eq!(one[0].name, "Zed");
}

#[test]
fn repo_paths_of_remotes() {
    assert_eq!(github_repo_path("git@github.com:owner/repo.git").as_deref(), Some("owner/repo"));
    assert_eq!(github_repo_path("https://github.com/owner/repo.git").as_deref(), Some("owner/repo"));
    assert_eq!(github_repo_path("https://github.com/owner/repo").as_deref(), Some("owner/repo"));
    assert_eq!(github_repo_path("http://github.com/owner/repo.git.git").as_deref(), Some("owner/repo"));
    assert_eq!(github_repo_path("https://github.com/a/github.com/b").as_deref(), Some("a/"));
    assert_eq!(github_repo_path("https://github.com/").as_deref(), Some(""));
}

#[test]
fn remotes_without_repo_path() {
    assert_eq!(github_repo_path("https://gitlab.com/owner/repo.git"), None);
    assert_eq!(github_repo_path("git@github.com:owner:repo"), None);
    assert_eq!(github_repo_path("ssh://git@github.com/owner/repo"), None);
    assert_eq!(github_repo_path("https://github.com:443/owner/repo"), None);
    assert_eq!(github_repo_path(""), None);
}

#[test]
fn api_url() {
    assert_eq!(github_api_url("owner/repo"), "https://api.github.com/repos/owner/repo");
}
