use bllvm_commons::error::GovernanceError;
use bllvm_commons::github::file_operations::{
    compare_files, directory_of, require_directory, same_bytes, ContentKind, FileComparison,
    GitHubFile, GitHubRepo,
};
use bllvm_commons::webhooks::block::block_notification_response;
use bllvm_commons::webhooks::pull_request::repository_layer;

#[test]
fn test_file_comparison_creation() {
    let comparison = FileComparison {
        file_path: "test.txt".to_string(),
        source_sha: "abc123".to_string(),
        target_sha: Some("def456".to_string()),
        is_same: false,
        size_diff: Some(100),
        content_diff: Some("Content differs".to_string()),
    };

    assert_eq!(comparison.file_path, "test.txt");
    assert_eq!(comparison.source_sha, "abc123");
    assert_eq!(comparison.target_sha, Some("def456".to_string()));
    assert!(!comparison.is_same);
    assert_eq!(comparison.size_diff, Some(100));
    assert_eq!(comparison.content_diff, Some("Content differs".to_string()));
}

#[test]
fn test_github_repo_creation() {
    let repo = GitHubRepo {
        owner: "test-owner".to_string(),
        name: "test-repo".to_string(),
        default_branch: "main".to_string(),
        last_commit_sha: "abc123def456".to_string(),
    };

    assert_eq!(repo.owner, "test-owner");
    assert_eq!(repo.name, "test-repo");
    assert_eq!(repo.default_branch, "main");
    assert_eq!(repo.last_commit_sha, "abc123def456");
}

fn file(path: &str, content: &[u8], sha: &str, size: u64) -> GitHubFile {
    GitHubFile {
        path: path.to_string(),
        content: content.to_vec(),
        sha: sha.to_string(),
        size,
        download_url: None,
    }
}

#[test]
fn test_compare_files_same() {
    let a = file("a.rs", b"fn main() {}", "sha1", 12);
    let b = file("b.rs", b"fn main() {}", "sha1", 12);
    let comparison = compare_files("a.rs", &a, Some(&b));
    assert_eq!(comparison.file_path, "a.rs");
    assert_eq!(comparison.source_sha, "sha1");
    assert_eq!(comparison.target_sha, Some("sha1".to_string()));
    assert!(comparison.is_same);
    assert_eq!(comparison.size_diff, Some(0));
    assert_eq!(comparison.content_diff, None);
}

#[test]
fn test_compare_files_different() {
    let a = file("a.rs", b"0123456789", "sha1", 10);
    let b = file("a.rs", b"0123", "sha2", 4);
    let comparison = compare_files("a.rs", &a, Some(&b));
    assert!(!comparison.is_same);
    assert_eq!(comparison.size_diff, Some(6));
    assert_eq!(
        comparison.content_diff,
        Some("Content differs: 10 bytes vs 4 bytes".to_string())
    );
    let reverse = compare_files("a.rs", &b, Some(&a));
    assert_eq!(reverse.size_diff, Some(-6));
}

#[test]
fn test_compare_files_missing_target() {
    let a = file("a.rs", b"x", "sha1", 1);
    let comparison = compare_files("a.rs", &a, None);
    assert!(!comparison.is_same);
    assert_eq!(comparison.target_sha, None);
    assert_eq!(comparison.size_diff, None);
    assert_eq!(comparison.content_diff, Some("Target file does not exist".to_string()));
}

#[test]
fn test_compare_files_size_difference_too_large() {
    let a = file("a", b"", "s", u64::MAX);
    let b = file("a", b"", "s", 0);
    assert_eq!(compare_files("a", &a, Some(&b)).size_diff, None);
    assert_eq!(compare_files("a", &b, Some(&a)).size_diff, None);
}

#[test]
fn test_same_bytes() {
    assert!(same_bytes(&vec![1, 2, 3], &vec![1, 2, 3]));
    assert!(!same_bytes(&vec![1, 2, 3], &vec![1, 2, 4]));
    assert!(!same_bytes(&vec![1, 2, 3], &vec![1, 2]));
    assert!(same_bytes(&vec![], &vec![]));
}

#[test]
fn test_directory_of_sums_sizes() {
    let directory = directory_of("src", vec![file("a", b"", "1", 10), file("b", b"", "2", 32)]);
    assert_eq!(directory.path, "src");
    assert_eq!(directory.files.len(), 2);
    assert!(directory.subdirectories.is_empty());
    assert_eq!(directory.total_size, 42);
    let large = directory_of("big", vec![file("a", b"", "1", u64::MAX), file("b", b"", "2", 1)]);
    assert_eq!(large.total_size, u64::MAX);
}

#[test]
fn test_require_directory() {
    assert!(require_directory("docs", ContentKind::Directory).is_ok());
    match require_directory("docs/a.md", ContentKind::File) {
        Err(GovernanceError::GitHubError(text)) => {
            assert_eq!(text, "Path 'docs/a.md' is a file, not a directory")
        }
        other => panic!("unexpected: {:?}", other),
    }
    match require_directory("l", ContentKind::Symlink) {
        Err(GovernanceError::GitHubError(text)) => {
            assert_eq!(text, "Path 'l' is a symlink, not a directory")
        }
        other => panic!("unexpected: {:?}", other),
    }
    match require_directory("m", ContentKind::Submodule) {
        Err(GovernanceError::GitHubError(text)) => {
            assert_eq!(text, "Path 'm' is a submodule, not a directory")
        }
        other => panic!("unexpected: {:?}", other),
    }
}

#[test]
fn test_repository_layer() {
    assert_eq!(repository_layer("BTCDecoded/bllvm-spec"), Some(1));
    assert_eq!(repository_layer("BTCDecoded/orange-paper"), Some(1));
    assert_eq!(repository_layer("BTCDecoded/bllvm-consensus"), Some(2));
    assert_eq!(repository_layer("BTCDecoded/bllvm-protocol"), Some(3));
    assert_eq!(repository_layer("BTCDecoded/bllvm-node"), Some(4));
    assert_eq!(repository_layer("BTCDecoded/bllvm"), Some(4));
    assert_eq!(repository_layer("BTCDecoded/developer-sdk"), Some(5));
    assert_eq!(repository_layer("BTCDecoded/governance-app"), Some(6));
    assert_eq!(repository_layer("someone/else"), None);
    // The first layer whose name is found wins.
    assert_eq!(repository_layer("x/bllvm-commons-bllvm-spec"), Some(1));
}

#[test]
fn test_block_notification_response() {
    let response = block_notification_response();
    assert!(response.success);
    assert_eq!(response.contributions_found, 0);
    assert_eq!(
        response.message,
        "Fee forwarding removed - block notification received but not processed"
    );
}
