//! Files of repositories and how two versions of a file compare.

use vstd::prelude::*;
use vstd::string::*;
use crate::error::GovernanceError;
use crate::governance::config_value::opt_text;
use crate::text::{decimal_digits, push_decimal};

verus! {

/// A file in a repository.
#[derive(Debug)]
pub struct GitHubFile {
    pub path: String,
    pub content: Vec<u8>,
    pub sha: String,
    pub size: u64,
    pub download_url: Option<String>,
}

/// A directory in a repository.
#[derive(Debug)]
pub struct GitHubDirectory {
    pub path: String,
    pub files: Vec<GitHubFile>,
    pub subdirectories: Vec<GitHubDirectory>,
    pub total_size: u64,
}

/// A repository.
#[derive(Debug)]
pub struct GitHubRepo {
    pub owner: String,
    pub name: String,
    pub default_branch: String,
    pub last_commit_sha: String,
}

/// How two versions of a file compare.
#[derive(Debug)]
pub struct FileComparison {
    pub file_path: String,
    pub source_sha: String,
    pub target_sha: Option<String>,
    pub is_same: bool,
    pub size_diff: Option<i64>,
    pub content_diff: Option<String>,
}

/// What is said of two contents that differ.
pub open spec fn differs_text(source_len: nat, target_len: nat) -> Seq<char> {
    "Content differs: "@ + decimal_digits(source_len) + " bytes vs "@ + decimal_digits(target_len)
        + " bytes"@
}

/// How a file compares with the file that should match it: the same
/// where the hashes of both are the same, with the difference in size
/// where that can be held, and with a word on the contents where they
/// differ or where the other file is missing.
pub open spec fn compared(
    comparison: FileComparison,
    file_path: Seq<char>,
    source: GitHubFile,
    target: Option<GitHubFile>,
) -> bool {
    &&& comparison.file_path@ == file_path
    &&& comparison.source_sha@ == source.sha@
    &&& match target {
        Some(other) => {
            &&& opt_text(comparison.target_sha) == Some(other.sha@)
            &&& comparison.is_same == (source.sha@ == other.sha@)
            &&& comparison.size_diff == if i64::MIN <= source.size - other.size <= i64::MAX {
                Some((source.size - other.size) as i64)
            } else {
                None
            }
            &&& opt_text(comparison.content_diff) == if source.content@ == other.content@ {
                None
            } else {
                Some(differs_text(source.content@.len(), other.content@.len()))
            }
        },
        None => {
            &&& comparison.target_sha is None
            &&& !comparison.is_same
            &&& comparison.size_diff is None
            &&& opt_text(comparison.content_diff) == Some("Target file does not exist"@)
        },
    }
}

/// Whether two byte strings are the same.
pub fn same_bytes(a: &Vec<u8>, b: &Vec<u8>) -> (same: bool)
    ensures
        same == (a@ == b@),
{
    if a.len() != b.len() {
        return false;
    }
    let mut i: usize = 0;
    while i < a.len()
        invariant
            a@.len() == b@.len(),
            i <= a@.len(),
            forall|k: int| 0 <= k < i ==> a@[k] == b@[k],
        decreases a@.len() - i,
    {
        if a[i] != b[i] {
            return false;
        }
        i = i + 1;
    }
    assert(a@ =~= b@);
    true
}

/// Compares a file with the file that should match it.
pub fn compare_files(file_path: &str, source: &GitHubFile, target: Option<&GitHubFile>) -> (comparison:
    FileComparison)
    ensures
        compared(
            comparison,
            file_path@,
            *source,
            match target {
                Some(other) => Some(*other),
                None => None,
            },
        ),
{
    match target {
        Some(other) => {
            let is_same = source.sha == other.sha;
            let wide: i128 = (source.size as i128) - (other.size as i128);
            let size_diff = if -0x8000_0000_0000_0000 <= wide && wide <= 0x7fff_ffff_ffff_ffff {
                Some(wide as i64)
            } else {
                None
            };
            let content_diff = if same_bytes(&source.content, &other.content) {
                None
            } else {
                let mut text = "Content differs: ".to_owned();
                push_decimal(&mut text, source.content.len() as u64);
                text.append(" bytes vs ");
                push_decimal(&mut text, other.content.len() as u64);
                text.append(" bytes");
                Some(text)
            };
            FileComparison {
                file_path: file_path.to_owned(),
                source_sha: source.sha.clone(),
                target_sha: Some(other.sha.clone()),
                is_same,
                size_diff,
                content_diff,
            }
        },
        None => FileComparison {
            file_path: file_path.to_owned(),
            source_sha: source.sha.clone(),
            target_sha: None,
            is_same: false,
            size_diff: None,
            content_diff: Some("Target file does not exist".to_owned()),
        },
    }
}

/// What stands at a path of a repository.
#[derive(Debug, Clone, Copy, PartialEq, Eq, Structural)]
pub enum ContentKind {
    Directory,
    File,
    Symlink,
    Submodule,
}

/// What is said of a path that is no directory.
pub open spec fn not_a_directory(path: Seq<char>, kind: ContentKind) -> Seq<char> {
    "Path '"@ + path + match kind {
        ContentKind::File => "' is a file, not a directory"@,
        ContentKind::Symlink => "' is a symlink, not a directory"@,
        _ => "' is a submodule, not a directory"@,
    }
}

/// Whether what stands at a path can be listed: a directory can, and
/// anything else is an error of the code host that says what stands
/// there.
pub fn require_directory(path: &str, kind: ContentKind) -> (result: Result<(), GovernanceError>)
    ensures
        match result {
            Ok(_) => kind == ContentKind::Directory,
            Err(e) => kind != ContentKind::Directory && e is GitHubError && e.text()
                == not_a_directory(path@, kind),
        },
{
    let tail = match kind {
        ContentKind::Directory => {
            return Ok(());
        },
        ContentKind::File => "' is a file, not a directory",
        ContentKind::Symlink => "' is a symlink, not a directory",
        ContentKind::Submodule => "' is a submodule, not a directory",
    };
    Err(GovernanceError::GitHubError(crate::text::concat3("Path '", path, tail)))
}

/// The sizes of the first `n` files, added up.
pub open spec fn sizes_sum(files: Seq<GitHubFile>, n: int) -> int
    decreases n,
{
    if n <= 0 {
        0
    } else {
        sizes_sum(files, n - 1) + files[n - 1].size as int
    }
}

/// A directory made of its files: the total size is the sum of their
/// sizes, and the largest number where the sum is beyond it.
pub fn directory_of(path: &str, files: Vec<GitHubFile>) -> (directory: GitHubDirectory)
    ensures
        directory.path@ == path@,
        directory.files == files,
        directory.subdirectories@.len() == 0,
        directory.total_size == if sizes_sum(files@, files@.len() as int) <= u64::MAX {
            sizes_sum(files@, files@.len() as int)
        } else {
            u64::MAX as int
        },
{
    let mut total: u64 = 0;
    let mut i: usize = 0;
    while i < files.len()
        invariant
            i <= files@.len(),
            total == if sizes_sum(files@, i as int) <= u64::MAX {
                sizes_sum(files@, i as int)
            } else {
                u64::MAX as int
            },
            sizes_sum(files@, i as int) >= 0,
        decreases files@.len() - i,
    {
        let size = files[i].size;
        total = if total <= 0xffff_ffff_ffff_ffff - size {
            total + size
        } else {
            0xffff_ffff_ffff_ffff
        };
        i = i + 1;
    }
    GitHubDirectory { path: path.to_owned(), files, subdirectories: Vec::new(), total_size: total }
}

} // verus!
