//! Version information for source code, derived from a `git describe`
//! string: either tag, number of additional commits and abbreviated commit
//! hash, or just the commit hash when no tag was found.

use vstd::prelude::*;
use vstd::string::{StrSliceExecFns, StringExecFns};
use crate::strutil::str_eq;

verus! {

/// A lowercase hexadecimal digit.
pub open spec fn is_hex_lower(c: char) -> bool {
    ('0' <= c <= '9') || ('a' <= c <= 'f')
}

/// The greatest index no greater than `k` holding a separator, or -1 if
/// there is none at or below `k`.
pub open spec fn last_sep(s: Seq<char>, k: int) -> int
    decreases k,
{
    if k < 1 {
        -1
    } else if s[k] == '-' {
        k
    } else {
        last_sep(s, k - 1)
    }
}

/// True if the string has the long `git describe` form
/// `<tag>-<commits>-g<12 hex digits>`: it ends in `-g` followed by twelve
/// lowercase hexadecimal digits, and what precedes splits at a separator
/// into a nonempty tag and a nonempty commit count. The tag is greedy: the
/// split is at the last separator.
pub open spec fn spec_git_describe_match(s: Seq<char>) -> bool {
    &&& s.len() >= 17
    &&& s[s.len() - 14] == '-'
    &&& s[s.len() - 13] == 'g'
    &&& forall|i: int| s.len() - 12 <= i < s.len() ==> is_hex_lower(#[trigger] s[i])
    &&& last_sep(s, s.len() - 16) >= 1
}

/// Git version data.
#[derive(Clone, Debug)]
pub struct GitVersion {
    /// Abbreviated commit hash.
    pub commit_hash: String,
    /// Tag name.
    pub tag: Option<String>,
    /// Number of additional commits on top of the tag.
    pub num_commits: Option<String>,
}

impl GitVersion {
    /// Parses a long `git describe` string into tag, commit count and
    /// commit hash; anything of another shape is taken whole as the commit
    /// hash, with no tag.
    pub fn parse_git_ver(git_ver: &str) -> (r: GitVersion)
        ensures
            spec_git_describe_match(git_ver@) ==> {
                let k = last_sep(git_ver@, git_ver@.len() - 16);
                &&& r.tag matches Some(tag) && tag@ == git_ver@.subrange(0, k)
                &&& r.num_commits matches Some(num) && num@ == git_ver@.subrange(
                    k + 1,
                    git_ver@.len() - 14,
                )
                &&& r.commit_hash@ == git_ver@.subrange(
                    git_ver@.len() - 12,
                    git_ver@.len() as int,
                )
            },
            !spec_git_describe_match(git_ver@) ==> {
                &&& r.commit_hash@ == git_ver@
                &&& r.tag is None
                &&& r.num_commits is None
            },
    {
        let n = git_ver.unicode_len();
        if n < 17 {
            return GitVersion { commit_hash: git_ver.to_owned(), tag: None, num_commits: None };
        }
        if git_ver.get_char(n - 14) != '-' || git_ver.get_char(n - 13) != 'g' {
            return GitVersion { commit_hash: git_ver.to_owned(), tag: None, num_commits: None };
        }
        let mut i: usize = n - 12;
        while i < n
            invariant
                n == git_ver@.len(),
                n - 12 <= i <= n,
                forall|j: int| n - 12 <= j < i ==> is_hex_lower(#[trigger] git_ver@[j]),
            decreases n - i,
        {
            let c = git_ver.get_char(i);
            if !(('0' <= c && c <= '9') || ('a' <= c && c <= 'f')) {
                return GitVersion {
                    commit_hash: git_ver.to_owned(),
                    tag: None,
                    num_commits: None,
                };
            }
            i += 1;
        }
        // Find the last separator splitting the tag from the commit count.
        let mut k: usize = n - 16;
        loop
            invariant
                n == git_ver@.len(),
                n >= 17,
                1 <= k <= n - 16,
                git_ver@[n - 14] == '-',
                git_ver@[n - 13] == 'g',
                forall|j: int| n - 12 <= j < n ==> is_hex_lower(#[trigger] git_ver@[j]),
                last_sep(git_ver@, (n - 16) as int) == last_sep(git_ver@, k as int),
            decreases k,
        {
            if git_ver.get_char(k) == '-' {
                let tag = git_ver.substring_char(0, k);
                let num = git_ver.substring_char(k + 1, n - 14);
                let hash = git_ver.substring_char(n - 12, n);
                return GitVersion {
                    commit_hash: hash.to_owned(),
                    tag: Some(tag.to_owned()),
                    num_commits: Some(num.to_owned()),
                };
            }
            if k == 1 {
                proof {
                    assert(last_sep(git_ver@, 0) == -1);
                }
                return GitVersion {
                    commit_hash: git_ver.to_owned(),
                    tag: None,
                    num_commits: None,
                };
            }
            k -= 1;
        }
    }
}

/// Version information for source code.
#[derive(Clone, Debug)]
pub struct VersionInfo {
    /// Commit hash on which the product was built.
    pub commit_hash: String,
    /// Version tag on which the product was built.
    pub version_tag: Option<String>,
    /// Cargo package name.
    pub pkg_name: String,
    /// Cargo package description.
    pub pkg_description: String,
    /// Cargo package version.
    pub pkg_version: Option<String>,
    /// Binary name.
    pub bin_name: String,
    /// Build type (empty for release, "debug" for debug).
    pub build_type: String,
}

/// The package name shown for a package with none.
pub open spec fn spec_shown_pkg_name(pkg_name: Seq<char>) -> Seq<char> {
    if pkg_name.len() == 0 {
        "unknown"@
    } else {
        pkg_name
    }
}

impl VersionInfo {
    /// Creates a new VersionInfo instance: the `git describe` string is
    /// parsed into commit hash and tag, an empty package name shows as
    /// "unknown", and a missing binary name shows as empty.
    pub fn new(
        git_ver: String,
        pkg_name: String,
        pkg_description: String,
        pkg_version: Option<String>,
        bin_name: Option<String>,
        build_type: String,
    ) -> (r: Self)
        ensures
            spec_git_describe_match(git_ver@) ==> {
                let k = last_sep(git_ver@, git_ver@.len() - 16);
                &&& r.commit_hash@ == git_ver@.subrange(
                    git_ver@.len() - 12,
                    git_ver@.len() as int,
                )
                &&& r.version_tag matches Some(tag) && tag@ == git_ver@.subrange(0, k)
            },
            !spec_git_describe_match(git_ver@) ==> r.commit_hash@ == git_ver@ && r.version_tag
                is None,
            r.pkg_name@ == spec_shown_pkg_name(pkg_name@),
            r.pkg_description == pkg_description,
            r.pkg_version == pkg_version,
            (match bin_name {
                Some(name) => r.bin_name == name,
                None => r.bin_name@.len() == 0,
            }),
            r.build_type == build_type,
    {
        let gv = GitVersion::parse_git_ver(git_ver.as_str());
        let pkg_name = if pkg_name.as_str().is_empty() {
            String::from_str("unknown")
        } else {
            pkg_name
        };
        VersionInfo {
            commit_hash: gv.commit_hash,
            version_tag: gv.tag,
            pkg_name,
            pkg_description,
            pkg_version,
            bin_name: match bin_name {
                Some(name) => name,
                None => String::new(),
            },
            build_type,
        }
    }

    /// The description's core: the description itself, a placeholder naming
    /// the package when the description is empty, or the description with
    /// the binary named when that differs from the package name.
    pub open spec fn spec_base_description(self) -> Seq<char> {
        if self.pkg_description@.len() == 0 {
            "Application '"@ + self.pkg_name@ + "'"@
        } else if self.bin_name@.len() > 0 && self.bin_name@ != self.pkg_name@ {
            self.pkg_description@ + " ("@ + self.bin_name@ + ")"@
        } else {
            self.pkg_description@
        }
    }

    /// What `fmt_description` shows: the core description, with the build
    /// type appended when there is one.
    pub open spec fn spec_description(self) -> Seq<char> {
        if self.build_type@.len() == 0 {
            self.spec_base_description()
        } else {
            self.spec_base_description() + " ("@ + self.build_type@ + ")"@
        }
    }

    /// Formats package name and description.
    pub fn fmt_description(&self) -> (s: String)
        ensures
            s@ == self.spec_description(),
    {
        let mut s = if self.pkg_description.as_str().is_empty() {
            let mut b = String::from_str("Application '");
            b.append(self.pkg_name.as_str());
            b.append("'");
            proof {
                assert(b@ =~= self.spec_base_description());
            }
            b
        } else if !self.bin_name.as_str().is_empty() && !str_eq(
            self.bin_name.as_str(),
            self.pkg_name.as_str(),
        ) {
            let mut b = self.pkg_description.clone();
            b.append(" (");
            b.append(self.bin_name.as_str());
            b.append(")");
            proof {
                assert(b@ =~= self.spec_base_description());
            }
            b
        } else {
            self.pkg_description.clone()
        };
        if !self.build_type.as_str().is_empty() {
            s.append(" (");
            s.append(self.build_type.as_str());
            s.append(")");
            proof {
                assert(s@ =~= self.spec_description());
            }
        }
        s
    }

    /// The one-line version rendering: the package version and revision,
    /// with the tag appended when there is one.
    pub open spec fn spec_version_line(self) -> Seq<char> {
        let revision = match self.version_tag {
            Some(tag) => "revision "@ + self.commit_hash@ + " ("@ + tag@ + ")"@,
            None => "revision "@ + self.commit_hash@,
        };
        match self.pkg_version {
            Some(version) => "version "@ + version@ + ", "@ + revision,
            None => revision,
        }
    }

    /// Renders the version as a single line.
    pub fn version_string(&self) -> (s: String)
        ensures
            s@ == self.spec_version_line(),
    {
        let mut s = String::new();
        match &self.pkg_version {
            Some(version) => {
                s.append("version ");
                s.append(version.as_str());
                s.append(", ");
            },
            None => {},
        }
        s.append("revision ");
        s.append(self.commit_hash.as_str());
        match &self.version_tag {
            Some(tag) => {
                s.append(" (");
                s.append(tag.as_str());
                s.append(")");
            },
            None => {},
        }
        proof {
            assert(s@ =~= self.spec_version_line());
        }
        s
    }
}

} // verus!
