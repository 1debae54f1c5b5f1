//! Configuration of one export call, and path relativization.
//!
//! The configuration supplies the report credential, the optional CI-tool
//! name, the optional override endpoint, and the project root that the
//! dataset's file paths are relativized against.

use vstd::prelude::*;
use vstd::string::StrSliceExecFns;

verus! {

/// Configuration for one export call.
pub struct Config {
    /// The report credential; without it the export is refused.
    pub coveralls: Option<String>,
    /// CI-tool name; selects the service-token identity variant when present.
    pub ci_tool: Option<String>,
    /// Override submission endpoint; the default hosted endpoint is used
    /// when absent.
    pub report_uri: Option<String>,
    /// The project root that file paths are relativized against.
    pub project_root: String,
}

/// The path relative to `root`: when `root` is non-empty and a prefix of
/// `path`, the remainder with one leading path separator removed;
/// otherwise `path` unchanged.
pub open spec fn rel_path_of(root: Seq<char>, path: Seq<char>) -> Seq<char> {
    if root.len() > 0 && root.len() <= path.len() && path.take(root.len() as int) == root {
        let rest = path.skip(root.len() as int);
        if rest.len() > 0 && rest[0] == '/' {
            rest.drop_first()
        } else {
            rest
        }
    } else {
        path
    }
}

impl Config {
    /// Relativizes `path` against the configured project root.
    pub fn strip_project_path(&self, path: &String) -> (r: String)
        ensures
            r@ == rel_path_of(self.project_root@, path@),
    {
        let n = self.project_root.as_str().unicode_len();
        let m = path.as_str().unicode_len();
        if n == 0 || n > m {
            return path.clone();
        }
        let mut i: usize = 0;
        while i < n
            invariant
                i <= n <= m,
                0 < n,
                n == self.project_root@.len(),
                m == path@.len(),
                forall|j: int| 0 <= j < i ==> path@[j] == self.project_root@[j],
            decreases n - i,
        {
            if path.as_str().get_char(i) != self.project_root.as_str().get_char(i) {
                proof {
                    assert(path@.take(n as int)[i as int] == path@[i as int]);
                    assert(path@.take(n as int) != self.project_root@);
                }
                return path.clone();
            }
            i += 1;
        }
        proof {
            assert(path@.take(n as int) =~= self.project_root@);
        }
        let start: usize = if n < m && path.as_str().get_char(n) == '/' {
            n + 1
        } else {
            n
        };
        let rest = path.as_str().substring_char(start, m);
        proof {
            let tail = path@.skip(n as int);
            if start == n {
                assert(rest@ =~= tail);
            } else {
                assert(tail.len() > 0 && tail[0] == '/');
                assert(rest@ =~= tail.drop_first());
            }
        }
        rest.to_owned()
    }
}

} // verus!
