//! Path resolution: from a record name, a directory (explicit or taken from
//! the configurable default), and an encoding's extension to the file path,
//! plus the parent-directory computation used when a caller supplies a full
//! path.

use vstd::prelude::*;
use vstd::string::StrSliceExecFns;
use vstd::string::StringExecFns;
use crate::format::SaveFormat;

verus! {

/// The vault's configuration: the directory consulted whenever a call omits
/// an explicit directory. It starts as the conventional config directory
/// and may be replaced as a whole at any time; every later resolution that
/// omits a directory sees the replacement.
pub struct VaultConfig {
    custom_dir: String,
}

impl VaultConfig {
    /// The directory this configuration resolves omitted directories to.
    pub closed spec fn dir_spec(self) -> Seq<char> {
        self.custom_dir@
    }

    /// Replaces the default directory as a whole with `path`.
    pub fn set_custom_dir(&mut self, path: &str)
        ensures
            final(self).dir_spec() == path@,
    {
        self.custom_dir = path.to_owned();
    }

    /// Reads the current default directory.
    pub fn dir(&self) -> (r: &str)
        ensures
            r@ == self.dir_spec(),
    {
        self.custom_dir.as_str()
    }
}

impl Default for VaultConfig {
    /// A fresh configuration resolves omitted directories to `".config"`.
    fn default() -> (r: Self)
        ensures
            r.dir_spec() == ".config"@,
    {
        VaultConfig { custom_dir: ".config".to_owned() }
    }
}

/// The path under which a record named `name` is stored: the directory,
/// a separator, the record name as the file stem, a dot, and the
/// encoding's extension, in that order.
pub open spec fn joined_path(dir: Seq<char>, name: Seq<char>, ext: Seq<char>) -> Seq<char> {
    dir + "/"@ + name + "."@ + ext
}

/// The resolved path of a record: the explicit directory when one is given,
/// the configured default directory otherwise, joined with the record name
/// and the encoding's extension.
pub open spec fn resolve_spec(
    name: Seq<char>,
    dir: Option<Seq<char>>,
    config_dir: Seq<char>,
    format: SaveFormat,
) -> Seq<char> {
    match dir {
        Some(d) => joined_path(d, name, format.ext_spec()),
        None => joined_path(config_dir, name, format.ext_spec()),
    }
}

/// Builds the path for the record `file_name` under `dir`, or under the
/// configured default directory when `dir` is absent, with `format`'s
/// extension. Resolution is deterministic: the same name, directory and
/// encoding against the same configuration give the identical path.
pub fn build_path(
    file_name: &str,
    dir: Option<&str>,
    config: &VaultConfig,
    format: SaveFormat,
) -> (r: String)
    ensures
        r@ == resolve_spec(
            file_name@,
            match dir {
                Some(d) => Some(d@),
                None => None,
            },
            config.dir_spec(),
            format,
        ),
{
    let base: &str = match dir {
        Some(d) => d,
        None => config.dir(),
    };
    let mut p: String = base.to_owned();
    p.append("/");
    p.append(file_name);
    p.append(".");
    p.append(format.as_ext());
    p
}

/// The parent directory of a path: the characters before the last
/// separator. A bare file name has no parent; neither has a path whose only
/// separator leads it, since there is then no directory to create.
pub open spec fn parent_spec(path: Seq<char>) -> Option<Seq<char>> {
    match path.index_of_last('/') {
        Some(i) => if i == 0 {
            None
        } else {
            Some(path.subrange(0, i))
        },
        None => None,
    }
}

/// Returns the parent directory of `path` that must exist before a file can
/// be written at `path`, or `None` when `path` names no directory segment.
pub fn parent_dir(path: &str) -> (r: Option<String>)
    ensures
        (match r {
            Some(p) => parent_spec(path@) == Some(p@),
            None => parent_spec(path@) is None,
        }),
{
    proof {
        path@.index_of_last_ensures('/');
    }
    let len = path.unicode_len();
    let mut i = len;
    while i > 0
        invariant
            i <= len,
            len == path@.len(),
            forall|k: int| i <= k < len ==> path@[k] != '/',
        decreases i,
    {
        i = i - 1;
        if path.get_char(i) == '/' {
            proof {
                path@.index_of_last_ensures('/');
                assert((i as int) < path@.len() && path@[i as int] == '/');
                assert(path@.contains('/'));
                assert(path@.index_of_last('/') is Some);
                let idx = path@.index_of_last('/')->Some_0;
                if idx < i as int {
                    assert(path@[i as int] != '/');
                } else if idx > i as int {
                    assert(path@[idx] != '/');
                }
                assert(path@.index_of_last('/') == Some(i as int));
            }
            if i == 0 {
                return None;
            }
            let p = path.substring_char(0, i);
            return Some(p.to_owned());
        }
    }
    assert(path@.index_of_last('/') is None) by {
        if path@.contains('/') {
            let j = choose|j: int| 0 <= j < path@.len() && path@[j] == '/';
            assert(path@[j] != '/');
        }
    }
    None
}

} // verus!
