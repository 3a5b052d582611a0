//! Resolving the per-user configuration directory.
//!
//! The platform convention (the user's configuration base directory) comes
//! from the `etcetera` crate; everything built on top of it — joining the
//! fixed subfolder and filename — is verified string logic.

use vstd::prelude::*;
use vstd::string::StrSliceExecFns;
use vstd::string::StringExecFns;

verus! {

/// One path component appended to a base path: a separator is added only
/// where the base does not already end with one, as a path join does.
pub open spec fn joined_path(base: Seq<char>, name: Seq<char>) -> Seq<char> {
    if base.len() > 0 && base.last() == '/' {
        base + name
    } else {
        base + seq!['/'] + name
    }
}

/// Appends `name` to `base` as a path component.
pub fn join_path(base: &str, name: &str) -> (r: String)
    ensures
        r@ == joined_path(base@, name@),
{
    let n: usize = base.unicode_len();
    let mut s = base.to_owned();
    if n == 0 || base.get_char(n - 1) != '/' {
        s.append("/");
        proof {
            reveal_strlit("/");
            assert(s@ =~= base@ + seq!['/']);
        }
    }
    s.append(name);
    s
}

/// The per-user directory that holds this tool's configuration.
pub struct DplDir {
    pub config_dir: String,
}

/// Relies on `etcetera::choose_base_strategy` and
/// `etcetera::BaseStrategy::config_dir`: the platform's per-user
/// configuration base directory, or `None` when no home directory can be
/// found.  The result depends on the environment, so nothing more is
/// promised of it.
#[verifier::external_body]
fn user_config_base() -> (r: Option<String>)
{
    match etcetera::choose_base_strategy() {
        Ok(s) => Some(
            etcetera::BaseStrategy::config_dir(&s).to_string_lossy().into_owned(),
        ),
        Err(_) => None,
    }
}

impl DplDir {
    /// The tool's directory under a given configuration base directory.
    pub fn from_base(base: &str) -> (r: DplDir)
        ensures
            r.config_dir@ == joined_path(base@, "dpl"@),
    {
        DplDir { config_dir: join_path(base, "dpl") }
    }

    /// The tool's directory under the platform's per-user configuration
    /// base directory, or `None` when no home directory can be found.
    pub fn new() -> (r: Option<DplDir>)
        ensures
            r matches Some(d) ==> exists|base: Seq<char>|
                d.config_dir@ == joined_path(base, "dpl"@),
    {
        match user_config_base() {
            Some(base) => {
                let d = DplDir::from_base(base.as_str());
                proof {
                    assert(d.config_dir@ == joined_path(base@, "dpl"@));
                }
                Some(d)
            },
            None => None,
        }
    }

    /// The directory that holds the configuration file.
    pub fn config_dir(&self) -> (r: &str)
        ensures
            r@ == self.config_dir@,
    {
        self.config_dir.as_str()
    }
}

} // verus!
