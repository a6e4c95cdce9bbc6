//! The sandbox root: the directory under which every mount target lies.

use vstd::prelude::*;
use vstd::string::StringExecFns;
use crate::text::chars_of;

verus! {

/// Whether `s` can serve as a sandbox root: it is not empty and ends with
/// the path separator.
pub open spec fn is_base_path(s: Seq<char>) -> bool {
    s.len() > 0 && s.last() == '/'
}

/// `s`, with a path separator added unless it ends with one.
pub open spec fn with_trailing_slash(s: Seq<char>) -> Seq<char> {
    if is_base_path(s) {
        s
    } else {
        s.push('/')
    }
}

/// The sandbox root. It is set once and never changes; it is never empty and
/// always ends with the path separator.
#[derive(Debug)]
pub struct MountBasePath {
    path: String,
    chars: Vec<char>,
}

impl View for MountBasePath {
    type V = Seq<char>;

    closed spec fn view(&self) -> Seq<char> {
        self.path@
    }
}

impl MountBasePath {
    #[verifier::type_invariant]
    spec fn well_formed(self) -> bool {
        self.chars@ == self.path@ && is_base_path(self.path@)
    }

    /// The root as text.
    pub fn as_str(&self) -> (r: &str)
        ensures
            r@ == self@,
            is_base_path(r@),
    {
        proof {
            use_type_invariant(self);
        }
        self.path.as_str()
    }

    /// The root as characters.
    pub fn chars(&self) -> (r: &Vec<char>)
        ensures
            r@ == self@,
            is_base_path(r@),
    {
        proof {
            use_type_invariant(self);
        }
        &self.chars
    }
}

/// Makes the sandbox root from the configured directory: the directory as
/// given, with a path separator added unless it already ends with one.
pub fn init_mount_base_path(mount_base_path: String) -> (r: MountBasePath)
    ensures
        r@ == with_trailing_slash(mount_base_path@),
{
    let mut chars = chars_of(mount_base_path.as_str());
    let n = chars.len();
    if n > 0 && chars[n - 1] == '/' {
        MountBasePath { path: mount_base_path, chars }
    } else {
        proof {
            reveal_strlit("/");
            assert("/"@ =~= seq!['/']);
            assert(mount_base_path@ + seq!['/'] =~= mount_base_path@.push('/'));
        }
        chars.push('/');
        MountBasePath { path: mount_base_path.concat("/"), chars }
    }
}

} // verus!
