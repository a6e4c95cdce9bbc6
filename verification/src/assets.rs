//! Where the files of the user interface lie.

use vstd::prelude::*;
use vstd::string::StringExecFns;

verus! {

/// The directory that holds the user interface.
pub open spec fn ui_directory() -> Seq<char> {
    "ui/"@
}

/// The file served where a request names none.
pub open spec fn ui_index() -> Seq<char> {
    "index.html"@
}

/// The file that a request for `tail` is answered with.
pub open spec fn ui_file(tail: Option<Seq<char>>) -> Seq<char> {
    match tail {
        Some(name) => if name.len() == 0 {
            ui_directory() + ui_index()
        } else {
            ui_directory() + name
        },
        None => ui_directory() + ui_index(),
    }
}

/// Path of the file to serve for the rest `tail` of a request's path: the
/// named file under the interface's directory, or the index where the
/// request names none.
pub fn ui(tail: Option<&str>) -> (r: String)
    ensures
        r@ == ui_file(
            match tail {
                Some(name) => Some(name@),
                None => None,
            },
        ),
{
    let name = match tail {
        Some(name) => if name.is_empty() {
            "index.html"
        } else {
            name
        },
        None => "index.html",
    };
    String::from_str("ui/").concat(name)
}

} // verus!
