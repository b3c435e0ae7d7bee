//! The files that the site is made of, and the paths under which they are
//! asked for.

use crate::text::has_prefix;
use crate::text::leading;
use crate::text::replace_all;
use crate::text::replaced;
use crate::text::trim_leading;
use vstd::prelude::*;
use vstd::string::StringExecFns;

verus! {

/// A file of the site, by its path among the site's files.
#[derive(Debug)]
pub struct StaticFile<T>(pub T);

/// The path of a file among the site's files for the path of a request: the
/// request's path without the slashes at its start and, where what is left
/// begins with `dist/`, without any `dist/` in it.
pub open spec fn asset_path(uri_path: Seq<char>) -> Seq<char> {
    let path = uri_path.skip(leading(uri_path, '/') as int);
    if "dist/"@.is_prefix_of(path) {
        replaced(path, "dist/"@, Seq::empty())
    } else {
        path
    }
}

/// Names the file of the site that a request for `uri_path` asks for.
pub fn static_handler(uri_path: &str) -> (file: StaticFile<String>)
    ensures
        file.0@ == asset_path(uri_path@),
{
    let path = trim_leading(uri_path, '/');
    if has_prefix(path, "dist/") {
        proof {
            reveal_strlit("dist/");
            reveal_strlit("");
            assert(""@ =~= Seq::<char>::empty());
        }
        StaticFile(replace_all(path, "dist/", ""))
    } else {
        StaticFile(String::from_str(path))
    }
}

/// The file that is served where a request names none.
pub fn index_handler() -> (file: StaticFile<String>)
    ensures
        file.0@ == "index.html"@,
{
    proof {
        reveal_strlit("/index.html");
        reveal_strlit("index.html");
        reveal_strlit("dist/");
        let path = "/index.html"@;
        assert(path.skip(1)[0] == 'i');
        assert(leading(path.skip(1), '/') == 0);
        assert(leading(path, '/') == 1);
        assert(path.skip(1) =~= "index.html"@);
        assert("dist/"@[0] != "index.html"@[0]);
        assert("index.html"@.subrange(0, 5)[0] == 'i');
    }
    static_handler("/index.html")
}

} // verus!
