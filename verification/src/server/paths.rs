use vstd::prelude::*;
use vstd::string::*;

verus! {

/// `base` joined with `name`: an absolute `name` replaces `base`; otherwise
/// a `/` separates them unless `base` is empty or already ends in one.
pub open spec fn spec_path_join(base: Seq<char>, name: Seq<char>) -> Seq<char> {
    if name.len() > 0 && name[0] == '/' {
        name
    } else if base.len() > 0 && base.last() != '/' {
        base + seq!['/'] + name
    } else {
        base + name
    }
}

/// The parent of a path, as `std::path::Path::parent` computes it; `None`
/// for a path that ends in a root or is empty.
pub uninterp spec fn path_parent_of(path: Seq<char>) -> Option<Seq<char>>;

/// Joins `name` onto `base` as a further path component.
pub fn path_join(base: &str, name: &str) -> (r: String)
    ensures
        r@ == spec_path_join(base@, name@),
{
    proof {
        reveal_strlit("/");
    }
    let name_len = name.unicode_len();
    if name_len > 0 && name.get_char(0) == '/' {
        return String::from_str(name);
    }
    let base_len = base.unicode_len();
    let mut r = String::from_str(base);
    if base_len > 0 && base.get_char(base_len - 1) != '/' {
        r.append("/");
    }
    r.append(name);
    r
}

/// Calls `std::path::Path::parent` on `path`. The parent of a path given as
/// a `str` is a prefix of it that ends at a component boundary, so it is
/// valid UTF-8 too.
#[verifier::external_body]
pub(crate) fn path_parent(path: &str) -> (r: Option<String>)
    ensures
        match r {
            Some(p) => path_parent_of(path@) == Some(p@),
            None => path_parent_of(path@) is None,
        },
{
    std::path::Path::new(path).parent().map(|p| p.to_string_lossy().into_owned())
}

} // verus!
