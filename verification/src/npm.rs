//! Path helpers of the local package resolver.

use vstd::prelude::*;

verus! {

/// The directory of `package_name` below `path`: every `/`-separated
/// component of the package name lands one level deeper, which over
/// `/`-separated path strings is one concatenation with a single separator
/// between.
pub fn join_package_name(path: &str, package_name: &str) -> (r: String)
    ensures
        r@ == path@ + seq!['/'] + package_name@,
{
    let mut r = String::from_str(path);
    r.append("/");
    proof {
        reveal_strlit("/");
        assert("/"@ =~= seq!['/']);
    }
    r.append(package_name);
    proof {
        assert(r@ =~= path@ + seq!['/'] + package_name@);
    }
    r
}

} // verus!
