use vstd::prelude::*;

verus! {

/// `base/path`.
pub open spec fn joined(base: Seq<char>, path: Seq<char>) -> Seq<char> {
    base + seq!['/'] + path
}

/// `context: cause`, the shape every error message takes.
pub open spec fn in_context(context: Seq<char>, cause: Seq<char>) -> Seq<char> {
    context + seq![':', ' '] + cause
}

/// Joins an address and a path with one slash.
pub fn join_url(base: &str, path: &str) -> (r: String)
    ensures
        r@ == joined(base@, path@),
{
    let mut r = String::from_str(base);
    r.append("/");
    r.append(path);
    proof {
        reveal_strlit("/");
    }
    r
}

/// Prefixes a failure's cause with what was being done.
pub fn with_context(context: &str, cause: &str) -> (r: String)
    ensures
        r@ == in_context(context@, cause@),
{
    let mut r = String::from_str(context);
    r.append(": ");
    r.append(cause);
    proof {
        reveal_strlit(": ");
    }
    r
}

/// Whether `s` holds a slash.
pub fn has_slash(s: &str) -> (r: bool)
    ensures
        r == s@.contains('/'),
{
    let n = s.unicode_len();
    let mut i: usize = 0;
    while i < n
        invariant
            n == s@.len(),
            i <= n,
            forall|j: int| 0 <= j < i ==> s@[j] != '/',
        decreases n - i,
    {
        if s.get_char(i) == '/' {
            return true;
        }
        i = i + 1;
    }
    false
}

} // verus!
