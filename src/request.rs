use vstd::prelude::*;
use vstd::string::StrSliceExecFns;

verus! {

/// Unicode White_Space, the characters that separate tokens on a request line.
pub open spec fn is_space(c: char) -> bool {
    let v = c as u32;
    (9 <= v <= 13) || v == 32 || v == 0x85 || v == 0xA0 || v == 0x1680 || (0x2000 <= v <= 0x200A)
        || v == 0x2028 || v == 0x2029 || v == 0x202F || v == 0x205F || v == 0x3000
}

fn space(c: char) -> (r: bool)
    ensures
        r == is_space(c),
{
    let v = c as u32;
    (9 <= v && v <= 13) || v == 32 || v == 0x85 || v == 0xA0 || v == 0x1680 || (0x2000 <= v && v
        <= 0x200A) || v == 0x2028 || v == 0x2029 || v == 0x202F || v == 0x205F || v == 0x3000
}

/// From position `i`, the first position whose character is not of the kind
/// `spaces` (whitespace when true, non-whitespace when false), or the end.
pub open spec fn skip_run(s: Seq<char>, i: int, spaces: bool) -> int
    decreases s.len() - i,
{
    if 0 <= i < s.len() && is_space(s[i]) == spaces {
        skip_run(s, i + 1, spaces)
    } else {
        i
    }
}

/// The second whitespace-separated token of a request line, if it has one.
pub open spec fn target_of(line: Seq<char>) -> Option<Seq<char>> {
    let first = skip_run(line, 0, true);
    let start = skip_run(line, skip_run(line, first, false), true);
    let end = skip_run(line, start, false);
    if start < end {
        Some(line.subrange(start, end))
    } else {
        None
    }
}

/// Where `target` leads under `root`: the target's leading `/` is dropped, an
/// empty remainder becomes `index.html`, and the result is `<root>/<remainder>`.
/// A target that does not begin with `/` leads nowhere.
pub open spec fn resolved_path(root: Seq<char>, target: Seq<char>) -> Option<Seq<char>> {
    if target.len() > 0 && target[0] == '/' {
        let rest = target.drop_first();
        if rest.len() == 0 {
            Some(root + "/"@ + "index.html"@)
        } else {
            Some(root + "/"@ + rest)
        }
    } else {
        None
    }
}

/// The file path named by a request line under `root`.
pub open spec fn file_path_of(root: Seq<char>, line: Seq<char>) -> Option<Seq<char>> {
    match target_of(line) {
        Some(t) => resolved_path(root, t),
        None => None,
    }
}

/// A target of `/` followed by a non-empty path `p` leads to `<root>/<p>`.
pub proof fn lemma_resolve_nonempty(root: Seq<char>, p: Seq<char>)
    requires
        p.len() > 0,
    ensures
        resolved_path(root, "/"@ + p) == Some(root + "/"@ + p),
{
    reveal_strlit("/");
    assert(("/"@ + p).drop_first() =~= p);
}

/// The bare target `/` leads to the default document `<root>/index.html`.
pub proof fn lemma_resolve_root(root: Seq<char>)
    ensures
        resolved_path(root, "/"@) == Some(root + "/index.html"@),
{
    reveal_strlit("/");
    reveal_strlit("index.html");
    reveal_strlit("/index.html");
    assert(root + "/"@ + "index.html"@ =~= root + "/index.html"@);
}

fn skip(line: &str, n: usize, i: usize, spaces: bool) -> (r: usize)
    requires
        n == line@.len(),
        i <= n,
    ensures
        i <= r <= n,
        r == skip_run(line@, i as int, spaces),
{
    let mut j = i;
    loop
        invariant
            i <= j <= n,
            n == line@.len(),
            skip_run(line@, j as int, spaces) == skip_run(line@, i as int, spaces),
        ensures
            i <= j <= n,
            j == skip_run(line@, i as int, spaces),
        decreases n - j,
    {
        if j == n {
            break;
        }
        if space(line.get_char(j)) != spaces {
            break;
        }
        j = j + 1;
    }
    j
}

/// The request target: the second whitespace-separated token of `line`.
pub fn request_target(line: &str) -> (r: Option<&str>)
    ensures
        match r {
            Some(t) => target_of(line@) == Some(t@),
            None => target_of(line@) is None,
        },
{
    let n = line.unicode_len();
    let first = skip(line, n, 0, true);
    let start = skip(line, n, skip(line, n, first, false), true);
    let end = skip(line, n, start, false);
    if start < end {
        Some(line.substring_char(start, end))
    } else {
        None
    }
}

/// The file path that `target` names under `root`, or `None` where the target
/// does not begin with `/`.
pub fn resolve_path(root: &str, target: &str) -> (r: Option<String>)
    ensures
        match r {
            Some(p) => resolved_path(root@, target@) == Some(p@),
            None => resolved_path(root@, target@) is None,
        },
{
    let n = target.unicode_len();
    if n == 0 || target.get_char(0) != '/' {
        return None;
    }
    let mut path = String::from_str(root);
    path.append("/");
    if n == 1 {
        path.append("index.html");
    } else {
        let rest = target.substring_char(1, n);
        assert(rest@ == target@.drop_first());
        path.append(rest);
    }
    Some(path)
}

/// The file path named by a request line under `root`: `None` where the line
/// has no target or its target does not begin with `/`.
pub fn request_file_path(root: &str, line: &str) -> (r: Option<String>)
    ensures
        match r {
            Some(p) => file_path_of(root@, line@) == Some(p@),
            None => file_path_of(root@, line@) is None,
        },
{
    match request_target(line) {
        Some(target) => resolve_path(root, target),
        None => None,
    }
}

} // verus!
