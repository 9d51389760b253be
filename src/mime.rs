use vstd::prelude::*;
use vstd::string::StrSliceExecFns;

verus! {

/// The MIME type served for a file extension; matching is case-sensitive.
pub open spec fn mime_of(ext: Seq<char>) -> Seq<char> {
    if ext == "wasm"@ {
        "application/wasm"@
    } else if ext == "html"@ {
        "text/html"@
    } else if ext == "png"@ {
        "image/png"@
    } else if ext == "json"@ {
        "text/json"@
    } else if ext == "jpeg"@ || ext == "jpg"@ {
        "image/jpeg"@
    } else {
        "text/plain"@
    }
}

/// The position of the last `c` among the first `n` characters of `s`, or -1.
pub open spec fn last_index(s: Seq<char>, c: char, n: int) -> int
    decreases n,
{
    if n <= 0 {
        -1
    } else if s[n - 1] == c {
        n - 1
    } else {
        last_index(s, c, n - 1)
    }
}

/// The extension of a path: the text after the last `.` of its final
/// `/`-separated segment. A segment with no `.`, or whose only `.` leads it
/// (a hidden file such as `.profile`), has none.
pub open spec fn extension_of(path: Seq<char>) -> Option<Seq<char>> {
    let segment = last_index(path, '/', path.len() as int) + 1;
    let dot = last_index(path, '.', path.len() as int);
    if dot > segment {
        Some(path.subrange(dot + 1, path.len() as int))
    } else {
        None
    }
}

/// The content type of the file at `path`; a path without an extension is
/// served as `html`.
pub open spec fn content_type_of(path: Seq<char>) -> Seq<char> {
    match extension_of(path) {
        Some(ext) => mime_of(ext),
        None => mime_of("html"@),
    }
}

proof fn lemma_last_index_bounds(s: Seq<char>, c: char, n: int)
    requires
        0 <= n <= s.len(),
    ensures
        -1 <= last_index(s, c, n) < n,
    decreases n,
{
    if n > 0 {
        lemma_last_index_bounds(s, c, n - 1);
    }
}

fn find_last(s: &str, n: usize, c: char) -> (r: Option<usize>)
    requires
        n == s@.len(),
    ensures
        match r {
            Some(k) => k as int == last_index(s@, c, n as int) && k < n,
            None => last_index(s@, c, n as int) == -1,
        },
{
    let mut k = n;
    while k > 0
        invariant
            k <= n,
            n == s@.len(),
            last_index(s@, c, n as int) == last_index(s@, c, k as int),
        decreases k,
    {
        if s.get_char(k - 1) == c {
            return Some(k - 1);
        }
        k = k - 1;
    }
    None
}

/// Whether two strings hold the same characters.
fn same_text(a: &str, b: &str) -> (r: bool)
    ensures
        r == (a@ == b@),
{
    let n = a.unicode_len();
    if n != b.unicode_len() {
        return false;
    }
    let mut i: usize = 0;
    while i < n
        invariant
            i <= n,
            n == a@.len(),
            n == b@.len(),
            forall|k: int| 0 <= k < i ==> a@[k] == b@[k],
        decreases n - i,
    {
        if a.get_char(i) != b.get_char(i) {
            return false;
        }
        i = i + 1;
    }
    assert(a@ =~= b@);
    true
}

/// The MIME type for a file extension, `text/plain` for any extension outside
/// the table.
pub fn content_type(extension: &str) -> (r: &'static str)
    ensures
        r@ == mime_of(extension@),
{
    if same_text(extension, "wasm") {
        "application/wasm"
    } else if same_text(extension, "html") {
        "text/html"
    } else if same_text(extension, "png") {
        "image/png"
    } else if same_text(extension, "json") {
        "text/json"
    } else if same_text(extension, "jpeg") || same_text(extension, "jpg") {
        "image/jpeg"
    } else {
        "text/plain"
    }
}

/// The extension of `path`, if it has one.
pub fn file_extension(path: &str) -> (r: Option<&str>)
    ensures
        match r {
            Some(e) => extension_of(path@) == Some(e@),
            None => extension_of(path@) is None,
        },
{
    let n = path.unicode_len();
    proof {
        lemma_last_index_bounds(path@, '.', n as int);
        lemma_last_index_bounds(path@, '/', n as int);
    }
    match find_last(path, n, '.') {
        None => None,
        Some(dot) => {
            let segment = match find_last(path, n, '/') {
                Some(slash) => slash + 1,
                None => 0,
            };
            if dot > segment {
                let ext = path.substring_char(dot + 1, n);
                Some(ext)
            } else {
                None
            }
        },
    }
}

/// The content type of the file at `path`.
pub fn path_content_type(path: &str) -> (r: &'static str)
    ensures
        r@ == content_type_of(path@),
{
    match file_extension(path) {
        Some(ext) => content_type(ext),
        None => content_type("html"),
    }
}

} // verus!
