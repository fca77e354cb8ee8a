//! Pure path arithmetic: normalizing a source-file argument and deriving the
//! staging path for the compiled binary inside the temp directory.

use vstd::prelude::*;

verus! {

/// The extension that marks a source file.
pub open spec fn source_extension() -> Seq<char> {
    seq!['.', 'r', 's']
}

/// Whether a path already ends in the source extension.
pub open spec fn has_source_extension(s: Seq<char>) -> bool {
    s.len() >= 3 && s[s.len() - 3] == '.' && s[s.len() - 2] == 'r' && s[s.len() - 1] == 's'
}

/// A path with the source extension appended when it was missing; the
/// identity on paths that already carry it.
pub open spec fn normalized_source(s: Seq<char>) -> Seq<char> {
    if has_source_extension(s) {
        s
    } else {
        s + source_extension()
    }
}

/// Append the source extension unless the input already ends in it.
pub fn normalize_source_path(input: String) -> (r: String)
    ensures
        r@ == normalized_source(input@),
{
    let ghost iv: Seq<char> = input@;
    let n = input.as_str().unicode_len();
    if n >= 3 {
        let c1 = input.as_str().get_char(n - 3);
        let c2 = input.as_str().get_char(n - 2);
        let c3 = input.as_str().get_char(n - 1);
        if c1 == '.' && c2 == 'r' && c3 == 's' {
            return input;
        }
    }
    let r = input.concat(".rs");
    proof {
        reveal_strlit(".rs");
        assert(".rs"@ =~= source_extension());
        assert(r@ =~= normalized_source(iv));
    }
    r
}

/// The index of the last occurrence of `c` in `s`, or -1 when absent.
pub open spec fn last_index_of(s: Seq<char>, c: char) -> int
    decreases s.len(),
{
    if s.len() == 0 {
        -1
    } else if s[s.len() - 1] == c {
        s.len() - 1
    } else {
        last_index_of(s.drop_last(), c)
    }
}

proof fn lemma_last_index_of_found(s: Seq<char>, c: char, j: int)
    requires
        0 <= j < s.len(),
        s[j] == c,
        forall|k: int| j < k < s.len() ==> s[k] != c,
    ensures
        last_index_of(s, c) == j,
    decreases s.len(),
{
    if j < s.len() - 1 {
        lemma_last_index_of_found(s.drop_last(), c, j);
    }
}

proof fn lemma_last_index_of_absent(s: Seq<char>, c: char)
    requires
        forall|k: int| 0 <= k < s.len() ==> s[k] != c,
    ensures
        last_index_of(s, c) == -1,
    decreases s.len(),
{
    if s.len() > 0 {
        lemma_last_index_of_absent(s.drop_last(), c);
    }
}

/// Find the last occurrence of `c`, scanning from the end.
fn find_last_char(s: &str, c: char) -> (r: Option<usize>)
    ensures
        match r {
            Some(j) => j < s@.len() && last_index_of(s@, c) == j as int,
            None => last_index_of(s@, c) == -1,
        },
{
    let n = s.unicode_len();
    let mut i = n;
    while i > 0
        invariant
            i <= n,
            n == s@.len(),
            forall|k: int| i <= k < n ==> s@[k] != c,
        decreases i,
    {
        let ch = s.get_char(i - 1);
        if ch == c {
            proof {
                lemma_last_index_of_found(s@, c, i - 1);
            }
            return Some(i - 1);
        }
        i = i - 1;
    }
    proof {
        lemma_last_index_of_absent(s@, c);
    }
    None
}

/// The final component of a path (everything after the last separator).
pub open spec fn file_name_of(path: Seq<char>) -> Seq<char> {
    path.subrange(last_index_of(path, '/') + 1, path.len() as int)
}

/// The file name with its extension removed: everything before the last dot,
/// unless the only dot leads the name (a hidden file keeps its full name).
pub open spec fn file_stem_of(path: Seq<char>) -> Seq<char> {
    let name = file_name_of(path);
    let j = last_index_of(name, '.');
    if j > 0 {
        name.subrange(0, j)
    } else {
        name
    }
}

/// Extract the file stem of a path.
pub fn file_stem(path: &str) -> (r: String)
    ensures
        r@ == file_stem_of(path@),
{
    let n = path.unicode_len();
    let start: usize = match find_last_char(path, '/') {
        Some(j) => j + 1,
        None => 0,
    };
    let name = path.substring_char(start, n);
    proof {
        assert(name@ =~= file_name_of(path@));
    }
    match find_last_char(name, '.') {
        Some(j) if j > 0 => String::from_str(name.substring_char(0, j)),
        _ => String::from_str(name),
    }
}

/// The marker extension given to the staged binary.
pub open spec fn staged_extension() -> Seq<char> {
    seq!['.', 'r', 'r', 'u', 'n']
}

/// The staging path for the compiled binary: the source's stem, carrying the
/// marker extension, inside the temp directory.
pub open spec fn staged_binary_path(temp_dir: Seq<char>, source: Seq<char>) -> Seq<char> {
    temp_dir + seq!['/'] + file_stem_of(source) + staged_extension()
}

/// Build the staging path for the binary compiled from `source`.
pub fn staged_binary(temp_dir: &str, source: &str) -> (r: String)
    ensures
        r@ == staged_binary_path(temp_dir@, source@),
{
    let mut r = String::from_str(temp_dir);
    r.append("/");
    let stem = file_stem(source);
    r.append(stem.as_str());
    r.append(".rrun");
    proof {
        reveal_strlit("/");
        reveal_strlit(".rrun");
        assert("/"@ =~= seq!['/']);
        assert(".rrun"@ =~= staged_extension());
        assert(r@ =~= staged_binary_path(temp_dir@, source@));
    }
    r
}

} // verus!
