//! Input paths as they are typed, and the output path derived from them.

use vstd::prelude::*;

use crate::error::ErrorKind;
use crate::text::{chars_of, string_of};

verus! {

/// `c` is a single or a double quote.
pub open spec fn is_quote(c: char) -> bool {
    c == '\'' || c == '"'
}

/// `s` without one layer of surrounding quotes: where `s` begins with a
/// quote and ends with a quote of the same kind, what stands between the
/// two; otherwise `s` itself.
pub open spec fn unquoted(s: Seq<char>) -> Seq<char> {
    if s.len() >= 2 && is_quote(s[0]) && s[s.len() - 1] == s[0] {
        s.subrange(1, s.len() - 1)
    } else {
        s
    }
}

/// A text put between two quotes of one kind is read as the text alone.
pub proof fn lemma_quoted_text_unquotes(s: Seq<char>, quote: char)
    requires
        is_quote(quote),
    ensures
        unquoted(seq![quote] + s + seq![quote]) == s,
{
    let quoted = seq![quote] + s + seq![quote];
    assert(quoted.len() == s.len() + 2);
    assert(quoted[0] == quote);
    assert(quoted[quoted.len() - 1] == quote);
    assert(quoted.subrange(1, quoted.len() - 1) =~= s);
}

/// Strips one layer of surrounding quotes from a path pasted from a shell.
pub fn unquote_string(string: &str) -> (out: String)
    ensures
        out@ == unquoted(string@),
{
    let chars = chars_of(string);
    let n: usize = chars.len();
    if n >= 2 && (chars[0] == '\'' || chars[0] == '"') && chars[n - 1] == chars[0] {
        string_of(&chars, 1, n - 1)
    } else {
        string.to_owned()
    }
}

/// Where the file name of `path` begins: after the last separator, or at
/// the start where the path holds none.
pub open spec fn file_name_start(path: Seq<char>) -> int {
    match path.index_of_last('/') {
        Some(i) => i + 1,
        None => 0,
    }
}

/// The file name begins right after a separator, or at the start, and holds
/// no separator itself.
pub proof fn lemma_file_name_start(path: Seq<char>)
    ensures
        0 <= file_name_start(path) <= path.len(),
        file_name_start(path) > 0 ==> path[file_name_start(path) - 1] == '/',
        forall|j: int| file_name_start(path) <= j < path.len() ==> path[j] != '/',
        directory_prefix(path) + file_name(path) == path,
{
    path.index_of_last_ensures('/');
    assert(directory_prefix(path) + file_name(path) =~= path);
}

/// The directory part of `path`, up to and including the last separator.
pub open spec fn directory_prefix(path: Seq<char>) -> Seq<char> {
    path.take(file_name_start(path))
}

/// The last component of `path`.
pub open spec fn file_name(path: Seq<char>) -> Seq<char> {
    path.skip(file_name_start(path))
}

/// `path` ends in a component that names a file: one that is neither empty
/// nor a reference to a directory itself or to its parent.
pub open spec fn names_file(path: Seq<char>) -> bool {
    let name = file_name(path);
    name.len() > 0 && name != seq!['.'] && name != seq!['.', '.']
}

/// A file name without its extension: the part before the last dot, unless
/// that dot is the first character or there is none.
pub open spec fn stem(name: Seq<char>) -> Seq<char> {
    match name.index_of_last('.') {
        Some(i) => if i > 0 {
            name.take(i)
        } else {
            name
        },
        None => name,
    }
}

/// The stem is the name up to its last dot, and the whole name where the
/// last dot is the first character or there is no dot; a name that is not
/// empty has a stem that is not empty.
pub proof fn lemma_stem(name: Seq<char>)
    ensures
        stem(name).len() <= name.len(),
        stem(name) == name.take(stem(name).len() as int),
        name.len() > 0 ==> stem(name).len() > 0,
        stem(name).len() < name.len() ==> name[stem(name).len() as int] == '.' && forall|j: int|
            stem(name).len() < j < name.len() ==> name[j] != '.',
        stem(name).len() == name.len() ==> forall|j: int| 0 < j < name.len() ==> name[j] != '.',
{
    name.index_of_last_ensures('.');
    assert(name.take(name.len() as int) == name);
}

/// The output path that belongs to an input path: in the same directory,
/// the input's stem followed by the suffix and the extension.
pub open spec fn derived_output_path(
    input_path: Seq<char>,
    suffix: Seq<char>,
    extension: Seq<char>,
) -> Result<Seq<char>, ErrorKind> {
    if names_file(input_path) {
        Ok(directory_prefix(input_path) + stem(file_name(input_path)) + suffix + extension)
    } else {
        Err(ErrorKind::InvalidInput)
    }
}

/// Position of the last `wanted` among `chars[from..]`, counted from `from`.
fn last_index_of(chars: &Vec<char>, from: usize, wanted: char) -> (found: Option<usize>)
    requires
        from <= chars.len(),
    ensures
        match found {
            Some(i) => chars@.skip(from as int).index_of_last(wanted) == Some(i as int) && from + i
                < chars.len(),
            None => chars@.skip(from as int).index_of_last(wanted) is None,
        },
{
    let ghost tail = chars@.skip(from as int);
    let mut found: Option<usize> = None;
    let mut i: usize = from;
    while i < chars.len()
        invariant
            from <= i <= chars.len(),
            tail == chars@.skip(from as int),
            match found {
                Some(p) => from + p < i && tail[p as int] == wanted && forall|j: int|
                    p < j < i - from ==> tail[j] != wanted,
                None => forall|j: int| 0 <= j < i - from ==> tail[j] != wanted,
            },
        decreases chars.len() - i,
    {
        if chars[i] == wanted {
            found = Some(i - from);
        }
        i += 1;
    }
    proof {
        tail.index_of_last_ensures(wanted);
        match found {
            Some(p) => {
                assert(tail.contains(wanted));
                let q = tail.index_of_last(wanted).unwrap();
                if q < p {
                    assert(tail[p as int] != wanted);
                }
                if p < q {
                    assert(tail[q] != wanted);
                }
            },
            None => {},
        }
    }
    found
}

/// Appends the characters of `more` to `out`.
fn append_chars(out: &mut Vec<char>, more: &Vec<char>, from: usize, to: usize)
    requires
        from <= to <= more.len(),
    ensures
        final(out)@ == old(out)@ + more@.subrange(from as int, to as int),
{
    let mut i: usize = from;
    assert(out@ == old(out)@ + more@.subrange(from as int, from as int));
    while i < to
        invariant
            from <= i <= to <= more.len(),
            out@ == old(out)@ + more@.subrange(from as int, i as int),
        decreases to - i,
    {
        out.push(more[i]);
        assert(more@.subrange(from as int, i + 1) == more@.subrange(from as int, i as int).push(
            more@[i as int],
        ));
        i += 1;
    }
}

/// Derives the output path for `input_path`: the input's directory and
/// stem, followed by `suffix` and `extension`. Fails with `InvalidInput`
/// when the input path does not end in a file name.
pub fn derive_output_path(input_path: &str, suffix: &str, extension: &str) -> (output: Result<
    String,
    ErrorKind,
>)
    ensures
        match output {
            Ok(path) => Ok(path@),
            Err(e) => Err(e),
        } == derived_output_path(input_path@, suffix@, extension@),
{
    let chars = chars_of(input_path);
    let start: usize = match last_index_of(&chars, 0, '/') {
        Some(i) => i + 1,
        None => 0,
    };
    assert(chars@.skip(0) == chars@);
    assert(start == file_name_start(input_path@));
    let n: usize = chars.len();
    let ghost name = file_name(input_path@);
    let name_len: usize = n - start;
    if name_len == 0 || (name_len == 1 && chars[start] == '.') || (name_len == 2 && chars[start]
        == '.' && chars[start + 1] == '.') {
        proof {
            if name_len == 1 {
                assert(name =~= seq!['.']);
            }
            if name_len == 2 {
                assert(name =~= seq!['.', '.']);
            }
        }
        return Err(ErrorKind::InvalidInput);
    }
    proof {
        assert(name.len() == name_len);
        if name == seq!['.'] {
            assert(seq!['.'].len() == 1);
            assert(name[0] == seq!['.'][0]);
            assert(name[0] == chars@[start as int]);
        }
        if name == seq!['.', '.'] {
            assert(seq!['.', '.'].len() == 2);
            assert(name[0] == seq!['.', '.'][0] && name[1] == seq!['.', '.'][1]);
            assert(name[0] == chars@[start as int] && name[1] == chars@[start + 1]);
        }
        assert(names_file(input_path@));
    }
    let stem_end: usize = match last_index_of(&chars, start, '.') {
        Some(i) => if i > 0 {
            start + i
        } else {
            n
        },
        None => n,
    };
    assert(chars@.subrange(start as int, stem_end as int) == stem(name));
    let suffix_chars = chars_of(suffix);
    let extension_chars = chars_of(extension);
    let mut out: Vec<char> = Vec::new();
    append_chars(&mut out, &chars, 0, stem_end);
    append_chars(&mut out, &suffix_chars, 0, suffix_chars.len());
    append_chars(&mut out, &extension_chars, 0, extension_chars.len());
    assert(suffix_chars@.subrange(0, suffix_chars.len() as int) == suffix@);
    assert(extension_chars@.subrange(0, extension_chars.len() as int) == extension@);
    assert(chars@.subrange(0, stem_end as int) == directory_prefix(input_path@) + stem(name));
    assert(out@ == directory_prefix(input_path@) + stem(name) + suffix@ + extension@);
    assert(out@.subrange(0, out.len() as int) == out@);
    Ok(string_of(&out, 0, out.len()))
}

} // verus!
