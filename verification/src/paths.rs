use vstd::prelude::*;
use vstd::string::*;

verus! {

/// `c` with an ASCII capital letter turned into its small letter, as
/// `char::to_ascii_lowercase` does; every other character is kept.
pub open spec fn ascii_lower(c: char) -> char {
    if 'A' <= c && c <= 'Z' {
        ((c as u32) + 32) as char
    } else {
        c
    }
}

/// Two texts are equal when ASCII letters are compared without their case
/// (`str::eq_ignore_ascii_case`).
pub open spec fn eq_ignore_ascii_case(a: Seq<char>, b: Seq<char>) -> bool {
    &&& a.len() == b.len()
    &&& forall|i: int| 0 <= i < a.len() ==> #[trigger] ascii_lower(a[i]) == ascii_lower(b[i])
}

/// The extension that marks a PDF file.
pub open spec fn pdf_word() -> Seq<char> {
    seq!['p', 'd', 'f']
}

/// An extension names a PDF file when it is "pdf" in any mix of cases.
pub open spec fn names_pdf(ext: Option<Seq<char>>) -> bool {
    match ext {
        Some(e) => eq_ignore_ascii_case(e, pdf_word()),
        None => false,
    }
}

/// `r` is where the first extension that names a PDF file stands in
/// `exts`, or `None` when none does.
pub open spec fn first_pdf_at(exts: Seq<Option<Seq<char>>>, r: Option<nat>) -> bool {
    match r {
        Some(i) => {
            &&& i < exts.len()
            &&& names_pdf(exts[i as int])
            &&& forall|j: int| 0 <= j < i ==> !names_pdf(#[trigger] exts[j])
        },
        None => forall|j: int| 0 <= j < exts.len() ==> !names_pdf(#[trigger] exts[j]),
    }
}

/// An optional index as a natural number.
pub open spec fn opt_index(r: Option<usize>) -> Option<nat> {
    match r {
        Some(i) => Some(i as nat),
        None => None,
    }
}

/// The view of an optional text.
pub open spec fn opt_view(o: Option<String>) -> Option<Seq<char>> {
    match o {
        Some(s) => Some(s@),
        None => None,
    }
}

/// An extension as `Path::extension` gives it: never with a '.' in it.
pub open spec fn plain_extension(ext: Option<Seq<char>>) -> bool {
    ext matches Some(e) ==> !e.contains('.')
}

/// The text after the last '.' of `n`; all of `n` when it has no '.'.
pub open spec fn after_last_dot(n: Seq<char>) -> Seq<char>
    decreases n.len(),
{
    if n.len() == 0 {
        n
    } else if n.last() == '.' {
        Seq::empty()
    } else {
        after_last_dot(n.drop_last()).push(n.last())
    }
}

/// The extension of a file name, as `Path::extension` takes it: `None`
/// when the name has no '.', or its only '.' stands first; otherwise the
/// text after the last '.'.
pub open spec fn spec_extension(n: Seq<char>) -> Option<Seq<char>> {
    let e = after_last_dot(n);
    if !n.contains('.') || e.len() + 1 == n.len() {
        None
    } else {
        Some(e)
    }
}

/// A character that separates path components on some platform: '/'
/// everywhere, '\\' on Windows.
pub open spec fn is_separator(c: char) -> bool {
    c == '/' || c == '\\'
}

/// The text after the last '/' or '\\' of `p`; all of `p` when it has
/// neither. This is the file name on Windows.
pub open spec fn after_last_separator(p: Seq<char>) -> Seq<char>
    decreases p.len(),
{
    if p.len() == 0 {
        p
    } else if is_separator(p.last()) {
        Seq::empty()
    } else {
        after_last_separator(p.drop_last()).push(p.last())
    }
}

/// A path whose last component is a normal name on every platform: it does
/// not start with two separators (so it has no Windows network, device or
/// verbatim prefix), and the text after its last '/' or '\\' is a normal
/// name with no ':' (so no drive prefix reaches into it). On Windows that
/// text is the file name; elsewhere the file name is the text after the
/// last '/', which ends in it.
pub open spec fn named_path(p: Seq<char>) -> bool {
    &&& !(p.len() >= 2 && is_separator(p[0]) && is_separator(p[1]))
    &&& simple_name(after_last_separator(p))
}

/// A named path whose name holds a '.' after its first character: its
/// extension is the same on every platform, the text after the name's last
/// '.'.
pub open spec fn dotted_path(p: Seq<char>) -> bool {
    let t = after_last_separator(p);
    &&& named_path(p)
    &&& t.contains('.')
    &&& t[0] != '.'
}

/// The extension of a dotted path: the text after the last '.' of its name.
pub open spec fn dotted_extension(p: Seq<char>) -> Seq<char> {
    after_last_dot(after_last_separator(p))
}

/// The path's file name is the same on every platform: '/' is its only
/// separator and the text after the last '/' is a normal name.
pub open spec fn portable_name(p: Seq<char>) -> bool {
    plain_path(p) && simple_name(after_last_slash(p))
}

/// `ext` is an extension that `Path::extension` may give for `p`: it holds
/// no '.', and where the file name is the same on every platform, it is the
/// extension of that name.
pub open spec fn extension_of(p: Seq<char>, ext: Option<Seq<char>>) -> bool {
    &&& plain_extension(ext)
    &&& portable_name(p) ==> ext == spec_extension(after_last_slash(p))
    &&& dotted_path(p) ==> ext == Some(dotted_extension(p))
}

/// Calls `Path::extension` on `path`: the part of the path's file name after
/// its last '.', or `None` where the file name has no '.' but a leading one,
/// or there is no file name. The extension of a `&str` is valid UTF-8, so
/// the conversion back loses nothing. Which characters separate components,
/// and which prefixes a path may start with, depend on the platform, so two
/// things are stated for every platform: the extension holds no '.', and in
/// a path whose file name is the same everywhere (`portable_name`), it is
/// the extension of that name; in a path, Windows-style or not, whose last
/// name holds a '.' after its first character (`dotted_path`), it is the
/// text after that name's last '.'.
#[verifier::external_body]
fn path_extension(path: &str) -> (ext: Option<String>)
    ensures
        ext matches Some(e) ==> !e@.contains('.'),
        portable_name(path@) ==> opt_view(ext) == spec_extension(after_last_slash(path@)),
        dotted_path(path@) ==> opt_view(ext) == Some(dotted_extension(path@)),
{
    match std::path::Path::new(path).extension() {
        Some(e) => Some(e.to_string_lossy().into_owned()),
        None => None,
    }
}

/// The text after the last '/' of `p`; all of `p` when it has no '/'.
pub open spec fn after_last_slash(p: Seq<char>) -> Seq<char>
    decreases p.len(),
{
    if p.len() == 0 {
        p
    } else if p.last() == '/' {
        Seq::empty()
    } else {
        after_last_slash(p.drop_last()).push(p.last())
    }
}

/// A path in which '/' is the only separator on every platform: no '\\',
/// no ':' (so no Windows drive or device prefix), and no leading "//" (so
/// no Windows network prefix).
pub open spec fn plain_path(p: Seq<char>) -> bool {
    &&& !p.contains('\\')
    &&& !p.contains(':')
    &&& !(p.len() >= 2 && p[0] == '/' && p[1] == '/')
}

/// A name that is a normal path component on every platform: not empty,
/// not "." or "..", and with no separator or ':' in it.
pub open spec fn simple_name(n: Seq<char>) -> bool {
    &&& n.len() > 0
    &&& n != seq!['.']
    &&& n != seq!['.', '.']
    &&& !n.contains('/')
    &&& !n.contains('\\')
    &&& !n.contains(':')
}

/// Calls `Path::file_name` on `path`: the final component of the path when
/// it is a normal one, `None` where the path ends in ".." or has no normal
/// component. Which characters separate components, and which prefixes a
/// path may start with, depend on the platform, so two things are stated
/// for every platform: a file name is never empty, and in a path where '/'
/// is the only separator everywhere (`plain_path`), the file name is the
/// text after the last '/' when that text is a normal name, and holds no
/// '/' in any case. In a path whose last component is a normal name on
/// every platform (`named_path`), there is a file name: on Windows the text
/// after the last '/' or '\\', elsewhere the text after the last '/'.
#[verifier::external_body]
pub(crate) fn path_file_name(path: &str) -> (name: Option<String>)
    ensures
        name matches Some(n) ==> n@.len() > 0 && (plain_path(path@) ==> !n@.contains('/')),
        plain_path(path@) && simple_name(after_last_slash(path@)) ==> opt_view(name) == Some(
            after_last_slash(path@),
        ),
        named_path(path@) ==> opt_view(name) == Some(after_last_separator(path@)) || opt_view(
            name,
        ) == Some(after_last_slash(path@)),
{
    match std::path::Path::new(path).file_name() {
        Some(n) => Some(n.to_string_lossy().into_owned()),
        None => None,
    }
}

fn is_letter(c: char, small: char, capital: char) -> (r: bool)
    requires
        'a' <= small <= 'z',
        capital as u32 == small as u32 - 32,
    ensures
        r == (ascii_lower(c) == small),
{
    c == small || c == capital
}

/// Whether an extension names a PDF file: "pdf", compared without the case
/// of ASCII letters.
pub fn is_pdf_extension(ext: Option<&str>) -> (r: bool)
    ensures
        r == names_pdf(match ext { Some(e) => Some(e@), None => None }),
{
    match ext {
        None => false,
        Some(e) => {
            let n = e.unicode_len();
            if n != 3 {
                return false;
            }
            let c0 = e.get_char(0);
            let c1 = e.get_char(1);
            let c2 = e.get_char(2);
            let r = is_letter(c0, 'p', 'P') && is_letter(c1, 'd', 'D') && is_letter(c2, 'f', 'F');
            proof {
                let w = pdf_word();
                assert(ascii_lower(w[0]) == 'p');
                assert(ascii_lower(w[1]) == 'd');
                assert(ascii_lower(w[2]) == 'f');
                if r {
                    assert forall|i: int| 0 <= i < e@.len() implies #[trigger] ascii_lower(e@[i])
                        == ascii_lower(w[i]) by {
                        if i == 0 {
                        } else if i == 1 {
                        } else {
                        }
                    }
                } else {
                    if eq_ignore_ascii_case(e@, w) {
                        assert(ascii_lower(e@[0]) == ascii_lower(w[0]));
                        assert(ascii_lower(e@[1]) == ascii_lower(w[1]));
                        assert(ascii_lower(e@[2]) == ascii_lower(w[2]));
                    }
                }
            }
            r
        },
    }
}

/// Whether a path names a PDF file by its extension, as the reader decides
/// for a path given at launch or dropped on its window. The extension comes
/// from `Path::extension`; the answer is the one `is_pdf_extension` gives
/// for it. Where the file name is the same on every platform, the answer is
/// whether that name's extension is "pdf" in any case; so it is for a path,
/// Windows-style or not, whose last name holds a '.' after its first
/// character.
pub fn is_pdf_path(path: &str) -> (r: bool)
    ensures
        exists|ext: Option<Seq<char>>| extension_of(path@, ext) && r == names_pdf(ext),
        portable_name(path@) ==> r == names_pdf(spec_extension(after_last_slash(path@))),
        dotted_path(path@) ==> r == names_pdf(Some(dotted_extension(path@))),
{
    let ext = path_extension(path);
    let r = match &ext {
        Some(e) => is_pdf_extension(Some(e.as_str())),
        None => is_pdf_extension(None),
    };
    proof {
        let v = match ext { Some(e) => Some(e@), None => None::<Seq<char>> };
        assert(extension_of(path@, v) && r == names_pdf(v));
    }
    r
}

/// Where the first extension that names a PDF file stands among `exts`.
pub fn first_pdf_extension(exts: &Vec<Option<String>>) -> (r: Option<usize>)
    ensures
        first_pdf_at(exts@.map_values(|o: Option<String>| opt_view(o)), opt_index(r)),
{
    let ghost views = exts@.map_values(|o: Option<String>| opt_view(o));
    let mut i: usize = 0;
    while i < exts.len()
        invariant
            i <= exts.len(),
            views == exts@.map_values(|o: Option<String>| opt_view(o)),
            forall|j: int| 0 <= j < i ==> !names_pdf(#[trigger] views[j]),
        decreases exts.len() - i,
    {
        let found = match &exts[i] {
            Some(e) => is_pdf_extension(Some(e.as_str())),
            None => is_pdf_extension(None),
        };
        assert(views[i as int] == opt_view(exts@[i as int]));
        if found {
            return Some(i);
        }
        i = i + 1;
    }
    None
}

/// Among the paths of the files dropped on the window, where the first one
/// that names a PDF file stands. Each extension comes from
/// `Path::extension`; the answer is the one `first_pdf_extension` gives for
/// them, and where a path's file name is the same on every platform, its
/// extension is that name's.
pub fn first_pdf_path(paths: &Vec<String>) -> (r: Option<usize>)
    ensures
        exists|exts: Seq<Option<Seq<char>>>|
            #![trigger first_pdf_at(exts, opt_index(r))]
            {
                &&& exts.len() == paths@.len()
                &&& forall|j: int|
                    0 <= j < exts.len() ==> extension_of(paths@[j]@, #[trigger] exts[j])
                &&& first_pdf_at(exts, opt_index(r))
            },
{
    let mut exts: Vec<Option<String>> = Vec::new();
    let mut i: usize = 0;
    while i < paths.len()
        invariant
            i <= paths.len(),
            exts@.len() == i,
            forall|j: int| 0 <= j < i ==> extension_of(paths@[j]@, #[trigger] opt_view(exts@[j])),
        decreases paths.len() - i,
    {
        let e = path_extension(paths[i].as_str());
        exts.push(e);
        proof {
            assert(extension_of(paths@[i as int]@, opt_view(exts@[i as int])));
        }
        i = i + 1;
    }
    let r = first_pdf_extension(&exts);
    proof {
        let views = exts@.map_values(|o: Option<String>| opt_view(o));
        assert forall|j: int| 0 <= j < views.len() implies extension_of(
            paths@[j]@,
            #[trigger] views[j],
        ) by {
            assert(views[j] == opt_view(exts@[j]));
        }
    }
    r
}

} // verus!
