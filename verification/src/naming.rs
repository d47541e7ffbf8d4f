//! Names and kinds: the file-type classification a task shows, the file name
//! a download gets, the URL scheme check, and the URL arguments picked off a
//! command line.

use vstd::prelude::*;
use vstd::string::StrSliceExecFns;
use vstd::string::StringExecFns;
use crate::errors::DownloadError;
use crate::platform::parse_url_parts;
use crate::platform::url_parts_of;
use crate::text::dec_digits;
use crate::text::lower_seq;
use crate::text::seq_contains;
use crate::text::seq_starts_with;
use crate::text::str_contains;
use crate::text::str_eq;
use crate::text::str_eq_lowered;
use crate::text::str_starts_with;
use crate::text::u64_to_dec;

verus! {

/// The view of an optional string.
pub open spec fn opt_view(o: Option<String>) -> Option<Seq<char>> {
    match o {
        Some(s) => Some(s@),
        None => None,
    }
}

/// The file name's extension: the characters after the last `'.'`, `None`
/// when the name has no dot at all.
pub open spec fn ext_of(name: Seq<char>) -> Option<Seq<char>>
    decreases name.len(),
{
    if name.len() == 0 {
        None
    } else if name[name.len() - 1] == '.' {
        Some(Seq::empty())
    } else {
        match ext_of(name.drop_last()) {
            Some(e) => Some(e.push(name[name.len() - 1])),
            None => None,
        }
    }
}

/// The extension of a name whose last dot stands at `j` is what follows `j`.
proof fn lemma_ext_of_at(name: Seq<char>, j: int)
    requires
        0 <= j < name.len(),
        name[j] == '.',
        forall|k: int| j < k < name.len() ==> name[k] != '.',
    ensures
        ext_of(name) == Some(name.subrange(j + 1, name.len() as int)),
    decreases name.len(),
{
    if j == name.len() - 1 {
        assert(name.subrange(j + 1, name.len() as int) =~= Seq::<char>::empty());
    } else {
        let prefix = name.drop_last();
        assert(prefix[j] == name[j]);
        assert forall|k: int| j < k < prefix.len() implies prefix[k] != '.' by {
            assert(prefix[k] == name[k]);
        }
        lemma_ext_of_at(prefix, j);
        assert(prefix.subrange(j + 1, prefix.len() as int).push(name[name.len() - 1])
            =~= name.subrange(j + 1, name.len() as int));
    }
}

/// A name without any dot has no extension.
proof fn lemma_ext_of_none(name: Seq<char>)
    requires
        forall|k: int| 0 <= k < name.len() ==> name[k] != '.',
    ensures
        ext_of(name) is None,
    decreases name.len(),
{
    if name.len() > 0 {
        let prefix = name.drop_last();
        assert forall|k: int| 0 <= k < prefix.len() implies prefix[k] != '.' by {
            assert(prefix[k] == name[k]);
        }
        lemma_ext_of_none(prefix);
    }
}

/// The category a lowercased extension falls in.
pub open spec fn category_of_ext(l: Seq<char>) -> Seq<char> {
    if l == "mp4"@ || l == "avi"@ || l == "mkv"@ || l == "mov"@ || l == "wmv"@ {
        "Video"@
    } else if l == "mp3"@ || l == "wav"@ || l == "flac"@ || l == "aac"@ || l == "ogg"@ {
        "Audio"@
    } else if l == "jpg"@ || l == "jpeg"@ || l == "png"@ || l == "gif"@ || l == "bmp"@ || l
        == "svg"@ {
        "Image"@
    } else if l == "zip"@ || l == "rar"@ || l == "7z"@ || l == "tar"@ || l == "gz"@ {
        "Archive"@
    } else if l == "exe"@ || l == "msi"@ || l == "dmg"@ || l == "deb"@ || l == "rpm"@ {
        "Executable"@
    } else if l == "pdf"@ || l == "doc"@ || l == "docx"@ || l == "txt"@ || l == "odt"@ {
        "Document"@
    } else {
        "Other"@
    }
}

/// The classification a file name gets: a pure function of its extension,
/// case-insensitively; a name without an extension is `Other`.
pub open spec fn file_type_spec(name: Seq<char>) -> Seq<char> {
    match ext_of(name) {
        Some(e) => category_of_ext(lower_seq(e)),
        None => "Other"@,
    }
}

/// The index of the last `'.'` in `s`, if any.
fn last_dot(s: &str) -> (r: Option<usize>)
    ensures
        r matches Some(j) ==> j < s@.len() && s@[j as int] == '.' && (forall|k: int|
            j < k < s@.len() ==> s@[k] != '.'),
        r is None ==> forall|k: int| 0 <= k < s@.len() ==> s@[k] != '.',
{
    let len = s.unicode_len();
    let mut k = len;
    while k > 0
        invariant
            len == s@.len(),
            k <= len,
            forall|m: int| k <= m < len ==> s@[m] != '.',
        decreases k,
    {
        if s.get_char(k - 1) == '.' {
            return Some(k - 1);
        }
        k = k - 1;
    }
    None
}

/// Classifies a file name by its extension, exactly as `file_type_spec`
/// says.
pub fn get_file_type(filename: &str) -> (r: String)
    ensures
        r@ == file_type_spec(filename@),
{
    let len = filename.unicode_len();
    match last_dot(filename) {
        None => {
            proof {
                lemma_ext_of_none(filename@);
            }
            String::from_str("Other")
        },
        Some(j) => {
            proof {
                lemma_ext_of_at(filename@, j as int);
            }
            let ext = filename.substring_char(j + 1, len);
            if str_eq_lowered(ext, "mp4") || str_eq_lowered(ext, "avi") || str_eq_lowered(
                ext,
                "mkv",
            ) || str_eq_lowered(ext, "mov") || str_eq_lowered(ext, "wmv") {
                String::from_str("Video")
            } else if str_eq_lowered(ext, "mp3") || str_eq_lowered(ext, "wav") || str_eq_lowered(
                ext,
                "flac",
            ) || str_eq_lowered(ext, "aac") || str_eq_lowered(ext, "ogg") {
                String::from_str("Audio")
            } else if str_eq_lowered(ext, "jpg") || str_eq_lowered(ext, "jpeg") || str_eq_lowered(
                ext,
                "png",
            ) || str_eq_lowered(ext, "gif") || str_eq_lowered(ext, "bmp") || str_eq_lowered(
                ext,
                "svg",
            ) {
                String::from_str("Image")
            } else if str_eq_lowered(ext, "zip") || str_eq_lowered(ext, "rar") || str_eq_lowered(
                ext,
                "7z",
            ) || str_eq_lowered(ext, "tar") || str_eq_lowered(ext, "gz") {
                String::from_str("Archive")
            } else if str_eq_lowered(ext, "exe") || str_eq_lowered(ext, "msi") || str_eq_lowered(
                ext,
                "dmg",
            ) || str_eq_lowered(ext, "deb") || str_eq_lowered(ext, "rpm") {
                String::from_str("Executable")
            } else if str_eq_lowered(ext, "pdf") || str_eq_lowered(ext, "doc") || str_eq_lowered(
                ext,
                "docx",
            ) || str_eq_lowered(ext, "txt") || str_eq_lowered(ext, "odt") {
                String::from_str("Document")
            } else {
                String::from_str("Other")
            }
        },
    }
}

/// The extension a generated file name gets from the response's content
/// type.
pub open spec fn generated_ext_spec(ct: Option<Seq<char>>) -> Seq<char> {
    match ct {
        None => "bin"@,
        Some(c) => {
            if seq_contains(c, "video/mp4"@) {
                "mp4"@
            } else if seq_contains(c, "video/"@) {
                "video"@
            } else if seq_contains(c, "audio/"@) {
                "mp3"@
            } else if seq_contains(c, "image/"@) {
                "jpg"@
            } else if seq_contains(c, "application/pdf"@) {
                "pdf"@
            } else if seq_contains(c, "application/zip"@) {
                "zip"@
            } else {
                "bin"@
            }
        },
    }
}

/// Picks the generated extension, exactly as `generated_ext_spec` says.
pub fn extension_for_content_type(content_type: &Option<String>) -> (r: &'static str)
    ensures
        r@ == generated_ext_spec(opt_view(*content_type)),
{
    match content_type {
        None => "bin",
        Some(c) => {
            let cs = c.as_str();
            if str_contains(cs, "video/mp4") {
                "mp4"
            } else if str_contains(cs, "video/") {
                "video"
            } else if str_contains(cs, "audio/") {
                "mp3"
            } else if str_contains(cs, "image/") {
                "jpg"
            } else if str_contains(cs, "application/pdf") {
                "pdf"
            } else if str_contains(cs, "application/zip") {
                "zip"
            } else {
                "bin"
            }
        },
    }
}

/// The generated fallback name `download_<timestamp>.<ext>`.
pub open spec fn generated_name_spec(ts: u64, ext: Seq<char>) -> Seq<char> {
    "download_"@ + dec_digits(ts as nat) + "."@ + ext
}

/// Renders the generated fallback name.
pub fn generated_filename(ts: u64, ext: &str) -> (r: String)
    ensures
        r@ == generated_name_spec(ts, ext@),
{
    let s = String::from_str("download_");
    let s = s.concat(u64_to_dec(ts).as_str());
    let s = s.concat(".");
    s.concat(ext)
}

/// Some character of `s` is a dot.
pub open spec fn has_dot(s: Seq<char>) -> bool {
    exists|i: int| 0 <= i < s.len() && s[i] == '.'
}

/// The file name the resolved URL's path yields: its last segment, when that
/// segment is non-empty and carries an extension.
pub open spec fn url_segment_name(url: Seq<char>) -> Option<Seq<char>> {
    match url_parts_of(url) {
        Some(p) => match p.1 {
            Some(seg) => if seg.len() > 0 && has_dot(seg) {
                Some(seg)
            } else {
                None
            },
            None => None,
        },
        None => None,
    }
}

/// Whether a scheme is one this manager downloads from.
pub fn scheme_is_supported(scheme: &str) -> (r: bool)
    ensures
        r == (scheme@ == "http"@ || scheme@ == "https"@),
{
    str_eq(scheme, "http") || str_eq(scheme, "https")
}

/// A URL is acceptable when it parses and its scheme is `http` or `https`.
pub open spec fn url_ok(url: Seq<char>) -> bool {
    match url_parts_of(url) {
        Some(p) => p.0 == "http"@ || p.0 == "https"@,
        None => false,
    }
}

/// Validates a URL string: `Ok` exactly when it parses with a supported
/// scheme; `InvalidUrl` otherwise, marked malformed when the string did not
/// parse as a URL at all.
pub fn check_url(url: &str) -> (r: Result<(), DownloadError>)
    ensures
        r is Ok <==> url_ok(url@),
        url_parts_of(url@) is None ==> r == Err::<(), _>(
            DownloadError::InvalidUrl { malformed: true },
        ),
        (url_parts_of(url@) matches Some(p) && !(p.0 == "http"@ || p.0 == "https"@)) ==> r
            == Err::<(), _>(DownloadError::InvalidUrl { malformed: false }),
{
    match parse_url_parts(url) {
        Some((scheme, _)) => {
            if scheme_is_supported(scheme.as_str()) {
                Ok(())
            } else {
                Err(DownloadError::InvalidUrl { malformed: false })
            }
        },
        None => Err(DownloadError::InvalidUrl { malformed: true }),
    }
}

/// An argument that names a download URL outright.
pub open spec fn is_url_arg(s: Seq<char>) -> bool {
    seq_starts_with(s, "http://"@) || seq_starts_with(s, "https://"@)
}

/// The URL arguments among `args`, in order.
pub open spec fn url_args_spec(args: Seq<Seq<char>>) -> Seq<Seq<char>>
    decreases args.len(),
{
    if args.len() == 0 {
        Seq::empty()
    } else {
        (if is_url_arg(args[0]) {
            seq![args[0]]
        } else {
            Seq::empty()
        }) + url_args_spec(args.skip(1))
    }
}

/// The views of a list of strings.
pub open spec fn views_of(v: Seq<String>) -> Seq<Seq<char>> {
    v.map_values(|s: String| s@)
}

/// Everything after the first element; an empty list stays empty.
pub open spec fn skip_first(s: Seq<Seq<char>>) -> Seq<Seq<char>> {
    if s.len() == 0 {
        s
    } else {
        s.skip(1)
    }
}

/// Picks the URL arguments off a command line, skipping the leading program
/// name, exactly as `url_args_spec` says.
pub fn url_args(args: &Vec<String>) -> (r: Vec<String>)
    ensures
        views_of(r@) == url_args_spec(skip_first(views_of(args@))),
{
    let mut out: Vec<String> = Vec::new();
    let len = args.len();
    if len == 0 {
        proof {
            assert(views_of(out@) =~= Seq::<Seq<char>>::empty());
            assert(views_of(args@) =~= Seq::<Seq<char>>::empty());
        }
        return out;
    }
    let mut i: usize = 1;
    while i < len
        invariant
            len == args@.len(),
            1 <= i <= len,
            views_of(out@) + url_args_spec(views_of(args@).skip(i as int)) == url_args_spec(
                skip_first(views_of(args@)),
            ),
        decreases len - i,
    {
        let ghost pre = views_of(out@);
        let ghost rest = views_of(args@).skip(i as int);
        proof {
            assert(rest[0] == args@[i as int]@);
            assert(rest.skip(1) =~= views_of(args@).skip(i + 1));
        }
        if str_starts_with(args[i].as_str(), "http://") || str_starts_with(
            args[i].as_str(),
            "https://",
        ) {
            out.push(args[i].clone());
            proof {
                assert(views_of(out@) =~= pre.push(args@[i as int]@));
                assert(views_of(out@) + url_args_spec(views_of(args@).skip(i + 1)) =~= pre + (seq![
                    rest[0],
                ] + url_args_spec(rest.skip(1))));
            }
        } else {
            proof {
                assert(views_of(out@) + url_args_spec(views_of(args@).skip(i + 1)) =~= pre + (
                Seq::<Seq<char>>::empty() + url_args_spec(rest.skip(1))));
            }
        }
        i = i + 1;
    }
    proof {
        assert(views_of(args@).skip(len as int) =~= Seq::<Seq<char>>::empty());
        assert(views_of(out@) + Seq::<Seq<char>>::empty() =~= views_of(out@));
    }
    out
}


/// Space-like characters that header-value trimming removes.
pub open spec fn is_space(c: char) -> bool {
    c == ' ' || c == '\t'
}

/// A double quote.
pub open spec fn is_quote(c: char) -> bool {
    c == '"'
}

/// Leading characters satisfying `p`, removed.
pub open spec fn trim_left_if(s: Seq<char>, p: spec_fn(char) -> bool) -> Seq<char>
    decreases s.len(),
{
    if s.len() > 0 && p(s[0]) {
        trim_left_if(s.skip(1), p)
    } else {
        s
    }
}

/// Trailing characters satisfying `p`, removed.
pub open spec fn trim_right_if(s: Seq<char>, p: spec_fn(char) -> bool) -> Seq<char>
    decreases s.len(),
{
    if s.len() > 0 && p(s[s.len() - 1]) {
        trim_right_if(s.drop_last(), p)
    } else {
        s
    }
}

/// Both ends trimmed of characters satisfying `p`.
pub open spec fn trim_if(s: Seq<char>, p: spec_fn(char) -> bool) -> Seq<char> {
    trim_right_if(trim_left_if(s, p), p)
}

/// Whitespace trimmed from both ends.
pub open spec fn trim_spaces(s: Seq<char>) -> Seq<char> {
    trim_if(s, |c: char| is_space(c))
}

/// Double quotes trimmed from both ends.
pub open spec fn trim_quotes(s: Seq<char>) -> Seq<char> {
    trim_if(s, |c: char| is_quote(c))
}

/// When the first `i` characters satisfy `p` and the next one (if any) does
/// not, the left trim is exactly `s.skip(i)`.
proof fn lemma_trim_left_at(s: Seq<char>, p: spec_fn(char) -> bool, i: int)
    requires
        0 <= i <= s.len(),
        forall|k: int| 0 <= k < i ==> p(s[k]),
        i < s.len() ==> !p(s[i]),
    ensures
        trim_left_if(s, p) == s.skip(i),
    decreases i,
{
    if i == 0 {
        assert(s.skip(0) =~= s);
    } else {
        lemma_trim_left_at(s.skip(1), p, i - 1);
        assert(s.skip(1).skip(i - 1) =~= s.skip(i));
    }
}

/// When the characters from `j` on satisfy `p` and the one before `j` (if
/// any) does not, the right trim is exactly `s.take(j)`.
proof fn lemma_trim_right_at(s: Seq<char>, p: spec_fn(char) -> bool, j: int)
    requires
        0 <= j <= s.len(),
        forall|k: int| j <= k < s.len() ==> p(s[k]),
        j > 0 ==> !p(s[j - 1]),
    ensures
        trim_right_if(s, p) == s.take(j),
    decreases s.len(),
{
    if j == s.len() {
        assert(s.take(j) =~= s);
    } else {
        lemma_trim_right_at(s.drop_last(), p, j);
        assert(s.drop_last().take(j) =~= s.take(j));
    }
}

/// The first index where `c` occurs in `s`, or -1.
pub open spec fn find_char(s: Seq<char>, c: char) -> int
    decreases s.len(),
{
    if s.len() == 0 {
        -1
    } else if s[0] == c {
        0
    } else {
        let r = find_char(s.skip(1), c);
        if r < 0 {
            -1
        } else {
            r + 1
        }
    }
}

/// What `find_char` means: -1 when `c` never occurs, else the first index
/// holding `c`.
proof fn lemma_find_char(s: Seq<char>, c: char)
    ensures
        find_char(s, c) < 0 ==> forall|k: int| 0 <= k < s.len() ==> s[k] != c,
        find_char(s, c) >= 0 ==> find_char(s, c) < s.len() && s[find_char(s, c)] == c && (forall|
            k: int,
        | 0 <= k < find_char(s, c) ==> s[k] != c),
    decreases s.len(),
{
    if s.len() > 0 && s[0] != c {
        lemma_find_char(s.skip(1), c);
        let r = find_char(s.skip(1), c);
        if r < 0 {
            assert forall|k: int| 0 <= k < s.len() implies s[k] != c by {
                if k > 0 {
                    assert(s.skip(1)[k - 1] != c);
                }
            }
        } else {
            assert(s[r + 1] == s.skip(1)[r]);
            assert forall|k: int| 0 <= k < r + 1 implies s[k] != c by {
                if k > 0 {
                    assert(s.skip(1)[k - 1] != c);
                }
            }
        }
    }
}

/// The segments of `s` between semicolons, in order.
pub open spec fn split_semi(s: Seq<char>) -> Seq<Seq<char>>
    decreases s.len(),
{
    let j = find_char(s, ';');
    if j < 0 || j >= s.len() {
        seq![s]
    } else {
        seq![s.take(j)] + split_semi(s.skip(j + 1))
    }
}

/// The file name that a `Content-Disposition` value's segments yield: the
/// first segment that (trimmed) starts with `filename=` decides — its value,
/// quotes stripped, when non-empty, and nothing at all when empty.
pub open spec fn cd_from_segments(segs: Seq<Seq<char>>) -> Option<Seq<char>>
    decreases segs.len(),
{
    if segs.len() == 0 {
        None
    } else {
        let t = trim_spaces(segs[0]);
        if seq_starts_with(t, "filename="@) {
            let v = trim_quotes(t.skip(9));
            if v.len() > 0 {
                Some(v)
            } else {
                None
            }
        } else {
            cd_from_segments(segs.skip(1))
        }
    }
}

/// The file name a `Content-Disposition` header value yields.
pub open spec fn cd_filename(cd: Seq<char>) -> Option<Seq<char>> {
    cd_from_segments(split_semi(cd))
}

/// Executable counterpart of `is_space`.
fn is_space_char(c: char) -> (r: bool)
    ensures
        r == is_space(c),
{
    c == ' ' || c == '\t'
}

/// Trims characters satisfying the space predicate from both ends.
fn trim_spaces_str<'a>(s: &'a str) -> (r: &'a str)
    ensures
        r@ == trim_spaces(s@),
{
    let ghost p = |c: char| is_space(c);
    let len = s.unicode_len();
    let mut i: usize = 0;
    while i < len && is_space_char(s.get_char(i))
        invariant
            len == s@.len(),
            i <= len,
            forall|k: int| 0 <= k < i ==> is_space(s@[k]),
        decreases len - i,
    {
        i = i + 1;
    }
    proof {
        lemma_trim_left_at(s@, p, i as int);
    }
    let mut j: usize = len;
    while j > i && is_space_char(s.get_char(j - 1))
        invariant
            len == s@.len(),
            i <= j <= len,
            forall|k: int| j <= k < len ==> is_space(s@[k]),
        decreases j,
    {
        j = j - 1;
    }
    let r = s.substring_char(i, j);
    proof {
        lemma_trim_right_at(s@.skip(i as int), p, j - i);
        assert(s@.skip(i as int).take(j - i) =~= s@.subrange(i as int, j as int));
    }
    r
}

/// Executable counterpart of `is_quote`.
fn is_quote_char(c: char) -> (r: bool)
    ensures
        r == is_quote(c),
{
    c == '"'
}

/// Trims double quotes from both ends.
fn trim_quotes_str<'a>(s: &'a str) -> (r: &'a str)
    ensures
        r@ == trim_quotes(s@),
{
    let ghost p = |c: char| is_quote(c);
    let len = s.unicode_len();
    let mut i: usize = 0;
    while i < len && is_quote_char(s.get_char(i))
        invariant
            len == s@.len(),
            i <= len,
            forall|k: int| 0 <= k < i ==> is_quote(s@[k]),
        decreases len - i,
    {
        i = i + 1;
    }
    proof {
        lemma_trim_left_at(s@, p, i as int);
    }
    let mut j: usize = len;
    while j > i && is_quote_char(s.get_char(j - 1))
        invariant
            len == s@.len(),
            i <= j <= len,
            forall|k: int| j <= k < len ==> is_quote(s@[k]),
        decreases j,
    {
        j = j - 1;
    }
    let r = s.substring_char(i, j);
    proof {
        lemma_trim_right_at(s@.skip(i as int), p, j - i);
        assert(s@.skip(i as int).take(j - i) =~= s@.subrange(i as int, j as int));
    }
    r
}

/// The first semicolon of `s`, as `find_char` names it.
fn find_semi(s: &str) -> (r: Option<usize>)
    ensures
        r is None <==> find_char(s@, ';') < 0,
        r matches Some(i) ==> i == find_char(s@, ';') && i < s@.len(),
{
    let len = s.unicode_len();
    let mut i: usize = 0;
    while i < len
        invariant
            len == s@.len(),
            i <= len,
            forall|k: int| 0 <= k < i ==> s@[k] != ';',
        decreases len - i,
    {
        if s.get_char(i) == ';' {
            proof {
                lemma_find_char(s@, ';');
            }
            return Some(i);
        }
        i = i + 1;
    }
    proof {
        lemma_find_char(s@, ';');
    }
    None
}

/// Reads one segment: the file name it yields under the header rule, if the
/// segment is the deciding one.
fn cd_segment_value(seg: &str) -> (r: Option<Option<String>>)
    ensures
        ({
            let t = trim_spaces(seg@);
            &&& r is None <==> !seq_starts_with(t, "filename="@)
            &&& r matches Some(v) ==> seq_starts_with(t, "filename="@) && opt_view(v) == ({
                let w = trim_quotes(t.skip(9));
                if w.len() > 0 {
                    Some(w)
                } else {
                    None::<Seq<char>>
                }
            })
        }),
{
    let t = trim_spaces_str(seg);
    if str_starts_with(t, "filename=") {
        proof {
            reveal_strlit("filename=");
        }
        let rest = t.substring_char(9, t.unicode_len());
        proof {
            assert(rest@ =~= t@.skip(9));
        }
        let v = trim_quotes_str(rest);
        if v.unicode_len() > 0 {
            Some(Some(String::from_str(v)))
        } else {
            Some(None)
        }
    } else {
        None
    }
}

/// Extracts the file name from a `Content-Disposition` header value, exactly
/// as `cd_filename` says.
pub fn filename_from_content_disposition(cd: &str) -> (r: Option<String>)
    ensures
        opt_view(r) == cd_filename(cd@),
{
    let mut rest: &str = cd;
    loop
        invariant
            cd_filename(cd@) == cd_from_segments(split_semi(rest@)),
        decreases rest@.len(),
    {
        match find_semi(rest) {
            Some(j) => {
                let rlen = rest.unicode_len();
                let seg = rest.substring_char(0, j);
                let next = rest.substring_char(j + 1, rlen);
                proof {
                    lemma_find_char(rest@, ';');
                    assert(seg@ =~= rest@.take(j as int));
                    assert(next@ =~= rest@.skip(j + 1));
                    assert(split_semi(rest@) == seq![rest@.take(j as int)] + split_semi(
                        rest@.skip(j + 1),
                    ));
                    assert(split_semi(rest@)[0] == seg@);
                    assert(split_semi(rest@).skip(1) =~= split_semi(next@));
                }
                match cd_segment_value(seg) {
                    Some(v) => {
                        return v;
                    },
                    None => {
                        rest = next;
                    },
                }
            },
            None => {
                proof {
                    lemma_find_char(rest@, ';');
                    assert(split_semi(rest@) =~= seq![rest@]);
                    assert(split_semi(rest@)[0] == rest@);
                    assert(split_semi(rest@).skip(1) =~= Seq::<Seq<char>>::empty());
                }
                match cd_segment_value(rest) {
                    Some(v) => {
                        return v;
                    },
                    None => {
                        proof {
                            assert(cd_from_segments(Seq::<Seq<char>>::empty()) is None);
                        }
                        return None;
                    },
                }
            },
        }
    }
}

/// The file name a download gets, in derivation order: the
/// `Content-Disposition` file name when the header yields one; else the
/// resolved URL's last path segment when it is non-empty and carries an
/// extension; else the generated `download_<timestamp>.<ext>` name with the
/// extension chosen from the content type.
pub open spec fn derived_name_spec(
    cd: Option<Seq<char>>,
    url: Seq<char>,
    ct: Option<Seq<char>>,
    ts: u64,
) -> Seq<char> {
    match (match cd {
        Some(c) => cd_filename(c),
        None => None,
    }) {
        Some(n) => n,
        None => match url_segment_name(url) {
            Some(n) => n,
            None => generated_name_spec(ts, generated_ext_spec(ct)),
        },
    }
}

/// Derives the file name for a download, exactly as `derived_name_spec`
/// says. `now_ts` feeds the generated fallback name.
pub fn derive_file_name(
    content_disposition: &Option<String>,
    url: &str,
    content_type: &Option<String>,
    now_ts: u64,
) -> (r: String)
    ensures
        r@ == derived_name_spec(
            opt_view(*content_disposition),
            url@,
            opt_view(*content_type),
            now_ts,
        ),
{
    match content_disposition {
        Some(c) => {
            match filename_from_content_disposition(c.as_str()) {
                Some(n) => {
                    return n;
                },
                None => {},
            }
        },
        None => {},
    }
    match parse_url_parts(url) {
        Some((_, Some(seg))) => {
            let has_ext = match last_dot(seg.as_str()) {
                Some(_) => true,
                None => false,
            };
            if !seg.as_str().is_empty() && has_ext {
                return seg;
            }
        },
        _ => {},
    }
    let ext = extension_for_content_type(content_type);
    generated_filename(now_ts, ext)
}

/// Derives the file name from the URL and content type alone (no
/// `Content-Disposition` available).
pub fn extract_filename_from_url(url: &str, content_type: &Option<String>, now_ts: u64) -> (r:
    String)
    ensures
        r@ == derived_name_spec(None, url@, opt_view(*content_type), now_ts),
{
    derive_file_name(&None, url, content_type, now_ts)
}

} // verus!
