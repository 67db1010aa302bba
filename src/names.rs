use vstd::prelude::*;

verus! {

/// What `str::to_lowercase` makes of a string.
pub uninterp spec fn lower_of(s: Seq<char>) -> Seq<char>;

/// The leaf component that `Path::file_name` finds in a path, if any.
pub uninterp spec fn leaf_of(path: Seq<char>) -> Option<Seq<char>>;

/// Relies on `str::to_lowercase`: the result depends on the characters alone,
/// and the empty string stays empty.
#[verifier::external_body]
pub(crate) fn to_lower(s: &str) -> (r: String)
    ensures
        r@ == lower_of(s@),
        s@.len() == 0 ==> r@.len() == 0,
{
    s.to_lowercase()
}

/// Relies on `Path::file_name`: the last normal component of the path, read
/// back as text (a component of a `&str` path is always valid UTF-8).
#[verifier::external_body]
pub(crate) fn path_leaf(path: &str) -> (r: Option<String>)
    ensures
        match r {
            Some(s) => leaf_of(path@) == Some(s@),
            None => leaf_of(path@) is None,
        },
{
    std::path::Path::new(path).file_name().and_then(|n| n.to_str()).map(|n| n.to_owned())
}

/// Whether two strings hold the same characters.
pub fn same_text(a: &str, b: &str) -> (r: bool)
    ensures
        r == (a@ == b@),
{
    let n = a.unicode_len();
    if n != b.unicode_len() {
        return false;
    }
    let mut i: usize = 0;
    while i < n
        invariant
            n == a@.len(),
            n == b@.len(),
            i <= n,
            forall|j: int| 0 <= j < i ==> a@[j] == b@[j],
        decreases n - i,
    {
        if a.get_char(i) != b.get_char(i) {
            return false;
        }
        i += 1;
    }
    assert(a@ =~= b@);
    true
}

/// A name is hidden when it starts with a dot.
pub open spec fn hidden_name(name: Seq<char>) -> bool {
    name.len() > 0 && name[0] == '.'
}

/// Whether a leaf name denotes a hidden entry.
pub fn is_hidden_name(name: &str) -> (r: bool)
    ensures
        r == hidden_name(name@),
{
    name.unicode_len() > 0 && name.get_char(0) == '.'
}

/// Whether the leaf of a path denotes a hidden entry; a path without a leaf
/// is not hidden.
pub fn is_hidden_path(path: &str) -> (r: bool)
    ensures
        r == match leaf_of(path@) {
            Some(n) => hidden_name(n),
            None => false,
        },
{
    match path_leaf(path) {
        Some(n) => is_hidden_name(n.as_str()),
        None => false,
    }
}

/// Index of the last dot in `s`, or -1.
pub open spec fn last_dot(s: Seq<char>) -> int
    decreases s.len(),
{
    if s.len() == 0 {
        -1
    } else if s.last() == '.' {
        s.len() - 1
    } else {
        last_dot(s.drop_last())
    }
}

/// The extension of a leaf name: what follows its last dot, where that dot
/// is not the first character and the name is not `..`.
pub open spec fn extension_of(name: Seq<char>) -> Option<Seq<char>> {
    let k = last_dot(name);
    if name == ".."@ || k <= 0 {
        None
    } else {
        Some(name.subrange(k + 1, name.len() as int))
    }
}

proof fn lemma_last_dot_bounds(s: Seq<char>)
    ensures
        -1 <= last_dot(s) < s.len(),
        last_dot(s) >= 0 ==> s[last_dot(s)] == '.',
    decreases s.len(),
{
    if s.len() > 0 && s.last() != '.' {
        lemma_last_dot_bounds(s.drop_last());
    }
}

/// The extension of a leaf name, if it has one.
pub fn extension(name: &str) -> (r: Option<String>)
    ensures
        match r {
            Some(e) => extension_of(name@) == Some(e@),
            None => extension_of(name@) is None,
        },
{
    let n = name.unicode_len();
    let mut i: usize = n;
    assert(name@.subrange(0, n as int) =~= name@);
    while i > 0
        invariant
            i <= n,
            n == name@.len(),
            last_dot(name@) == last_dot(name@.subrange(0, i as int)),
        ensures
            i == 0 || name@[i - 1] == '.',
        decreases i,
    {
        if name.get_char(i - 1) == '.' {
            break;
        }
        assert(name@.subrange(0, i - 1) =~= name@.subrange(0, i as int).drop_last());
        i -= 1;
    }
    if i == 0 {
        assert(name@.subrange(0, 0) =~= Seq::<char>::empty());
        return None;
    }
    assert(name@.subrange(0, i as int).last() == '.');
    assert(last_dot(name@) == i - 1);
    if i == 1 || same_text(name, "..") {
        return None;
    }
    Some(name.substring_char(i, n).to_owned())
}

/// The MIME type of a lower-case extension, from a fixed table.
pub open spec fn mime_of(ext: Seq<char>) -> Option<Seq<char>> {
    if ext == "txt"@ {
        Some("text/plain"@)
    } else if ext == "html"@ {
        Some("text/html"@)
    } else if ext == "css"@ {
        Some("text/css"@)
    } else if ext == "js"@ {
        Some("application/javascript"@)
    } else if ext == "json"@ {
        Some("application/json"@)
    } else if ext == "xml"@ {
        Some("application/xml"@)
    } else if ext == "pdf"@ {
        Some("application/pdf"@)
    } else if ext == "png"@ {
        Some("image/png"@)
    } else if ext == "jpg"@ || ext == "jpeg"@ {
        Some("image/jpeg"@)
    } else if ext == "gif"@ {
        Some("image/gif"@)
    } else if ext == "svg"@ {
        Some("image/svg+xml"@)
    } else if ext == "mp4"@ {
        Some("video/mp4"@)
    } else if ext == "mp3"@ {
        Some("audio/mpeg"@)
    } else {
        None
    }
}

/// The MIME type of an extension, compared without regard to case.
pub fn mime_type(ext: &str) -> (r: Option<String>)
    ensures
        match r {
            Some(m) => mime_of(lower_of(ext@)) == Some(m@),
            None => mime_of(lower_of(ext@)) is None,
        },
{
    let low = to_lower(ext);
    let e = low.as_str();
    let m = if same_text(e, "txt") {
        "text/plain"
    } else if same_text(e, "html") {
        "text/html"
    } else if same_text(e, "css") {
        "text/css"
    } else if same_text(e, "js") {
        "application/javascript"
    } else if same_text(e, "json") {
        "application/json"
    } else if same_text(e, "xml") {
        "application/xml"
    } else if same_text(e, "pdf") {
        "application/pdf"
    } else if same_text(e, "png") {
        "image/png"
    } else if same_text(e, "jpg") || same_text(e, "jpeg") {
        "image/jpeg"
    } else if same_text(e, "gif") {
        "image/gif"
    } else if same_text(e, "svg") {
        "image/svg+xml"
    } else if same_text(e, "mp4") {
        "video/mp4"
    } else if same_text(e, "mp3") {
        "audio/mpeg"
    } else {
        return None;
    };
    Some(m.to_owned())
}

/// The icon tag of a lower-case file extension, from a fixed table.
pub open spec fn icon_of_ext(ext: Seq<char>) -> Seq<char> {
    if ext == "rs"@ {
        "rust"@
    } else if ext == "js"@ || ext == "jsx"@ {
        "javascript"@
    } else if ext == "ts"@ || ext == "tsx"@ {
        "typescript"@
    } else if ext == "py"@ {
        "python"@
    } else if ext == "html"@ {
        "html"@
    } else if ext == "css"@ {
        "css"@
    } else if ext == "json"@ {
        "json"@
    } else if ext == "md"@ {
        "markdown"@
    } else if ext == "txt"@ {
        "text"@
    } else if ext == "png"@ || ext == "jpg"@ || ext == "jpeg"@ || ext == "gif"@ || ext == "svg"@ {
        "image"@
    } else if ext == "pdf"@ {
        "pdf"@
    } else if ext == "zip"@ || ext == "tar"@ || ext == "gz"@ {
        "archive"@
    } else {
        "file"@
    }
}

/// The icon tag of an entry: every directory is a folder; a file goes by its
/// extension, without regard to case.
pub open spec fn icon_of(name: Seq<char>, is_directory: bool) -> Seq<char> {
    if is_directory {
        "folder"@
    } else {
        match extension_of(name) {
            Some(e) => icon_of_ext(lower_of(e)),
            None => "file"@,
        }
    }
}

fn icon_for_ext(ext: &str) -> (r: &'static str)
    ensures
        r@ == icon_of_ext(lower_of(ext@)),
{
    let low = to_lower(ext);
    let e = low.as_str();
    if same_text(e, "rs") {
        "rust"
    } else if same_text(e, "js") || same_text(e, "jsx") {
        "javascript"
    } else if same_text(e, "ts") || same_text(e, "tsx") {
        "typescript"
    } else if same_text(e, "py") {
        "python"
    } else if same_text(e, "html") {
        "html"
    } else if same_text(e, "css") {
        "css"
    } else if same_text(e, "json") {
        "json"
    } else if same_text(e, "md") {
        "markdown"
    } else if same_text(e, "txt") {
        "text"
    } else if same_text(e, "png") || same_text(e, "jpg") || same_text(e, "jpeg") || same_text(
        e,
        "gif",
    ) || same_text(e, "svg") {
        "image"
    } else if same_text(e, "pdf") {
        "pdf"
    } else if same_text(e, "zip") || same_text(e, "tar") || same_text(e, "gz") {
        "archive"
    } else {
        "file"
    }
}

/// The icon tag shown beside an entry of a listing.
pub fn file_icon(name: &str, is_directory: bool) -> (r: String)
    ensures
        r@ == icon_of(name@, is_directory),
{
    if is_directory {
        return "folder".to_owned();
    }
    match extension(name) {
        Some(e) => icon_for_ext(e.as_str()).to_owned(),
        None => "file".to_owned(),
    }
}

/// The octal digit of a value below eight.
pub open spec fn octal_digit(d: nat) -> char {
    if d == 0 {
        '0'
    } else if d == 1 {
        '1'
    } else if d == 2 {
        '2'
    } else if d == 3 {
        '3'
    } else if d == 4 {
        '4'
    } else if d == 5 {
        '5'
    } else if d == 6 {
        '6'
    } else {
        '7'
    }
}

/// A number written in base eight, without leading zeros.
pub open spec fn octal_text(n: nat) -> Seq<char>
    decreases n,
{
    if n < 8 {
        seq![octal_digit(n)]
    } else {
        octal_text(n / 8).push(octal_digit(n % 8))
    }
}

fn digit_text(d: u32) -> (r: &'static str)
    requires
        d < 8,
    ensures
        r@ == seq![octal_digit(d as nat)],
{
    proof {
        reveal_strlit("0");
        reveal_strlit("1");
        reveal_strlit("2");
        reveal_strlit("3");
        reveal_strlit("4");
        reveal_strlit("5");
        reveal_strlit("6");
        reveal_strlit("7");
    }
    if d == 0 {
        "0"
    } else if d == 1 {
        "1"
    } else if d == 2 {
        "2"
    } else if d == 3 {
        "3"
    } else if d == 4 {
        "4"
    } else if d == 5 {
        "5"
    } else if d == 6 {
        "6"
    } else {
        "7"
    }
}

fn append_octal(n: u32, s: &mut String)
    ensures
        final(s)@ == old(s)@ + octal_text(n as nat),
    decreases n,
{
    if n >= 8 {
        append_octal(n / 8, s);
    }
    s.append(digit_text(n % 8));
    proof {
        if n >= 8 {
            assert(old(s)@ + octal_text(n as nat) =~= old(s)@ + octal_text((n / 8) as nat) + seq![
                octal_digit((n % 8) as nat),
            ]);
        }
    }
}

/// A permission mode written in octal, as `ls` users read it.
pub fn octal_permissions(mode: u32) -> (r: String)
    ensures
        r@ == octal_text(mode as nat),
{
    let mut s = String::new();
    append_octal(mode, &mut s);
    assert(s@ =~= octal_text(mode as nat));
    s
}

} // verus!
