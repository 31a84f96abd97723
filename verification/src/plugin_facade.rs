//! Checking a plugin URI before a backend is asked to load it: the host
//! never opens a library it was not meant to.
use vstd::prelude::*;
use vstd::string::*;

verus! {

/// The plugin formats the host loads.
#[derive(Debug, Clone, Copy, PartialEq, Eq, Structural)]
pub enum BackendKind {
    Lv2,
    Clap,
    Vst3,
}

/// Why a plugin URI was refused.
#[derive(Debug, Clone, Copy, PartialEq, Eq, Structural)]
pub enum UriError {
    /// An LV2 URI that looks like a file path.
    Lv2LooksLikePath,
    /// An empty LV2 URI.
    EmptyLv2Uri,
    /// An LV2 URI that does not start with a scheme (`name:`).
    Lv2WithoutScheme,
    /// A CLAP URI without a `#` before the plugin id.
    ClapMissingId,
    /// A CLAP URI whose plugin id is empty.
    ClapEmptyId,
    /// A CLAP library path that is not absolute.
    RelativeClapPath,
    /// A CLAP library path whose extension is not one a library has.
    ClapBadExtension,
    /// A VST3 bundle path that is not absolute.
    RelativeVst3Path,
    /// A VST3 bundle path without the `.vst3` extension.
    Vst3BadExtension,
}

/// Whether `s` begins with `p`.
pub open spec fn starts_with(s: Seq<char>, p: Seq<char>) -> bool {
    p.len() <= s.len() && s.subrange(0, p.len() as int) == p
}

/// Whether `i` is the position of the first `c` in `s`.
pub open spec fn is_first(s: Seq<char>, c: char, i: int) -> bool {
    0 <= i < s.len() && s[i] == c && forall|j: int| 0 <= j < i ==> s[j] != c
}

/// A CLAP URI cut at its first `#`: the library path, without a leading
/// `file://`, and the plugin id; `None` where there is no `#`.
pub open spec fn clap_parts(uri: Seq<char>) -> Option<(Seq<char>, Seq<char>)> {
    if uri.contains('#') {
        let i = choose|i: int| is_first(uri, '#', i);
        let path = uri.subrange(0, i);
        let path = if starts_with(path, "file://"@) {
            path.subrange(7, path.len() as int)
        } else {
            path
        };
        Some((path, uri.subrange(i + 1, uri.len() as int)))
    } else {
        None
    }
}

/// The characters of a text that may be absent.
pub open spec fn text_of(e: Option<&str>) -> Option<Seq<char>> {
    match e {
        Some(t) => Some(t@),
        None => None,
    }
}

/// The extensions a CLAP library may have.
pub open spec fn clap_extension_ok(e: Seq<char>) -> bool {
    e == "clap"@ || e == "so"@ || e == "dylib"@ || e == "dll"@
}

/// `vst3`, in any mix of upper and lower case.
pub open spec fn vst3_extension_ok(e: Seq<char>) -> bool {
    &&& e.len() == 4
    &&& e[0] == 'v' || e[0] == 'V'
    &&& e[1] == 's' || e[1] == 'S'
    &&& e[2] == 't' || e[2] == 'T'
    &&& e[3] == '3'
}

/// Whether a character is an ASCII letter.
pub open spec fn is_ascii_letter(c: char) -> bool {
    ('a' <= c && c <= 'z') || ('A' <= c && c <= 'Z')
}

/// Whether a character may follow the first letter of a URI scheme: a
/// letter, a digit, `+`, `-` or `.`.
pub open spec fn is_scheme_char(c: char) -> bool {
    is_ascii_letter(c) || ('0' <= c && c <= '9') || c == '+' || c == '-' || c == '.'
}

/// Whether a text starts with a URI scheme: a letter, then letters, digits,
/// `+`, `-` or `.`, up to the first `:`.
pub open spec fn has_scheme(s: Seq<char>) -> bool {
    exists|i: int|
        #![trigger is_first(s, ':', i)]
        is_first(s, ':', i) && i >= 1 && is_ascii_letter(s[0]) && forall|j: int|
            1 <= j < i ==> is_scheme_char(#[trigger] s[j])
}

/// What is decided of an LV2 URI: one that holds a `#` or begins with
/// `file://` or `/` is a path and refused, an empty one is refused, and of
/// the others only those that start with a scheme (`name:`) are taken, as
/// they are.
pub open spec fn lv2_verdict(uri: Seq<char>) -> Result<Seq<char>, UriError> {
    if uri.contains('#') || starts_with(uri, "file://"@) || starts_with(uri, "/"@) {
        Err(UriError::Lv2LooksLikePath)
    } else if uri.len() == 0 {
        Err(UriError::EmptyLv2Uri)
    } else if !has_scheme(uri) {
        Err(UriError::Lv2WithoutScheme)
    } else {
        Ok(uri)
    }
}

/// What is decided of a CLAP library path, given whether the platform takes
/// it as absolute and the extension it finds in it.
pub open spec fn clap_path_verdict(absolute: bool, extension: Option<Seq<char>>) -> Result<
    (),
    UriError,
> {
    if !absolute {
        Err(UriError::RelativeClapPath)
    } else if extension matches Some(e) && clap_extension_ok(e) {
        Ok(())
    } else {
        Err(UriError::ClapBadExtension)
    }
}

/// What is decided of a VST3 bundle path, given whether the platform takes
/// it as absolute and the extension it finds in it.
pub open spec fn vst3_path_verdict(absolute: bool, extension: Option<Seq<char>>) -> Result<
    (),
    UriError,
> {
    if !absolute {
        Err(UriError::RelativeVst3Path)
    } else if extension matches Some(e) && vst3_extension_ok(e) {
        Ok(())
    } else {
        Err(UriError::Vst3BadExtension)
    }
}

/// Whether `e` stands in `s` right after a `.`.
pub open spec fn follows_dot(s: Seq<char>, e: Seq<char>) -> bool {
    exists|i: int|
        0 <= i && i + 1 + e.len() <= s.len() && s[i] == '.' && #[trigger] s.subrange(
            i + 1,
            i + 1 + e.len(),
        ) == e
}

/// Whether a text could be an absolute path on the platforms std documents
/// for `Path::is_absolute`: on Unix an absolute path starts with `/`; on
/// Windows it has a prefix (such as `C:` or `\\server\share`) and a root, so
/// it starts with a separator or holds a `:`.
pub open spec fn may_be_absolute(path: Seq<char>) -> bool {
    path.len() > 0 && (path[0] == '/' || path[0] == '\\' || path.contains(':'))
}

/// Calls `Path::is_absolute` on the path. Whether a path is absolute follows
/// the platform's path rules; stated is only what holds on every platform
/// std documents: an absolute path starts with `/` or `\`, or holds a `:`.
#[verifier::external_body]
fn path_is_absolute(path: &str) -> (r: bool)
    ensures
        r ==> may_be_absolute(path@),
{
    std::path::Path::new(path).is_absolute()
}

/// Calls `Path::extension` on the path, as text. Where the file name and its
/// extension start follows the platform's path rules; stated is only what
/// holds on every platform: an extension is a part of the path that follows
/// a `.` and holds no `.` itself.
#[verifier::external_body]
fn path_extension(path: &str) -> (r: Option<String>)
    ensures
        r matches Some(e) ==> !e@.contains('.') && follows_dot(path@, e@),
{
    std::path::Path::new(path).extension().and_then(|e| e.to_str()).map(|e| e.to_string())
}

/// Whether two strings hold the same characters.
fn same_text(a: &str, b: &str) -> (r: bool)
    ensures
        r == (a@ == b@),
{
    let n = a.unicode_len();
    if n != b.unicode_len() {
        return false;
    }
    let mut i: usize = 0;
    while i < n
        invariant
            n == a@.len(),
            n == b@.len(),
            i <= n,
            forall|j: int| 0 <= j < i ==> a@[j] == b@[j],
        decreases n - i,
    {
        if a.get_char(i) != b.get_char(i) {
            return false;
        }
        i = i + 1;
    }
    assert(a@ =~= b@);
    true
}

/// Whether `s` begins with `p`.
fn has_prefix(s: &str, p: &str) -> (r: bool)
    ensures
        r == starts_with(s@, p@),
{
    let n = p.unicode_len();
    if n > s.unicode_len() {
        return false;
    }
    let mut i: usize = 0;
    while i < n
        invariant
            n == p@.len(),
            n <= s@.len(),
            i <= n,
            forall|j: int| 0 <= j < i ==> s@[j] == p@[j],
        decreases n - i,
    {
        if s.get_char(i) != p.get_char(i) {
            assert(s@.subrange(0, n as int)[i as int] != p@[i as int]);
            return false;
        }
        i = i + 1;
    }
    assert(s@.subrange(0, n as int) =~= p@);
    true
}

/// The position of the first `c` in `s`, if any.
fn find_char(s: &str, c: char) -> (r: Option<usize>)
    ensures
        r matches Some(i) ==> is_first(s@, c, i as int),
        r is None <==> !s@.contains(c),
{
    let n = s.unicode_len();
    let mut i: usize = 0;
    while i < n
        invariant
            n == s@.len(),
            i <= n,
            forall|j: int| 0 <= j < i ==> s@[j] != c,
        decreases n - i,
    {
        if s.get_char(i) == c {
            return Some(i);
        }
        i = i + 1;
    }
    None
}

/// Cut a CLAP URI at its first `#` into the library path, without a leading
/// `file://`, and the plugin id; `None` where there is no `#`.
pub fn split_clap_uri(uri: &str) -> (r: Option<(String, String)>)
    ensures
        r matches Some((p, id)) ==> clap_parts(uri@) == Some((p@, id@)),
        r is None <==> clap_parts(uri@) is None,
{
    match find_char(uri, '#') {
        None => None,
        Some(i) => {
            let n = uri.unicode_len();
            let before = uri.substring_char(0, i);
            let id = uri.substring_char(i + 1, n);
            let scheme = "file://";
            let path = if has_prefix(before, scheme) {
                before.substring_char(scheme.unicode_len(), before.unicode_len())
            } else {
                before
            };
            proof {
                reveal_strlit("file://");
                assert(uri@.contains('#'));
                let k = choose|k: int| is_first(uri@, '#', k);
                assert(k == i) by {
                    if k < i {
                        assert(uri@[k] != '#');
                    } else if i < k {
                        assert(uri@[i as int] != '#');
                    }
                }
            }
            Some((String::from_str(path), String::from_str(id)))
        },
    }
}

/// Decide a CLAP library path, given whether the platform takes it as
/// absolute and the extension it finds in it.
pub fn check_clap_path(absolute: bool, extension: Option<&str>) -> (r: Result<(), UriError>)
    ensures
        r == clap_path_verdict(absolute, text_of(extension)),
{
    if !absolute {
        return Err(UriError::RelativeClapPath);
    }
    match extension {
        Some(e) => {
            if same_text(e, "clap") || same_text(e, "so") || same_text(e, "dylib") || same_text(
                e,
                "dll",
            ) {
                Ok(())
            } else {
                Err(UriError::ClapBadExtension)
            }
        },
        None => Err(UriError::ClapBadExtension),
    }
}

/// Decide a VST3 bundle path, given whether the platform takes it as
/// absolute and the extension it finds in it.
pub fn check_vst3_path(absolute: bool, extension: Option<&str>) -> (r: Result<(), UriError>)
    ensures
        r == vst3_path_verdict(absolute, text_of(extension)),
{
    if !absolute {
        return Err(UriError::RelativeVst3Path);
    }
    match extension {
        Some(e) => {
            if e.unicode_len() == 4 {
                let c0 = e.get_char(0);
                let c1 = e.get_char(1);
                let c2 = e.get_char(2);
                let c3 = e.get_char(3);
                if (c0 == 'v' || c0 == 'V') && (c1 == 's' || c1 == 'S') && (c2 == 't' || c2
                    == 'T') && c3 == '3' {
                    return Ok(());
                }
            }
            Err(UriError::Vst3BadExtension)
        },
        None => Err(UriError::Vst3BadExtension),
    }
}

/// Decide an LV2 URI: one that looks like a file path, is empty, or does
/// not start with a scheme (`name:`) is refused; any other is taken as it
/// is.
pub fn check_lv2_uri(uri: &str) -> (r: Result<String, UriError>)
    ensures
        lv2_verdict(uri@) matches Ok(s) ==> r matches Ok(t) && t@ == s,
        lv2_verdict(uri@) matches Err(e) ==> r == Err::<String, UriError>(e),
{
    let looks_like_path = match find_char(uri, '#') {
        Some(_) => true,
        None => has_prefix(uri, "file://") || has_prefix(uri, "/"),
    };
    if looks_like_path {
        Err(UriError::Lv2LooksLikePath)
    } else if uri.unicode_len() == 0 {
        Err(UriError::EmptyLv2Uri)
    } else if !starts_with_scheme(uri) {
        Err(UriError::Lv2WithoutScheme)
    } else {
        Ok(String::from_str(uri))
    }
}

/// Whether a text starts with a URI scheme: a letter, then letters, digits,
/// `+`, `-` or `.`, up to the first `:`.
fn starts_with_scheme(s: &str) -> (r: bool)
    ensures
        r == has_scheme(s@),
{
    match find_char(s, ':') {
        None => {
            proof {
                assert forall|i: int| !is_first(s@, ':', i) by {
                    if is_first(s@, ':', i) {
                        assert(s@.contains(':'));
                    }
                }
            }
            false
        },
        Some(colon) => {
            if colon == 0 {
                proof {
                    assert forall|i: int| is_first(s@, ':', i) implies i == 0 by {
                        if i > 0 {
                            assert(s@[0] != ':');
                        }
                    }
                }
                return false;
            }
            let c0 = s.get_char(0);
            if !(('a' <= c0 && c0 <= 'z') || ('A' <= c0 && c0 <= 'Z')) {
                proof {
                    assert forall|i: int| is_first(s@, ':', i) implies !is_ascii_letter(s@[0]) by {}
                }
                return false;
            }
            let mut j: usize = 1;
            while j < colon
                invariant
                    1 <= j <= colon,
                    colon < s@.len(),
                    is_first(s@, ':', colon as int),
                    forall|k: int| 1 <= k < j ==> is_scheme_char(#[trigger] s@[k]),
                decreases colon - j,
            {
                let c = s.get_char(j);
                if !(('a' <= c && c <= 'z') || ('A' <= c && c <= 'Z') || ('0' <= c && c <= '9')
                    || c == '+' || c == '-' || c == '.') {
                    proof {
                        assert forall|i: int| is_first(s@, ':', i) implies !(i >= 1
                            && is_ascii_letter(s@[0]) && forall|k: int|
                            1 <= k < i ==> is_scheme_char(#[trigger] s@[k])) by {
                            if i != colon {
                                if i < colon {
                                    assert(s@[i] != ':');
                                } else {
                                    assert(s@[colon as int] != ':');
                                }
                            }
                            assert(!is_scheme_char(s@[j as int]));
                        }
                    }
                    return false;
                }
                j = j + 1;
            }
            proof {
                assert(is_first(s@, ':', colon as int));
            }
            true
        },
    }
}

/// The URI a CLAP plugin is loaded by: `file://`, the library path, `#` and
/// the plugin id.
pub open spec fn clap_uri(path: Seq<char>, id: Seq<char>) -> Seq<char> {
    "file://"@ + path + "#"@ + id
}

/// Reading back a CLAP URI gives the library path and plugin id it was made
/// of, for a path without `#`.
pub proof fn lemma_clap_uri_round_trip(path: Seq<char>, id: Seq<char>)
    requires
        !path.contains('#'),
    ensures
        clap_parts(clap_uri(path, id)) == Some((path, id)),
{
    reveal_strlit("file://");
    reveal_strlit("#");
    let uri = clap_uri(path, id);
    let scheme = "file://"@;
    let k: int = 7 + path.len() as int;
    assert(scheme.len() == 7);
    assert(uri[k] == '#');
    assert forall|j: int| 0 <= j < k implies uri[j] != '#' by {
        if j < 7 {
            assert(uri[j] == scheme[j]);
        } else {
            assert(uri[j] == path[j - 7]);
        }
    }
    assert(is_first(uri, '#', k));
    let i = choose|i: int| is_first(uri, '#', i);
    assert(i == k) by {
        if i < k {
            assert(uri[i] != '#');
        } else if k < i {
            assert(uri[k] != '#');
        }
    }
    let before = uri.subrange(0, k);
    assert(before.subrange(0, 7) =~= scheme);
    assert(before.subrange(7, before.len() as int) =~= path);
    assert(uri.subrange(k + 1, uri.len() as int) =~= id);
}

/// What a platform may answer of a path, on every platform std documents:
/// only a path that starts with a separator or holds a `:` is absolute, and
/// an extension follows a `.` in the path and holds no `.` itself.
pub open spec fn possible_path_answers(path: Seq<char>, absolute: bool, extension: Option<Seq<char>>) -> bool {
    &&& absolute ==> may_be_absolute(path)
    &&& extension matches Some(e) ==> !e.contains('.') && follows_dot(path, e)
}

/// The characters of a checked URI, or the refusal.
pub open spec fn checked_text(r: Result<String, UriError>) -> Result<Seq<char>, UriError> {
    match r {
        Ok(t) => Ok(t@),
        Err(e) => Err(e),
    }
}

/// A path verdict, with the text given back where the path is taken.
pub open spec fn on_path_verdict(v: Result<(), UriError>, text: Seq<char>) -> Result<Seq<char>, UriError> {
    match v {
        Ok(_) => Ok(text),
        Err(e) => Err(e),
    }
}

/// Check a plugin URI before its backend loads it. LV2 URIs are looked up,
/// never opened, so only ones that do not look like paths pass. A CLAP URI
/// must name an absolute library path with a library's extension and a
/// non-empty plugin id, and comes back as `file://<path>#<id>`. A VST3 URI
/// must be an absolute path with the `.vst3` extension, and comes back as it
/// is. Whether a path is absolute, and its extension, the platform's path
/// rules decide; the outcome is the verdict on the library path (CLAP) or
/// on the URI (VST3) for what the platform answered of that path.
pub fn validate_plugin_uri(backend: BackendKind, uri: &str) -> (r: Result<String, UriError>)
    ensures
        backend == BackendKind::Lv2 ==> (match lv2_verdict(uri@) {
            Ok(s) => r matches Ok(t) && t@ == s,
            Err(e) => r == Err::<String, UriError>(e),
        }),
        backend == BackendKind::Clap ==> (match clap_parts(uri@) {
            None => r == Err::<String, UriError>(UriError::ClapMissingId),
            Some((path, id)) => if id.len() == 0 {
                r == Err::<String, UriError>(UriError::ClapEmptyId)
            } else {
                &&& !may_be_absolute(path) ==> r == Err::<String, UriError>(
                    UriError::RelativeClapPath,
                )
                &&& r matches Ok(t) ==> t@ == clap_uri(path, id) && may_be_absolute(path) && exists|
                    e: Seq<char>,
                | #[trigger] follows_dot(path, e) && clap_extension_ok(e)
                &&& r matches Err(e) ==> e == UriError::RelativeClapPath || e
                    == UriError::ClapBadExtension
                &&& exists|a: bool, x: Option<Seq<char>>|
                    #[trigger] possible_path_answers(path, a, x) && checked_text(r)
                        == on_path_verdict(clap_path_verdict(a, x), clap_uri(path, id))
            },
        }),
        backend == BackendKind::Vst3 ==> {
            &&& !may_be_absolute(uri@) ==> r == Err::<String, UriError>(UriError::RelativeVst3Path)
            &&& r matches Ok(t) ==> t@ == uri@ && may_be_absolute(uri@) && exists|e: Seq<char>|
                #[trigger] follows_dot(uri@, e) && vst3_extension_ok(e)
            &&& r matches Err(e) ==> e == UriError::RelativeVst3Path || e
                == UriError::Vst3BadExtension
            &&& exists|a: bool, x: Option<Seq<char>>|
                #[trigger] possible_path_answers(uri@, a, x) && checked_text(r) == on_path_verdict(
                    vst3_path_verdict(a, x),
                    uri@,
                )
        },
{
    match backend {
        BackendKind::Lv2 => check_lv2_uri(uri),
        BackendKind::Clap => {
            let (path, id) = match split_clap_uri(uri) {
                Some(parts) => parts,
                None => return Err(UriError::ClapMissingId),
            };
            if id.as_str().unicode_len() == 0 {
                return Err(UriError::ClapEmptyId);
            }
            let absolute = path_is_absolute(path.as_str());
            let extension = path_extension(path.as_str());
            let ext = match &extension {
                Some(e) => Some(e.as_str()),
                None => None,
            };
            proof {
                assert(possible_path_answers(path@, absolute, text_of(ext)));
            }
            let ghost parts = clap_parts(uri@)->0;
            match check_clap_path(absolute, ext) {
                Err(e) => {
                    assert(checked_text(Err(e)) == on_path_verdict(
                        clap_path_verdict(absolute, text_of(ext)),
                        clap_uri(parts.0, parts.1),
                    ));
                    Err(e)
                },
                Ok(()) => {
                    proof {
                        let e = extension->0@;
                        assert(follows_dot(path@, e) && clap_extension_ok(e));
                    }
                    let mut out = String::from_str("file://");
                    out.append(path.as_str());
                    out.append("#");
                    out.append(id.as_str());
                    assert(out@ =~= clap_uri(parts.0, parts.1));
                    assert(checked_text(Ok(out)) == on_path_verdict(
                        clap_path_verdict(absolute, text_of(ext)),
                        clap_uri(parts.0, parts.1),
                    ));
                    Ok(out)
                },
            }
        },
        BackendKind::Vst3 => {
            let absolute = path_is_absolute(uri);
            let extension = path_extension(uri);
            let ext = match &extension {
                Some(e) => Some(e.as_str()),
                None => None,
            };
            proof {
                assert(possible_path_answers(uri@, absolute, text_of(ext)));
            }
            match check_vst3_path(absolute, ext) {
                Err(e) => Err(e),
                Ok(()) => {
                    proof {
                        let e = extension->0@;
                        assert(follows_dot(uri@, e) && vst3_extension_ok(e));
                    }
                    Ok(String::from_str(uri))
                },
            }
        },
    }
}

impl UriError {
    /// The message shown for the refusal of `uri`.
    pub fn message(&self, uri: &str) -> (r: String)
        ensures
            r@ == match *self {
                UriError::Lv2LooksLikePath => "Refusing LV2 URI that looks like a path: "@ + uri@,
                UriError::EmptyLv2Uri => "Empty LV2 URI"@,
                UriError::Lv2WithoutScheme => "Refusing LV2 URI without a scheme: "@ + uri@,
                UriError::ClapMissingId => "CLAP URI must be file:///.../lib#plugin_id, got: "@
                    + uri@,
                UriError::ClapEmptyId => "CLAP URI has empty plugin id: "@ + uri@,
                UriError::RelativeClapPath => "Refusing relative CLAP path: "@ + uri@,
                UriError::ClapBadExtension => "Refusing CLAP path with bad extension: "@ + uri@,
                UriError::RelativeVst3Path => "Refusing relative VST3 path: "@ + uri@,
                UriError::Vst3BadExtension => "Refusing VST3 path with bad extension: "@ + uri@,
            },
    {
        match self {
            UriError::Lv2LooksLikePath => String::from_str(
                "Refusing LV2 URI that looks like a path: ",
            ).concat(uri),
            UriError::EmptyLv2Uri => String::from_str("Empty LV2 URI"),
            UriError::Lv2WithoutScheme => String::from_str(
                "Refusing LV2 URI without a scheme: ",
            ).concat(uri),
            UriError::ClapMissingId => String::from_str(
                "CLAP URI must be file:///.../lib#plugin_id, got: ",
            ).concat(uri),
            UriError::ClapEmptyId => String::from_str("CLAP URI has empty plugin id: ").concat(
                uri,
            ),
            UriError::RelativeClapPath => String::from_str("Refusing relative CLAP path: ").concat(
                uri,
            ),
            UriError::ClapBadExtension => String::from_str(
                "Refusing CLAP path with bad extension: ",
            ).concat(uri),
            UriError::RelativeVst3Path => String::from_str("Refusing relative VST3 path: ").concat(
                uri,
            ),
            UriError::Vst3BadExtension => String::from_str(
                "Refusing VST3 path with bad extension: ",
            ).concat(uri),
        }
    }
}

} // verus!
