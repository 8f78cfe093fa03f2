use vstd::prelude::*;
use vstd::string::*;

use crate::settings::Settings;

verus! {

/// What `sanitize_filename::sanitize` makes of a file name.
pub uninterp spec fn sanitized_of(name: Seq<char>) -> Seq<char>;

/// Relies on `sanitize_filename::sanitize` (default options) to strip
/// separators, control and reserved characters from an upload's name.
#[verifier::external_body]
fn sanitize(name: &str) -> (r: String)
    ensures
        r@ == sanitized_of(name@),
{
    sanitize_filename::sanitize(name)
}

/// Relies on `String::push_str`: appends `t` to `s`.
pub assume_specification[ String::push_str ](s: &mut String, t: &str)
    ensures
        final(s)@ == old(s)@ + t@,
;

/// A name that can stand as one entry of a folder: not empty, not `.` or
/// `..`, and free of path separators and NUL.
pub open spec fn is_safe_component(s: Seq<char>) -> bool {
    &&& s.len() > 0
    &&& s != seq!['.']
    &&& s != seq!['.', '.']
    &&& forall|i: int| 0 <= i < s.len() ==> #[trigger] s[i] != '/' && s[i] != '\\' && s[i] != '\0'
}

/// The name used when an upload carries none, or none that is safe.
pub open spec fn placeholder_name() -> Seq<char> {
    seq!['u', 'p', 'l', 'o', 'a', 'd', '.', 'm', 'p', '3']
}

pub open spec fn opt_view(o: Option<&str>) -> Option<Seq<char>> {
    match o {
        Some(s) => Some(s@),
        None => None,
    }
}

/// An already sanitized name if it is safe, else the placeholder.
pub open spec fn name_choice(sanitized: Option<Seq<char>>) -> Seq<char> {
    match sanitized {
        Some(s) => if is_safe_component(s) {
            s
        } else {
            placeholder_name()
        },
        None => placeholder_name(),
    }
}

/// The name under which an upload whose given name is `raw` is stored.
pub open spec fn stored_name_of(raw: Option<Seq<char>>) -> Seq<char> {
    match raw {
        Some(r) => name_choice(Some(sanitized_of(r))),
        None => placeholder_name(),
    }
}

/// The folder as a directory prefix: with a trailing `/` unless it is empty
/// or already ends in one.
pub open spec fn dir_prefix(folder: Seq<char>) -> Seq<char> {
    if folder.len() == 0 || folder.last() == '/' {
        folder
    } else {
        folder.push('/')
    }
}

/// The path of the entry `name` in `folder`.
pub open spec fn joined(folder: Seq<char>, name: Seq<char>) -> Seq<char> {
    dir_prefix(folder) + name
}

/// Decides `is_safe_component`.
pub fn is_safe_name(s: &str) -> (r: bool)
    ensures
        r == is_safe_component(s@),
{
    let n = s.unicode_len();
    if n == 0 {
        return false;
    }
    if n == 1 && s.get_char(0) == '.' {
        assert(s@ =~= seq!['.']);
        return false;
    }
    if n == 2 && s.get_char(0) == '.' && s.get_char(1) == '.' {
        assert(s@ =~= seq!['.', '.']);
        return false;
    }
    proof {
        if s@ == seq!['.'] {
            assert(s@[0] == '.');
        }
        if s@ == seq!['.', '.'] {
            assert(s@[0] == '.' && s@[1] == '.');
        }
    }
    let mut i: usize = 0;
    while i < n
        invariant
            n == s@.len(),
            i <= n,
            forall|j: int| 0 <= j < i ==> #[trigger] s@[j] != '/' && s@[j] != '\\' && s@[j] != '\0',
        decreases n - i,
    {
        let c = s.get_char(i);
        if c == '/' || c == '\\' || c == '\0' {
            return false;
        }
        i = i + 1;
    }
    true
}

/// The name to store under, from what sanitizing gave (if anything).
pub fn name_or_placeholder(sanitized: Option<&str>) -> (r: String)
    ensures
        r@ == name_choice(opt_view(sanitized)),
{
    match sanitized {
        Some(s) => {
            if is_safe_name(s) {
                return s.to_string();
            }
        },
        None => {},
    }
    let r = "upload.mp3".to_string();
    proof {
        reveal_strlit("upload.mp3");
        assert(r@ =~= placeholder_name());
    }
    r
}

/// The name under which an upload named `filename` (if it has a name) is
/// stored: sanitized, or the placeholder where that leaves nothing safe.
pub fn stored_name(filename: Option<&str>) -> (r: String)
    ensures
        r@ == stored_name_of(opt_view(filename)),
        is_safe_component(r@),
{
    proof {
        assert(is_safe_component(placeholder_name()));
    }
    match filename {
        Some(f) => {
            let s = sanitize(f);
            name_or_placeholder(Some(s.as_str()))
        },
        None => name_or_placeholder(None),
    }
}

/// The path of the entry `name` in `folder`.
pub fn join_path(folder: &str, name: &str) -> (r: String)
    ensures
        r@ == joined(folder@, name@),
{
    let mut r = folder.to_string();
    let n = folder.unicode_len();
    if n > 0 && folder.get_char(n - 1) != '/' {
        r.push_str("/");
        proof {
            reveal_strlit("/");
        }
    }
    r.push_str(name);
    r
}

/// Where one upload goes: its stored name and the path of that name in the
/// storage folder.
pub struct UploadArtifact {
    pub sanitized_filename: String,
    pub destination_path: String,
}

/// The stored path of an upload named `raw` under `folder`.
pub open spec fn destination_of(folder: Seq<char>, raw: Option<Seq<char>>) -> Seq<char> {
    joined(folder, stored_name_of(raw))
}

/// Decides where an upload named `filename` (if the request gave a name) is
/// stored under the configured folder.
pub fn upload_target(settings: &Settings, filename: Option<&str>) -> (r: UploadArtifact)
    ensures
        r.sanitized_filename@ == stored_name_of(opt_view(filename)),
        r.destination_path@ == destination_of(settings.songbites_folder@, opt_view(filename)),
        is_safe_component(r.sanitized_filename@),
{
    let name = stored_name(filename);
    let path = join_path(settings.songbites_folder.as_str(), name.as_str());
    UploadArtifact { sanitized_filename: name, destination_path: path }
}

/// The stored path of `filename`, if it names an entry of the storage
/// folder; `None` for a name that would leave it.
pub fn resolve_stored_path(settings: &Settings, filename: &str) -> (r: Option<String>)
    ensures
        r is Some <==> is_safe_component(filename@),
        r is Some ==> r->Some_0@ == joined(settings.songbites_folder@, filename@),
{
    if is_safe_name(filename) {
        Some(join_path(settings.songbites_folder.as_str(), filename))
    } else {
        None
    }
}

/// Whatever name an upload carries, path traversal included, its stored
/// path is the storage folder as a directory followed by one safe entry.
pub proof fn lemma_destination_inside_folder(folder: Seq<char>, raw: Option<Seq<char>>)
    ensures
        destination_of(folder, raw) == dir_prefix(folder) + stored_name_of(raw),
        is_safe_component(stored_name_of(raw)),
{
    assert(is_safe_component(placeholder_name()));
}

/// Asking for a stored upload by the name it was stored under resolves to
/// the very path that the upload was written to.
pub proof fn lemma_retrieval_finds_upload(folder: Seq<char>, raw: Option<Seq<char>>)
    ensures
        is_safe_component(stored_name_of(raw)),
        joined(folder, stored_name_of(raw)) == destination_of(folder, raw),
{
    assert(is_safe_component(placeholder_name()));
}

/// Uploads stored under different names go to different paths of the same
/// folder, so their bytes never share a file.
pub proof fn lemma_distinct_destinations(
    folder: Seq<char>,
    raw_a: Option<Seq<char>>,
    raw_b: Option<Seq<char>>,
)
    requires
        stored_name_of(raw_a) != stored_name_of(raw_b),
    ensures
        destination_of(folder, raw_a) != destination_of(folder, raw_b),
{
    let p = dir_prefix(folder);
    let a = stored_name_of(raw_a);
    let b = stored_name_of(raw_b);
    if p + a == p + b {
        assert((p + a).subrange(p.len() as int, (p + a).len() as int) =~= a);
        assert((p + b).subrange(p.len() as int, (p + b).len() as int) =~= b);
    }
}

} // verus!
