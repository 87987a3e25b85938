use vstd::prelude::*;
use vstd::string::StringExecFns;
use crate::errors::ErrorKind;
use crate::errors::HostError;

verus! {

/// Byte values the resolver inspects: `:`, `/`, and the letters of the
/// scheme names `file`, `http` and `https`.
pub const BYTE_COLON: u8 = 58;

pub const BYTE_SLASH: u8 = 47;

pub const BYTE_LE: u8 = 101;

pub const BYTE_LF: u8 = 102;

pub const BYTE_LH: u8 = 104;

pub const BYTE_LI: u8 = 105;

pub const BYTE_LL: u8 = 108;

pub const BYTE_LP: u8 = 112;

pub const BYTE_LS: u8 = 115;

pub const BYTE_LT: u8 = 116;

/// The scheme of a canonical module locator. The filesystem-backed
/// default loader serves file locators; network locators are kept
/// canonical for an embedding that adds a remote loader.
#[derive(Clone, Copy, PartialEq, Eq, Structural, Debug)]
pub enum UrlScheme {
    File,
    Http,
    Https,
}

/// A canonicalized, scheme-qualified locator for the entry script,
/// created once per run, before bootstrap, and immutable thereafter.
/// The bytes after the scheme separator are kept as `path`.
pub struct ModuleReference {
    pub scheme: UrlScheme,
    pub path: Vec<u8>,
}

impl ModuleReference {
    /// Canonical form: a file locator names an absolute path; a
    /// network locator names a non-empty authority and path.
    pub open spec fn is_canonical(self) -> bool {
        match self.scheme {
            UrlScheme::File => self.path@.len() > 0 && self.path@[0] == BYTE_SLASH,
            UrlScheme::Http => self.path@.len() > 0,
            UrlScheme::Https => self.path@.len() > 0,
        }
    }
}

/// Whether the three bytes at `i` spell the scheme separator `://`.
pub open spec fn scheme_sep_at(s: Seq<u8>, i: int) -> bool {
    &&& 0 <= i
    &&& i + 3 <= s.len()
    &&& s[i] == BYTE_COLON
    &&& s[i + 1] == BYTE_SLASH
    &&& s[i + 2] == BYTE_SLASH
}

/// Position of the first scheme separator at or after `from`, or -1.
pub open spec fn sep_search(s: Seq<u8>, from: int) -> int
    decreases s.len() - from,
{
    if from < 0 || from + 3 > s.len() {
        -1
    } else if scheme_sep_at(s, from) {
        from
    } else {
        sep_search(s, from + 1)
    }
}

/// Position of the first scheme separator in `s`, or -1 if `s` holds
/// none and is a plain filesystem path.
pub open spec fn first_sep(s: Seq<u8>) -> int {
    sep_search(s, 0)
}

pub open spec fn has_scheme_sep(s: Seq<u8>) -> bool {
    first_sep(s) >= 0
}

proof fn lemma_sep_search_found(s: Seq<u8>, from: int, i: int)
    requires
        0 <= from <= i,
        scheme_sep_at(s, i),
        forall|j: int| from <= j < i ==> !scheme_sep_at(s, j),
    ensures
        sep_search(s, from) == i,
    decreases i - from,
{
    if from < i {
        lemma_sep_search_found(s, from + 1, i);
    }
}

proof fn lemma_sep_search_none(s: Seq<u8>, from: int)
    requires
        0 <= from,
        forall|j: int| from <= j ==> !scheme_sep_at(s, j),
    ensures
        sep_search(s, from) == -1,
    decreases s.len() - from,
{
    if from + 3 <= s.len() {
        lemma_sep_search_none(s, from + 1);
    }
}

/// Finds the first scheme separator `://` in `s`, if there is one.
fn find_scheme_sep(s: &[u8]) -> (r: Option<usize>)
    ensures
        match r {
            Some(i) => i == first_sep(s@) && scheme_sep_at(s@, i as int),
            None => first_sep(s@) == -1,
        },
{
    if s.len() < 3 {
        proof {
            lemma_sep_search_none(s@, 0);
        }
        return None;
    }
    let mut i: usize = 0;
    while i <= s.len() - 3
        invariant
            s.len() >= 3,
            i <= s.len(),
            forall|j: int| 0 <= j < i ==> !scheme_sep_at(s@, j),
        decreases s.len() - i,
    {
        if s[i] == BYTE_COLON && s[i + 1] == BYTE_SLASH && s[i + 2] == BYTE_SLASH {
            proof {
                lemma_sep_search_found(s@, 0, i as int);
            }
            return Some(i);
        }
        i = i + 1;
    }
    proof {
        lemma_sep_search_none(s@, 0);
    }
    None
}

/// The scheme named before a separator at `sep`, if it is one this
/// embedding's loaders understand.
pub open spec fn is_file_scheme(s: Seq<u8>, sep: int) -> bool {
    sep == 4 && s[0] == BYTE_LF && s[1] == BYTE_LI && s[2] == BYTE_LL && s[3] == BYTE_LE
}

pub open spec fn is_http_scheme(s: Seq<u8>, sep: int) -> bool {
    sep == 4 && s[0] == BYTE_LH && s[1] == BYTE_LT && s[2] == BYTE_LT && s[3] == BYTE_LP
}

pub open spec fn is_https_scheme(s: Seq<u8>, sep: int) -> bool {
    sep == 5 && s[0] == BYTE_LH && s[1] == BYTE_LT && s[2] == BYTE_LT && s[3] == BYTE_LP && s[4] == BYTE_LS
}

/// Whether `base` can serve as the directory a relative entry path is
/// resolved against: a non-empty absolute filesystem path.
pub open spec fn base_is_usable(base: Seq<u8>) -> bool {
    &&& base.len() > 0
    &&& base[0] == BYTE_SLASH
    &&& !has_scheme_sep(base)
}

/// When an entry path canonicalizes. An empty path, an unknown scheme,
/// a scheme-qualified locator with nothing behind the separator, and a
/// relative path without a usable base directory are all malformed.
pub open spec fn spec_resolvable(path: Seq<u8>, base: Seq<u8>) -> bool {
    if path.len() == 0 {
        false
    } else if has_scheme_sep(path) {
        let rest = path.skip(first_sep(path) + 3);
        if is_file_scheme(path, first_sep(path)) {
            rest.len() > 0 && rest[0] == BYTE_SLASH
        } else if is_http_scheme(path, first_sep(path)) || is_https_scheme(path, first_sep(path)) {
            rest.len() > 0
        } else {
            false
        }
    } else if path[0] == BYTE_SLASH {
        true
    } else {
        base_is_usable(base)
    }
}

/// The scheme of the canonical locator of a resolvable path.
pub open spec fn spec_resolved_scheme(path: Seq<u8>) -> UrlScheme {
    if has_scheme_sep(path) {
        if is_http_scheme(path, first_sep(path)) {
            UrlScheme::Http
        } else if is_https_scheme(path, first_sep(path)) {
            UrlScheme::Https
        } else {
            UrlScheme::File
        }
    } else {
        UrlScheme::File
    }
}

/// The path bytes of the canonical locator of a resolvable path.
pub open spec fn spec_resolved_path(path: Seq<u8>, base: Seq<u8>) -> Seq<u8> {
    if has_scheme_sep(path) {
        path.skip(first_sep(path) + 3)
    } else if path.len() > 0 && path[0] == BYTE_SLASH {
        path
    } else {
        base + seq![BYTE_SLASH] + path
    }
}

fn resolution_error() -> (r: HostError)
    ensures
        r.kind == ErrorKind::Resolution,
{
    HostError {
        kind: ErrorKind::Resolution,
        message: String::from_str("entry path cannot be canonicalized"),
    }
}

/// Copies `s[from..to]` into a fresh vector.
fn copy_range(s: &[u8], from: usize, to: usize) -> (r: Vec<u8>)
    requires
        from <= to <= s@.len(),
    ensures
        r@ == s@.subrange(from as int, to as int),
{
    let mut r: Vec<u8> = Vec::new();
    let mut j: usize = from;
    while j < to
        invariant
            from <= j <= to <= s@.len(),
            r@ == s@.subrange(from as int, j as int),
        decreases to - j,
    {
        r.push(s[j]);
        assert(r@ =~= s@.subrange(from as int, j + 1 as int));
        j = j + 1;
    }
    r
}

/// Resolves the caller-supplied entry path into a canonical
/// scheme-qualified module reference, once per run, before bootstrap.
/// A relative filesystem path is resolved against `base_dir`. Exactly
/// the paths that `spec_resolvable` admits succeed; every failure is a
/// `Resolution` error and constructs nothing engine-side.
pub fn resolve_entry_path(path: &[u8], base_dir: &[u8]) -> (r: Result<ModuleReference, HostError>)
    ensures
        r is Ok <==> spec_resolvable(path@, base_dir@),
        r matches Ok(m) ==> {
            &&& m.scheme == spec_resolved_scheme(path@)
            &&& m.path@ == spec_resolved_path(path@, base_dir@)
            &&& m.is_canonical()
        },
        r matches Err(e) ==> e.kind == ErrorKind::Resolution,
{
    if path.len() == 0 {
        return Err(resolution_error());
    }
    match find_scheme_sep(path) {
        Some(sep) => {
            let file = sep == 4 && path[0] == BYTE_LF && path[1] == BYTE_LI && path[2] == BYTE_LL
                && path[3] == BYTE_LE;
            let http = sep == 4 && path[0] == BYTE_LH && path[1] == BYTE_LT && path[2] == BYTE_LT
                && path[3] == BYTE_LP;
            let https = sep == 5 && path[0] == BYTE_LH && path[1] == BYTE_LT && path[2] == BYTE_LT
                && path[3] == BYTE_LP && path[4] == BYTE_LS;
            if !(file || http || https) {
                return Err(resolution_error());
            }
            let rest = copy_range(path, sep + 3, path.len());
            assert(rest@ =~= path@.skip(sep + 3));
            if rest.len() == 0 {
                return Err(resolution_error());
            }
            if file {
                if rest[0] != BYTE_SLASH {
                    return Err(resolution_error());
                }
                Ok(ModuleReference { scheme: UrlScheme::File, path: rest })
            } else if http {
                Ok(ModuleReference { scheme: UrlScheme::Http, path: rest })
            } else {
                Ok(ModuleReference { scheme: UrlScheme::Https, path: rest })
            }
        },
        None => {
            if path[0] == BYTE_SLASH {
                let copied = copy_range(path, 0, path.len());
                assert(copied@ =~= path@);
                Ok(ModuleReference { scheme: UrlScheme::File, path: copied })
            } else {
                if base_dir.len() == 0 || base_dir[0] != BYTE_SLASH {
                    return Err(resolution_error());
                }
                match find_scheme_sep(base_dir) {
                    Some(_) => Err(resolution_error()),
                    None => {
                        let mut joined = copy_range(base_dir, 0, base_dir.len());
                        assert(joined@ =~= base_dir@);
                        joined.push(BYTE_SLASH);
                        let mut k: usize = 0;
                        while k < path.len()
                            invariant
                                k <= path@.len(),
                                joined@ == base_dir@ + seq![BYTE_SLASH] + path@.subrange(0, k as int),
                            decreases path@.len() - k,
                        {
                            joined.push(path[k]);
                            assert(joined@ =~= base_dir@ + seq![BYTE_SLASH] + path@.subrange(
                                0,
                                k + 1 as int,
                            ));
                            k = k + 1;
                        }
                        assert(joined@ =~= base_dir@ + seq![BYTE_SLASH] + path@);
                        Ok(ModuleReference { scheme: UrlScheme::File, path: joined })
                    },
                }
            }
        },
    }
}

} // verus!
