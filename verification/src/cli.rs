use vstd::prelude::*;

use crate::text::str_eq;

verus! {

/// The version the program reports: the git hash of an unversioned build,
/// else the package version.
pub open spec fn version_text(pkg_version: Seq<char>, git_hash: Seq<char>) -> Seq<char> {
    if pkg_version == "0.0.0"@ && git_hash.len() > 0 {
        git_hash
    } else {
        pkg_version
    }
}

/// Picks the version to report from the package version and the git hash
/// the program was built from.
pub fn version<'a>(pkg_version: &'a str, git_hash: &'a str) -> (r: &'a str)
    ensures
        r@ == version_text(pkg_version@, git_hash@),
{
    if str_eq(pkg_version, "0.0.0") && git_hash.unicode_len() > 0 {
        git_hash
    } else {
        pkg_version
    }
}

/// The byte of '/' in a path.
pub const SLASH: u8 = 47;

/// The byte of '~' in a path.
pub const TILDE: u8 = 126;

/// `base` joined with the relative or absolute path `rest` (both as the
/// bytes of Unix paths), as `std::path::PathBuf::join` joins them on Unix: an
/// absolute `rest` replaces `base`; otherwise a '/' goes between them unless
/// `base` is empty or already ends with one.
pub open spec fn path_join(base: Seq<u8>, rest: Seq<u8>) -> Seq<u8> {
    if rest.len() > 0 && rest[0] == SLASH {
        rest
    } else if base.len() == 0 || base.last() == SLASH {
        base + rest
    } else {
        base + seq![SLASH] + rest
    }
}

/// `path` with a leading "~/" replaced by the home directory, when the home
/// directory is known.
pub open spec fn expanded_path(path: Seq<u8>, home: Option<Seq<u8>>) -> Seq<u8> {
    if path.len() >= 2 && path[0] == TILDE && path[1] == SLASH && home is Some {
        path_join(home->0, path.skip(2))
    } else {
        path
    }
}

/// Appends `bytes[from..]` to `out`.
fn push_from(out: &mut Vec<u8>, bytes: &[u8], from: usize)
    requires
        from <= bytes@.len(),
    ensures
        final(out)@ == old(out)@ + bytes@.skip(from as int),
{
    let mut i = from;
    while i < bytes.len()
        invariant
            from <= i <= bytes@.len(),
            out@ == old(out)@ + bytes@.subrange(from as int, i as int),
        decreases bytes.len() - i,
    {
        out.push(bytes[i]);
        assert(bytes@.subrange(from as int, i + 1) =~= bytes@.subrange(from as int, i as int).push(
            bytes@[i as int],
        ));
        i = i + 1;
    }
    assert(bytes@.subrange(from as int, bytes@.len() as int) =~= bytes@.skip(from as int));
}

/// Expands a leading "~/" in `path` to the home directory `home`; paths and
/// the home directory are the bytes of Unix paths.
pub fn expand_tilde(path: &[u8], home: Option<&[u8]>) -> (r: Vec<u8>)
    ensures
        r@ == expanded_path(path@, match home {
            Some(h) => Some(h@),
            None => None,
        }),
{
    let mut out: Vec<u8> = Vec::new();
    let n = path.len();
    if n >= 2 && path[0] == TILDE && path[1] == SLASH {
        if let Some(h) = home {
            if n > 2 && path[2] == SLASH {
                push_from(&mut out, path, 2);
                return out;
            }
            push_from(&mut out, h, 0);
            assert(h@.skip(0) =~= h@);
            let m = h.len();
            if m > 0 && h[m - 1] != SLASH {
                out.push(SLASH);
            }
            push_from(&mut out, path, 2);
            return out;
        }
    }
    push_from(&mut out, path, 0);
    assert(path@.skip(0) =~= path@);
    out
}

/// The git hash is reported only for an unversioned build: any package
/// version other than exactly "0.0.0", and any build without a hash, reports
/// the package version itself; "0.0.0" with a hash reports the hash.
pub proof fn lemma_version_choice(pkg_version: Seq<char>, git_hash: Seq<char>)
    ensures
        pkg_version != "0.0.0"@ ==> version_text(pkg_version, git_hash) == pkg_version,
        git_hash.len() == 0 ==> version_text(pkg_version, git_hash) == pkg_version,
        pkg_version == "0.0.0"@ && git_hash.len() > 0 ==> version_text(pkg_version, git_hash)
            == git_hash,
{
}

} // verus!
