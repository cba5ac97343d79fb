//! Which request path asks for what: the root path for the identity of the
//! service, `/pixel/{nonce}/a.png` for the tracking pixel, nothing else.

use vstd::prelude::*;

verus! {

/// The separator of path segments.
pub const SLASH: u8 = '/' as u8;

/// The bytes of `/pixel/`, which every pixel path starts with.
pub const PIXEL_PREFIX: [u8; 7] = [
    '/' as u8,
    'p' as u8,
    'i' as u8,
    'x' as u8,
    'e' as u8,
    'l' as u8,
    '/' as u8,
];

/// The bytes of `/a.png`, which every pixel path ends with.
pub const PIXEL_SUFFIX: [u8; 6] = [
    '/' as u8,
    'a' as u8,
    '.' as u8,
    'p' as u8,
    'n' as u8,
    'g' as u8,
];

/// What a request path asks for.
#[derive(Debug, PartialEq, Eq)]
pub enum Route {
    /// The root path: the identity of the service.
    Identity,
    /// The tracking pixel. The nonce is the segment between `/pixel/` and
    /// `/a.png`; it defeats caches and means nothing.
    Pixel { nonce: Vec<u8> },
    /// Any other path.
    NotFound,
}

/// The root path, `/`.
pub open spec fn root_path() -> Seq<u8> {
    seq![SLASH]
}

/// A nonce is one path segment: it is not empty and holds no slash.
pub open spec fn is_nonce(segment: Seq<u8>) -> bool {
    segment.len() > 0 && forall|i: int| 0 <= i < segment.len() ==> segment[i] != SLASH
}

/// The pixel path with the given nonce: `/pixel/`, the nonce, `/a.png`.
pub open spec fn pixel_path(nonce: Seq<u8>) -> Seq<u8> {
    PIXEL_PREFIX@ + nonce + PIXEL_SUFFIX@
}

/// Whether `path` is the pixel path of some nonce.
pub open spec fn is_pixel_path(path: Seq<u8>) -> bool {
    exists|nonce: Seq<u8>| is_nonce(nonce) && path == pixel_path(nonce)
}

/// A pixel path falls apart into prefix, nonce and suffix in one way only.
pub proof fn lemma_pixel_path_parts(nonce: Seq<u8>)
    ensures
        pixel_path(nonce).len() == PIXEL_PREFIX@.len() + nonce.len() + PIXEL_SUFFIX@.len(),
        pixel_path(nonce).subrange(0, 7) == PIXEL_PREFIX@,
        pixel_path(nonce).subrange(7, 7 + nonce.len() as int) == nonce,
        pixel_path(nonce).subrange(7 + nonce.len() as int, 13 + nonce.len() as int)
            == PIXEL_SUFFIX@,
{
    let path = pixel_path(nonce);
    assert(path.subrange(0, 7) =~= PIXEL_PREFIX@);
    assert(path.subrange(7, 7 + nonce.len() as int) =~= nonce);
    assert(path.subrange(7 + nonce.len() as int, 13 + nonce.len() as int) =~= PIXEL_SUFFIX@);
}

/// Every pixel path has at least fourteen bytes, starts with `/pixel/`, ends
/// with `/a.png`, and holds no slash between the two.
pub proof fn lemma_pixel_path_frame(path: Seq<u8>)
    requires
        is_pixel_path(path),
    ensures
        path.len() >= PIXEL_PREFIX@.len() + 1 + PIXEL_SUFFIX@.len(),
        path.subrange(0, 7) == PIXEL_PREFIX@,
        path.subrange(path.len() - 6, path.len() as int) == PIXEL_SUFFIX@,
        forall|i: int| 7 <= i < path.len() - 6 ==> path[i] != SLASH,
{
    let nonce = choose|nonce: Seq<u8>| is_nonce(nonce) && path == pixel_path(nonce);
    lemma_pixel_path_parts(nonce);
    assert forall|i: int| 7 <= i < path.len() - 6 implies path[i] != SLASH by {
        assert(path[i] == nonce[i - 7]);
    }
}

/// No path asks for both the identity and the pixel.
pub proof fn lemma_root_is_no_pixel_path()
    ensures
        !is_pixel_path(root_path()),
{
    if is_pixel_path(root_path()) {
        lemma_pixel_path_frame(root_path());
    }
}

/// Whether `bytes` holds `part` at offset `at`.
fn holds_at(bytes: &[u8], at: usize, part: &[u8]) -> (found: bool)
    ensures
        found <==> at + part@.len() <= bytes@.len() && bytes@.subrange(
            at as int,
            at + part@.len(),
        ) == part@,
{
    let total: usize = bytes.len();
    let count: usize = part.len();
    if at > total || count > total - at {
        return false;
    }
    let mut i: usize = 0;
    while i < count
        invariant
            i <= count == part@.len(),
            at + count <= total == bytes@.len(),
            forall|j: int| 0 <= j < i ==> bytes@[at + j] == part@[j],
        decreases count - i,
    {
        if bytes[at + i] != part[i] {
            assert(bytes@.subrange(at as int, at + count)[i as int] == bytes@[at + i]);
            return false;
        }
        i += 1;
    }
    assert(bytes@.subrange(at as int, at + count) =~= part@);
    true
}

/// Tells what `path` asks for.
///
/// The root path asks for the identity. A path made of `/pixel/`, one
/// segment that is not empty, and `/a.png` asks for the pixel, and that
/// segment is handed back as the nonce. Every other path is not found.
pub fn route(path: &[u8]) -> (r: Route)
    ensures
        r is Identity <==> path@ == root_path(),
        r is Pixel <==> is_pixel_path(path@),
        r is NotFound <==> path@ != root_path() && !is_pixel_path(path@),
        r matches Route::Pixel { nonce } ==> is_nonce(nonce@) && path@ == pixel_path(nonce@),
{
    let len: usize = path.len();
    if len == 1 && path[0] == SLASH {
        proof {
            assert(path@ =~= root_path());
            lemma_root_is_no_pixel_path();
        }
        return Route::Identity;
    }
    assert(path@ != root_path()) by {
        if path@ == root_path() {
            assert(path@.len() == 1 && path@[0] == SLASH);
        }
    }
    proof {
        if is_pixel_path(path@) {
            lemma_pixel_path_frame(path@);
        }
    }
    if len < PIXEL_PREFIX.len() + 1 + PIXEL_SUFFIX.len() {
        return Route::NotFound;
    }
    let end: usize = len - PIXEL_SUFFIX.len();
    if !holds_at(path, 0, &PIXEL_PREFIX) || !holds_at(path, end, &PIXEL_SUFFIX) {
        return Route::NotFound;
    }
    let mut nonce: Vec<u8> = Vec::new();
    let mut i: usize = PIXEL_PREFIX.len();
    while i < end
        invariant
            7 <= i <= end,
            end == path@.len() - 6,
            nonce@ == path@.subrange(7, i as int),
            forall|j: int| 0 <= j < nonce@.len() ==> nonce@[j] != SLASH,
            path@ != root_path(),
            is_pixel_path(path@) ==> forall|j: int| 7 <= j < end ==> path@[j] != SLASH,
        decreases end - i,
    {
        if path[i] == SLASH {
            return Route::NotFound;
        }
        nonce.push(path[i]);
        assert(nonce@ =~= path@.subrange(7, i + 1));
        i += 1;
    }
    proof {
        assert(path@ =~= pixel_path(nonce@));
        assert(is_nonce(nonce@));
    }
    Route::Pixel { nonce }
}

} // verus!
