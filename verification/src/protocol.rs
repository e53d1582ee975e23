//! Request parsing for the asset streaming service.
//!
//! The service reads one small packet from its peer and decides from its
//! text what was asked: a download of an asset, an upload, or something it
//! does not serve.  The packet arrives as raw bytes; everything here works
//! on those bytes and leaves the socket to the layer around the library.

use vstd::prelude::*;
use vstd::slice::slice_subrange;
use vstd::slice::slice_to_vec;
use vstd::string::StringSliceAdditionalSpecFns;

verus! {

/// True when `p` is a prefix of `s`.
pub open spec fn is_prefix(p: Seq<u8>, s: Seq<u8>) -> bool {
    p.len() <= s.len() && s.subrange(0, p.len() as int) == p
}

/// True when `pat` occurs in `s` at position `i`.
pub open spec fn matches_at(s: Seq<u8>, pat: Seq<u8>, i: int) -> bool {
    0 <= i && i + pat.len() <= s.len() && s.subrange(i, i + pat.len() as int) == pat
}

/// Bytes of the download-request prefix.
pub open spec fn stream_prefix() -> Seq<u8> {
    "GET /Assets/".spec_bytes()
}

/// Bytes of the upload-request prefix.
pub open spec fn upload_prefix() -> Seq<u8> {
    "POST /Assets/".spec_bytes()
}

/// Bytes of the protocol marker that closes a requested name.
pub open spec fn protocol_marker() -> Seq<u8> {
    " HTTP".spec_bytes()
}

/// Compares the bytes of `pat` against `s` at position `i`.
fn matches_here(s: &[u8], pat: &[u8], i: usize) -> (r: bool)
    requires
        i + pat@.len() <= s@.len(),
    ensures
        r == matches_at(s@, pat@, i as int),
{
    let n = s.len();
    let m = pat.len();
    let mut k: usize = 0;
    while k < m
        invariant
            n == s@.len(),
            m == pat@.len(),
            i + m <= n,
            k <= m,
            forall|t: int| 0 <= t < k ==> s@[i + t] == pat@[t],
        decreases m - k,
    {
        if s[i + k] != pat[k] {
            proof {
                assert(s@.subrange(i as int, i + pat@.len())[k as int] == s@[i + k]);
            }
            return false;
        }
        k = k + 1;
    }
    proof {
        assert(s@.subrange(i as int, i + pat@.len()) =~= pat@);
    }
    true
}

/// Reports whether `s` begins with `pat`.
fn begins_with(s: &[u8], pat: &[u8]) -> (r: bool)
    ensures
        r == is_prefix(pat@, s@),
{
    if pat.len() > s.len() {
        return false;
    }
    matches_here(s, pat, 0)
}

/// Finds the position of the first occurrence of `pat` in `s` at or after
/// `start`.
fn find_from(s: &[u8], start: usize, pat: &[u8]) -> (r: Option<usize>)
    requires
        pat@.len() >= 1,
    ensures
        match r {
            Some(i) => start <= i && matches_at(s@, pat@, i as int) && forall|j: int|
                start <= j < i ==> !matches_at(s@, pat@, j),
            None => forall|j: int| start <= j ==> !matches_at(s@, pat@, j),
        },
{
    let n = s.len();
    let m = pat.len();
    if m > n {
        return None;
    }
    if start > n - m {
        return None;
    }
    let mut i: usize = start;
    while i <= n - m
        invariant
            n == s@.len(),
            m == pat@.len(),
            1 <= m <= n,
            start <= i,
            i <= n - m + 1,
            forall|j: int| start <= j < i ==> !matches_at(s@, pat@, j),
        decreases n - i,
    {
        if matches_here(s, pat, i) {
            return Some(i);
        }
        i = i + 1;
    }
    None
}

/// A parsed request of the asset service.
#[derive(Debug, PartialEq, Eq)]
pub enum Request {
    /// A download request: stream the named asset back.
    StreamAsset {
        /// Raw bytes of the requested name, as extracted from the request
        /// line.  It begins at the final separator of the request prefix
        /// and so carries a leading slash.
        file_name: Vec<u8>,
    },
    /// An upload request.
    UploadAsset,
    /// Anything else; answered with a structured error.
    Invalid,
}

/// Relation between a download request and the name extracted from it: the
/// name runs from just before the end of the request prefix to the first
/// protocol marker at or after that point, or to the end of the request
/// when no marker follows.
pub open spec fn is_stream_name(req: Seq<u8>, name: Seq<u8>) -> bool {
    let start = stream_prefix().len() - 1;
    exists|e: int|
        {
            &&& start <= e <= req.len()
            &&& name == req.subrange(start, e)
            &&& e == req.len() || matches_at(req, protocol_marker(), e)
            &&& forall|j: int| start <= j < e ==> !matches_at(req, protocol_marker(), j)
        }
}

/// Decides what a request packet asks for.
///
/// A packet beginning with the download prefix names an asset to stream;
/// one beginning with the upload prefix announces an upload; anything else
/// is invalid.
pub fn parse_request(req: &[u8]) -> (r: Request)
    ensures
        r is StreamAsset <==> is_prefix(stream_prefix(), req@),
        r is UploadAsset <==> (!is_prefix(stream_prefix(), req@) && is_prefix(
            upload_prefix(),
            req@,
        )),
        r is Invalid <==> (!is_prefix(stream_prefix(), req@) && !is_prefix(
            upload_prefix(),
            req@,
        )),
        r matches Request::StreamAsset { file_name } ==> is_stream_name(req@, file_name@),
{
    let stream_pat: &[u8] = "GET /Assets/".as_bytes();
    if begins_with(req, stream_pat) {
        proof {
            reveal_strlit("GET /Assets/");
            assert(vstd::string::is_ascii("GET /Assets/"));
            vstd::string::is_ascii_spec_bytes("GET /Assets/");
            reveal_strlit(" HTTP");
            assert(vstd::string::is_ascii(" HTTP"));
            vstd::string::is_ascii_spec_bytes(" HTTP");
        }
        let start = stream_pat.len() - 1;
        let marker: &[u8] = " HTTP".as_bytes();
        let end = match find_from(req, start, marker) {
            Some(i) => i,
            None => req.len(),
        };
        let name = slice_to_vec(slice_subrange(req, start, end));
        proof {
            let e = end as int;
            let s = stream_prefix().len() - 1;
            assert(stream_pat@ == stream_prefix());
            assert(marker@ == protocol_marker());
            assert(s == start as int);
            assert(s <= e <= req@.len());
            assert(name@ == req@.subrange(s, e));
            assert(e == req@.len() || matches_at(req@, protocol_marker(), e));
            assert(forall|j: int| s <= j < e ==> !matches_at(req@, protocol_marker(), j));
            assert(is_stream_name(req@, name@));
        }
        Request::StreamAsset { file_name: name }
    } else if begins_with(req, "POST /Assets/".as_bytes()) {
        Request::UploadAsset
    } else {
        Request::Invalid
    }
}

} // verus!
