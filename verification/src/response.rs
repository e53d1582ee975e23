//! Response framing for the asset streaming service.
//!
//! Every answer the service sends is assembled here as plain bytes: the
//! header that announces a streamed asset, the acknowledgement of an
//! upload, and the structured error payloads.  The layer around the library
//! only writes these bytes to its peer.

use vstd::prelude::*;
use vstd::string::StringSliceAdditionalSpecFns;

verus! {

/// Index of the last occurrence of `b` in `s`, if any.
pub open spec fn rfind(s: Seq<u8>, b: u8) -> Option<int>
    decreases s.len(),
{
    if s.len() == 0 {
        None
    } else if s[s.len() - 1] == b {
        Some(s.len() - 1)
    } else {
        rfind(s.drop_last(), b)
    }
}

/// Start of the last path component of `name`: just after the last slash,
/// or the start of the name when it has none.
pub open spec fn component_start(name: Seq<u8>) -> int {
    match rfind(name, 47) {
        Some(i) => i + 1,
        None => 0,
    }
}

/// Start of the extension of `name`, if it has one: just after the last
/// dot, provided that dot lies inside the last path component and is not
/// its leading byte (a name that starts with its only dot has no
/// extension).
pub open spec fn extension_start(name: Seq<u8>) -> Option<int> {
    match rfind(name, 46) {
        Some(p) => if p > component_start(name) {
            Some(p + 1)
        } else {
            None
        },
        None => None,
    }
}

/// The extension of `name`, empty when it has none.
pub open spec fn extension_of(name: Seq<u8>) -> Seq<u8> {
    match extension_start(name) {
        Some(i) => name.subrange(i, name.len() as int),
        None => Seq::empty(),
    }
}

/// ASCII lowercase of one byte.
pub open spec fn lower_byte(b: u8) -> u8 {
    if 65 <= b <= 90 {
        (b + 32) as u8
    } else {
        b
    }
}

/// ASCII lowercase of a byte sequence.
pub open spec fn lower(s: Seq<u8>) -> Seq<u8> {
    s.map_values(|b: u8| lower_byte(b))
}

/// The content type reported for a file name, decided by its extension
/// alone, compared case-insensitively.  Unknown and missing extensions are
/// served as an opaque byte stream.
pub open spec fn content_type_for(name: Seq<u8>) -> Seq<char> {
    let e = lower(extension_of(name));
    if e == "jpg".spec_bytes() || e == "jpeg".spec_bytes() {
        "image/jpeg"@
    } else if e == "png".spec_bytes() {
        "image/png"@
    } else if e == "mtl".spec_bytes() || e == "txt".spec_bytes() {
        "text/plain"@
    } else if e == "json".spec_bytes() {
        "application/json"@
    } else {
        "application/octet-stream"@
    }
}

/// Finds the index of the last occurrence of `b` in `s`.
fn rfind_byte(s: &[u8], b: u8) -> (r: Option<usize>)
    ensures
        match r {
            Some(i) => i < s@.len() && rfind(s@, b) == Some(i as int),
            None => rfind(s@, b) is None,
        },
{
    let n = s.len();
    proof {
        assert(s@.subrange(0, n as int) =~= s@);
    }
    let mut i: usize = n;
    while i > 0
        invariant
            n == s@.len(),
            i <= n,
            rfind(s@, b) == rfind(s@.subrange(0, i as int), b),
        decreases i,
    {
        if s[i - 1] == b {
            proof {
                assert(s@.subrange(0, i as int)[i - 1] == s@[i - 1]);
            }
            return Some(i - 1);
        }
        proof {
            assert(s@.subrange(0, i as int).drop_last() =~= s@.subrange(0, i - 1));
            assert(s@.subrange(0, i as int)[i - 1] == s@[i - 1]);
        }
        i = i - 1;
    }
    proof {
        assert(s@.subrange(0, 0) =~= Seq::<u8>::empty());
    }
    None
}

/// Compares a byte vector against a byte slice.
fn vec_eq_bytes(a: &Vec<u8>, b: &[u8]) -> (r: bool)
    ensures
        r == (a@ == b@),
{
    let n = a.len();
    if n != b.len() {
        return false;
    }
    let mut i: usize = 0;
    while i < n
        invariant
            n == a@.len(),
            n == b@.len(),
            i <= n,
            forall|j: int| 0 <= j < i ==> a@[j] == b@[j],
        decreases n - i,
    {
        if a[i] != b[i] {
            return false;
        }
        i = i + 1;
    }
    proof {
        assert(a@ =~= b@);
    }
    true
}

/// Reports the content type for a file name, from its extension alone.
pub fn get_content_type(file_name: &str) -> (r: &'static str)
    ensures
        r@ == content_type_for(file_name.spec_bytes()),
{
    let bytes: &[u8] = file_name.as_bytes();
    let n = bytes.len();
    let comp_start: usize = match rfind_byte(bytes, 47) {
        Some(i) => i + 1,
        None => 0,
    };
    let ext_start: Option<usize> = match rfind_byte(bytes, 46) {
        Some(p) => if p > comp_start {
            Some(p + 1)
        } else {
            None
        },
        None => None,
    };
    let mut ext: Vec<u8> = Vec::new();
    match ext_start {
        Some(st) => {
            proof {
                assert(lower(bytes@.subrange(st as int, st as int)) =~= Seq::<u8>::empty());
            }
            let mut i: usize = st;
            while i < n
                invariant
                    n == bytes@.len(),
                    st <= i <= n,
                    ext@ == lower(bytes@.subrange(st as int, i as int)),
                decreases n - i,
            {
                let b = bytes[i];
                let lb = if 65 <= b && b <= 90 {
                    b + 32
                } else {
                    b
                };
                ext.push(lb);
                proof {
                    assert(bytes@.subrange(st as int, i + 1) =~= bytes@.subrange(
                        st as int,
                        i as int,
                    ).push(bytes@[i as int]));
                    assert(lower(bytes@.subrange(st as int, i + 1)) =~= lower(
                        bytes@.subrange(st as int, i as int),
                    ).push(lower_byte(bytes@[i as int])));
                }
                i = i + 1;
            }
            proof {
                assert(ext@ == lower(extension_of(file_name.spec_bytes())));
            }
        },
        None => {
            proof {
                assert(lower(Seq::<u8>::empty()) =~= Seq::<u8>::empty());
                assert(ext@ == lower(extension_of(file_name.spec_bytes())));
            }
        },
    }
    if vec_eq_bytes(&ext, "jpg".as_bytes()) || vec_eq_bytes(&ext, "jpeg".as_bytes()) {
        "image/jpeg"
    } else if vec_eq_bytes(&ext, "png".as_bytes()) {
        "image/png"
    } else if vec_eq_bytes(&ext, "mtl".as_bytes()) || vec_eq_bytes(&ext, "txt".as_bytes()) {
        "text/plain"
    } else if vec_eq_bytes(&ext, "json".as_bytes()) {
        "application/json"
    } else {
        "application/octet-stream"
    }
}

/// Appends the bytes of `s` to `out`.
fn push_bytes(out: &mut Vec<u8>, s: &[u8])
    ensures
        final(out)@ == old(out)@ + s@,
{
    let n = s.len();
    proof {
        assert(out@ =~= out@ + s@.subrange(0, 0));
    }
    let mut i: usize = 0;
    while i < n
        invariant
            n == s@.len(),
            i <= n,
            out@ == old(out)@ + s@.subrange(0, i as int),
        decreases n - i,
    {
        out.push(s[i]);
        proof {
            assert(s@.subrange(0, i + 1) =~= s@.subrange(0, i as int).push(s@[i as int]));
            assert(old(out)@ + s@.subrange(0, i + 1) =~= (old(out)@ + s@.subrange(
                0,
                i as int,
            )).push(s@[i as int]));
        }
        i = i + 1;
    }
    proof {
        assert(s@.subrange(0, n as int) =~= s@);
    }
}

/// Appends the UTF-8 bytes of `s` to `out`.
fn push_str_bytes(out: &mut Vec<u8>, s: &str)
    ensures
        final(out)@ == old(out)@ + s.spec_bytes(),
{
    push_bytes(out, s.as_bytes());
}

/// Decimal digit bytes of `n`, most significant first and without leading
/// zeros (a single zero for 0).
pub open spec fn decimal_rep(n: nat) -> Seq<u8>
    decreases n,
{
    if n < 10 {
        seq![(48 + n) as u8]
    } else {
        decimal_rep(n / 10).push((48 + n % 10) as u8)
    }
}

/// Appends the decimal digits of `n` to `out`.
fn push_decimal(out: &mut Vec<u8>, n: u64)
    ensures
        final(out)@ == old(out)@ + decimal_rep(n as nat),
    decreases n,
{
    if n >= 10 {
        push_decimal(out, n / 10);
    }
    let digit: u8 = 48 + (n % 10) as u8;
    out.push(digit);
    proof {
        assert(out@ =~= old(out)@ + decimal_rep(n as nat));
    }
}

/// Hexadecimal digit byte for `n` < 16, lowercase.
pub open spec fn hex_digit(n: u8) -> u8
    recommends
        n < 16,
{
    if n < 10 {
        (48 + n) as u8
    } else {
        (87 + n) as u8
    }
}

/// Bytes that the JSON string escape writes for byte `b`: quote and
/// backslash are escaped with a backslash, the five control characters
/// with a short form escape theirs, every other control character becomes a
/// six-byte `\u00` sequence, and everything else stands as itself.
pub open spec fn escape_byte(b: u8) -> Seq<u8> {
    if b == 34 {
        seq![92u8, 34u8]
    } else if b == 92 {
        seq![92u8, 92u8]
    } else if b == 8 {
        seq![92u8, 98u8]
    } else if b == 9 {
        seq![92u8, 116u8]
    } else if b == 10 {
        seq![92u8, 110u8]
    } else if b == 12 {
        seq![92u8, 102u8]
    } else if b == 13 {
        seq![92u8, 114u8]
    } else if b < 32 {
        seq![92u8, 117u8, 48u8, 48u8, hex_digit(b / 16), hex_digit(b % 16)]
    } else {
        seq![b]
    }
}

/// JSON string-escape of a byte sequence.
pub open spec fn escape_bytes(s: Seq<u8>) -> Seq<u8>
    decreases s.len(),
{
    if s.len() == 0 {
        Seq::empty()
    } else {
        escape_bytes(s.drop_last()) + escape_byte(s.last())
    }
}

/// Appends the JSON string-escape of `s` to `out`.
fn push_json_escaped(out: &mut Vec<u8>, s: &[u8])
    ensures
        final(out)@ == old(out)@ + escape_bytes(s@),
{
    let n = s.len();
    proof {
        assert(escape_bytes(s@.subrange(0, 0)) =~= Seq::<u8>::empty());
        assert(out@ =~= out@ + escape_bytes(s@.subrange(0, 0)));
    }
    let mut i: usize = 0;
    while i < n
        invariant
            n == s@.len(),
            i <= n,
            out@ == old(out)@ + escape_bytes(s@.subrange(0, i as int)),
        decreases n - i,
    {
        let b = s[i];
        if b == 34 {
            out.push(92);
            out.push(34);
        } else if b == 92 {
            out.push(92);
            out.push(92);
        } else if b == 8 {
            out.push(92);
            out.push(98);
        } else if b == 9 {
            out.push(92);
            out.push(116);
        } else if b == 10 {
            out.push(92);
            out.push(110);
        } else if b == 12 {
            out.push(92);
            out.push(102);
        } else if b == 13 {
            out.push(92);
            out.push(114);
        } else if b < 32 {
            out.push(92);
            out.push(117);
            out.push(48);
            out.push(48);
            let hi = b / 16;
            let lo = b % 16;
            out.push(if hi < 10 {
                48 + hi
            } else {
                87 + hi
            });
            out.push(if lo < 10 {
                48 + lo
            } else {
                87 + lo
            });
        } else {
            out.push(b);
        }
        proof {
            assert(s@.subrange(0, i + 1).drop_last() =~= s@.subrange(0, i as int));
            assert(s@.subrange(0, i + 1).last() == s@[i as int]);
            assert(out@ =~= old(out)@ + escape_bytes(s@.subrange(0, i + 1)));
        }
        i = i + 1;
    }
    proof {
        assert(s@.subrange(0, n as int) =~= s@);
    }
}

/// The error payload `{"error":M}` with message `M` JSON string-escaped.
pub open spec fn json_error_spec(msg: Seq<u8>) -> Seq<u8> {
    "{\"error\":\"".spec_bytes() + escape_bytes(msg) + "\"}".spec_bytes()
}

/// Builds the structured error payload carrying `message`.
pub fn json_error_body(message: &[u8]) -> (r: Vec<u8>)
    ensures
        r@ == json_error_spec(message@),
{
    let mut out: Vec<u8> = Vec::new();
    push_str_bytes(&mut out, "{\"error\":\"");
    push_json_escaped(&mut out, message);
    push_str_bytes(&mut out, "\"}");
    proof {
        assert(out@ =~= json_error_spec(message@));
    }
    out
}

/// The header announcing a streamed asset of `size` bytes under content
/// type `ct`.
pub open spec fn ok_header_spec(ct: Seq<u8>, size: nat) -> Seq<u8> {
    "HTTP/1.1 200 OK\r\nContent-Type: ".spec_bytes() + ct + "\r\nContent-Length: ".spec_bytes()
        + decimal_rep(size) + "\r\nAccept-Ranges: bytes\r\n\r\n".spec_bytes()
}

/// Builds the response header that precedes a streamed asset.
pub fn build_ok_header(content_type: &str, file_size: u64) -> (r: Vec<u8>)
    ensures
        r@ == ok_header_spec(content_type.spec_bytes(), file_size as nat),
{
    let mut out: Vec<u8> = Vec::new();
    push_str_bytes(&mut out, "HTTP/1.1 200 OK\r\nContent-Type: ");
    push_str_bytes(&mut out, content_type);
    push_str_bytes(&mut out, "\r\nContent-Length: ");
    push_decimal(&mut out, file_size);
    push_str_bytes(&mut out, "\r\nAccept-Ranges: bytes\r\n\r\n");
    proof {
        assert(out@ =~= ok_header_spec(content_type.spec_bytes(), file_size as nat));
    }
    out
}

/// The full answer to a request for an asset that does not exist: a
/// not-found status whose payload names the missing asset.
pub open spec fn not_found_response_spec(name: Seq<u8>) -> Seq<u8> {
    let body = json_error_spec("File not found: ".spec_bytes() + name);
    "HTTP/1.1 404 Not Found\r\nContent-Length: ".spec_bytes() + decimal_rep(body.len())
        + "\r\n\r\n".spec_bytes() + body
}

/// Builds the full not-found answer for a missing asset.
pub fn build_not_found_response(file_name: &[u8]) -> (r: Vec<u8>)
    ensures
        r@ == not_found_response_spec(file_name@),
{
    let mut msg: Vec<u8> = Vec::new();
    push_str_bytes(&mut msg, "File not found: ");
    push_bytes(&mut msg, file_name);
    let body = json_error_body(msg.as_slice());
    let mut out: Vec<u8> = Vec::new();
    push_str_bytes(&mut out, "HTTP/1.1 404 Not Found\r\nContent-Length: ");
    push_decimal(&mut out, body.len() as u64);
    push_str_bytes(&mut out, "\r\n\r\n");
    push_bytes(&mut out, body.as_slice());
    proof {
        assert(out@ =~= not_found_response_spec(file_name@));
    }
    out
}

/// The full answer to a request the service does not serve: a bad-request
/// status with a fixed payload.
pub open spec fn bad_request_response_spec() -> Seq<u8> {
    let body = json_error_spec("Invalid request".spec_bytes());
    "HTTP/1.1 400 Bad Request\r\nContent-Length: ".spec_bytes() + decimal_rep(body.len())
        + "\r\n\r\n".spec_bytes() + body
}

/// Builds the full bad-request answer.
pub fn build_bad_request_response() -> (r: Vec<u8>)
    ensures
        r@ == bad_request_response_spec(),
{
    let mut msg: Vec<u8> = Vec::new();
    push_str_bytes(&mut msg, "Invalid request");
    let body = json_error_body(msg.as_slice());
    let mut out: Vec<u8> = Vec::new();
    push_str_bytes(&mut out, "HTTP/1.1 400 Bad Request\r\nContent-Length: ");
    push_decimal(&mut out, body.len() as u64);
    push_str_bytes(&mut out, "\r\n\r\n");
    push_bytes(&mut out, body.as_slice());
    proof {
        assert(out@ =~= bad_request_response_spec());
    }
    out
}

/// The acknowledgement sent for an upload request.
pub open spec fn upload_ack_spec() -> Seq<u8> {
    "HTTP/1.1 200 OK\r\nContent-Length: 0\r\n\r\n".spec_bytes()
}

/// Builds the acknowledgement of an upload request.
pub fn build_upload_ack() -> (r: Vec<u8>)
    ensures
        r@ == upload_ack_spec(),
{
    let mut out: Vec<u8> = Vec::new();
    push_str_bytes(&mut out, "HTTP/1.1 200 OK\r\nContent-Length: 0\r\n\r\n");
    proof {
        assert(out@ =~= upload_ack_spec());
    }
    out
}

} // verus!
