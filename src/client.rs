//! The embedding client's side of the wire: the HTTP request that carries a
//! JSON body to the service, and the reading of its answer.

use crate::ingest::FetchError;
use crate::text::{nat_text, push_nat};
use vstd::prelude::*;
use vstd::string::StringSliceAdditionalSpecFns;

verus! {

/// The text of a `POST` of a JSON `body` to `path` on `host:port`, which asks
/// the server to close the connection after its answer.
pub open spec fn request_text(host: Seq<char>, port: u16, path: Seq<char>, body_len: nat, body: Seq<char>) -> Seq<char> {
    "POST "@ + path + " HTTP/1.0\r\nHost: "@ + host + ":"@ + nat_text(port as nat)
        + "\r\nContent-Type: application/json\r\nContent-Length: "@ + nat_text(body_len)
        + "\r\nConnection: close\r\n\r\n"@ + body
}

/// Builds the request that sends `body` to the service.
pub fn post_request(host: &str, port: u16, path: &str, body: &str) -> (r: String)
    ensures
        r@ == request_text(host@, port, path@, body.len() as nat, body@),
{
    proof {
        reveal_strlit("POST ");
        reveal_strlit(" HTTP/1.0\r\nHost: ");
        reveal_strlit(":");
        reveal_strlit("\r\nContent-Type: application/json\r\nContent-Length: ");
        reveal_strlit("\r\nConnection: close\r\n\r\n");
    }
    let mut r = String::from_str("POST ");
    r.append(path);
    r.append(" HTTP/1.0\r\nHost: ");
    r.append(host);
    r.append(":");
    push_nat(&mut r, port as u64);
    r.append("\r\nContent-Type: application/json\r\nContent-Length: ");
    push_nat(&mut r, body.len() as u64);
    r.append("\r\nConnection: close\r\n\r\n");
    r.append(body);
    r
}

/// The blank line that ends the headers starts at `i`.
pub open spec fn blank_line_at(raw: Seq<u8>, i: int) -> bool {
    0 <= i && i + 4 <= raw.len() && raw[i] == 13u8 && raw[i + 1] == 10u8 && raw[i + 2] == 13u8
        && raw[i + 3] == 10u8
}

pub open spec fn is_digit_byte(b: u8) -> bool {
    48u8 <= b && b <= 57u8
}

/// The status line starts `HTTP/1.x ` and a three-digit code follows.
pub open spec fn has_status_line(raw: Seq<u8>) -> bool {
    raw.len() >= 12 && raw[0] == 72u8 && raw[1] == 84u8 && raw[2] == 84u8 && raw[3] == 80u8
        && raw[4] == 47u8 && raw[5] == 49u8 && raw[6] == 46u8 && raw[8] == 32u8
        && is_digit_byte(raw[9]) && is_digit_byte(raw[10]) && is_digit_byte(raw[11])
}

pub open spec fn status_code(raw: Seq<u8>) -> int {
    (raw[9] - 48) * 100 + (raw[10] - 48) * 10 + (raw[11] - 48)
}

/// What an answer of the service yields: its body when the status is a
/// success, the status when it is not, and `Malformed` when the status line or
/// the end of the headers is missing.
pub open spec fn response_body(raw: Seq<u8>) -> Result<Seq<u8>, FetchError> {
    if !has_status_line(raw) || !(exists|i: int| blank_line_at(raw, i)) {
        Err(FetchError::Malformed)
    } else if !(200 <= status_code(raw) < 300) {
        Err(FetchError::Status(status_code(raw) as u16))
    } else {
        let i = choose|i: int| blank_line_at(raw, i) && forall|j: int| 0 <= j < i ==> !blank_line_at(raw, j);
        Ok(raw.subrange(i + 4, raw.len() as int))
    }
}

/// The three-digit code of the status line, if there is one.
fn status_line(raw: &Vec<u8>) -> (r: Option<u16>)
    ensures
        r matches Some(c) ==> has_status_line(raw@) && c as int == status_code(raw@),
        r is None ==> !has_status_line(raw@),
{
    if raw.len() >= 12 && raw[0] == 72u8 && raw[1] == 84u8 && raw[2] == 84u8 && raw[3] == 80u8
        && raw[4] == 47u8 && raw[5] == 49u8 && raw[6] == 46u8 && raw[8] == 32u8
        && 48u8 <= raw[9] && raw[9] <= 57u8 && 48u8 <= raw[10] && raw[10] <= 57u8
        && 48u8 <= raw[11] && raw[11] <= 57u8 {
        let code: u16 = ((raw[9] - 48u8) as u16) * 100 + ((raw[10] - 48u8) as u16) * 10 + ((
        raw[11] - 48u8) as u16);
        Some(code)
    } else {
        None
    }
}

/// Where the first blank line starts, if there is one.
fn find_blank_line(raw: &Vec<u8>) -> (r: Option<usize>)
    ensures
        r matches Some(i) ==> blank_line_at(raw@, i as int) && forall|j: int|
            0 <= j < i ==> !blank_line_at(raw@, j),
        r is None ==> forall|j: int| !blank_line_at(raw@, j),
{
    let n = raw.len();
    if n < 4 {
        return None;
    }
    let mut i: usize = 0;
    while i <= n - 4
        invariant
            n == raw@.len(),
            n >= 4,
            forall|j: int| 0 <= j < i ==> !blank_line_at(raw@, j),
        decreases n - i,
    {
        if raw[i] == 13u8 && raw[i + 1] == 10u8 && raw[i + 2] == 13u8 && raw[i + 3] == 10u8 {
            return Some(i);
        }
        i = i + 1;
    }
    None
}

/// Reads an answer of the service: see [`response_body`].
pub fn read_response(raw: &Vec<u8>) -> (r: Result<Vec<u8>, FetchError>)
    ensures
        match (r, response_body(raw@)) {
            (Ok(b), Ok(s)) => b@ == s,
            (Err(FetchError::Malformed), Err(FetchError::Malformed)) => true,
            (Err(FetchError::Status(c)), Err(FetchError::Status(d))) => c == d,
            _ => false,
        },
{
    let code = match status_line(raw) {
        Some(c) => c,
        None => return Err(FetchError::Malformed),
    };
    let i = match find_blank_line(raw) {
        Some(i) => i,
        None => return Err(FetchError::Malformed),
    };
    if code < 200 || code >= 300 {
        return Err(FetchError::Status(code));
    }
    let ghost k = choose|k: int| blank_line_at(raw@, k) && forall|j: int| 0 <= j < k ==> !blank_line_at(raw@, j);
    assert(k == i as int) by {
        if k < i {
            assert(!blank_line_at(raw@, k));
        } else if k > i {
            assert(!blank_line_at(raw@, i as int));
        }
    }
    let n = raw.len();
    let mut body: Vec<u8> = Vec::new();
    let mut p: usize = i + 4;
    while p < n
        invariant
            i + 4 <= p <= n,
            n == raw@.len(),
            body@ == raw@.subrange(i + 4, p as int),
        decreases n - p,
    {
        body.push(raw[p]);
        p = p + 1;
        assert(body@ =~= raw@.subrange(i + 4, p as int));
    }
    Ok(body)
}

} // verus!
