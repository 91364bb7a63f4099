//! Bybit request signing and reply interpretation.
use vstd::prelude::*;
use hmac::{Hmac, Mac};
use sha2::Sha256;
use crate::text::{ascii_lower, decimal, eq_ignore_ascii_case, push_decimal};

verus! {

/// HMAC-SHA256 of `message` under `key`, as the `hmac` and `sha2` crates
/// compute it.
pub uninterp spec fn hmac_sha256_spec(key: Seq<u8>, message: Seq<u8>) -> Seq<u8>;

/// HMAC-SHA256 through `hmac::Hmac<sha2::Sha256>`: `Mac::new_from_slice`,
/// `Mac::update`, `Mac::finalize`. Claimed: the result is the named HMAC of
/// the key and message bytes, 32 bytes long. `new_from_slice` accepts keys of
/// every length for HMAC, so the `expect` never fires.
#[verifier::external_body]
fn hmac_sha256(key: &[u8], message: &[u8]) -> (mac: Vec<u8>)
    ensures
        mac@ == hmac_sha256_spec(key@, message@),
        mac@.len() == 32,
{
    let mut m = <Hmac<Sha256> as Mac>::new_from_slice(key).expect("HMAC takes a key of any size");
    m.update(message);
    m.finalize().into_bytes().to_vec()
}

/// Lower-case hexadecimal digit of a value below 16.
pub open spec fn hex_digit(v: nat) -> char {
    if v < 10 {
        ((48 + v) as u32) as char
    } else {
        ((87 + v) as u32) as char
    }
}

/// Lower-case hexadecimal rendering, two digits per byte, high nibble first.
pub open spec fn hex_lower(bytes: Seq<u8>) -> Seq<char>
    decreases bytes.len(),
{
    if bytes.len() == 0 {
        Seq::empty()
    } else {
        seq![hex_digit((bytes[0] / 16) as nat), hex_digit((bytes[0] % 16) as nat)] + hex_lower(
            bytes.drop_first(),
        )
    }
}

/// `hex::encode`: lower-case hexadecimal, two digits per byte, high nibble
/// first (the crate's `HEX_CHARS_LOWER` table). Claimed: exactly `hex_lower`.
#[verifier::external_body]
fn hex_encode(bytes: &[u8]) -> (s: String)
    ensures
        s@ == hex_lower(bytes@),
{
    hex::encode(bytes)
}

pub proof fn lemma_hex_len(bytes: Seq<u8>)
    ensures
        hex_lower(bytes).len() == 2 * bytes.len(),
    decreases bytes.len(),
{
    if bytes.len() > 0 {
        lemma_hex_len(bytes.drop_first());
    }
}

/// The text form of a signature digest: lower-case hexadecimal, two digits
/// per byte.
pub fn signature_hex(mac: &[u8]) -> (s: String)
    ensures
        s@ == hex_lower(mac@),
        s@.len() == 2 * mac@.len(),
{
    proof {
        lemma_hex_len(mac@);
    }
    hex_encode(mac)
}

/// Bybit request signature: HMAC-SHA256 of the payload's UTF-8 bytes under
/// the secret's UTF-8 bytes, as 64 lower-case hex digits.
pub fn sign_bybit(secret: &str, payload: &str) -> (sig: String)
    ensures
        sig@ == hex_lower(hmac_sha256_spec(vstd::utf8::encode_utf8(secret@), vstd::utf8::encode_utf8(payload@))),
        sig@.len() == 64,
{
    let mac = hmac_sha256(secret.as_bytes(), payload.as_bytes());
    signature_hex(mac.as_slice())
}

/// The text a v5 request signature covers: timestamp in milliseconds, API
/// key, receive window, then the JSON body (POST) or the query string (GET).
pub fn signing_payload(ts_ms: u64, api_key: &str, recv_window: u64, body: &str) -> (p: String)
    ensures
        p@ == decimal(ts_ms as nat) + api_key@ + decimal(recv_window as nat) + body@,
{
    let mut p = String::from_str("");
    proof {
        reveal_strlit("");
    }
    push_decimal(&mut p, ts_ms);
    p.append(api_key);
    push_decimal(&mut p, recv_window);
    p.append(body);
    assert(p@ =~= decimal(ts_ms as nat) + api_key@ + decimal(recv_window as nat) + body@);
    p
}

/// The query string of a request path, empty when it has none.
pub fn query_part(path_query: &str) -> (q: &str)
    ensures
        (exists|i: int| 0 <= i < path_query@.len() && path_query@[i] == '?') ==> exists|i: int|
            0 <= i < path_query@.len() && path_query@[i] == '?' && (forall|j: int|
                0 <= j < i ==> path_query@[j] != '?') && q@ == path_query@.subrange(
                i + 1,
                path_query@.len() as int,
            ),
        !(exists|i: int| 0 <= i < path_query@.len() && path_query@[i] == '?') ==> q@.len() == 0,
{
    let n = path_query.unicode_len();
    let mut i: usize = 0;
    while i < n
        invariant
            i <= n,
            n == path_query@.len(),
            forall|j: int| 0 <= j < i ==> path_query@[j] != '?',
        decreases n - i,
    {
        if path_query.get_char(i) == '?' {
            return path_query.substring_char(i + 1, n);
        }
        i += 1;
    }
    proof {
        reveal_strlit("");
    }
    ""
}

/// The fields of a Bybit v5 reply body that the library reads: `retCode`
/// as an integer, `retMsg` as text and `result.orderId` as text, each `None`
/// when absent or of another JSON type; `None` as a whole when the body is
/// not JSON.
pub uninterp spec fn bybit_reply(body: Seq<char>) -> Option<(Option<i64>, Option<Seq<char>>, Option<Seq<char>>)>;

/// The characters of an optional string.
pub open spec fn string_view(o: Option<String>) -> Option<Seq<char>> {
    match o {
        Some(s) => Some(s@),
        None => None,
    }
}

/// `serde_json::from_str` of a reply body into a `serde_json::Value`, then
/// the `retCode` (`as_i64`), `retMsg` (`as_str`) and `result.orderId`
/// (`as_str`) fields. Claimed: the outcome is the named reply of the body's
/// text, and `None` exactly when the body does not parse.
#[verifier::external_body]
fn parse_bybit_reply(body: &str) -> (r: Option<(Option<i64>, Option<String>, Option<String>)>)
    ensures
        r is None <==> bybit_reply(body@) is None,
        r matches Some(p) ==> bybit_reply(body@) == Some((p.0, string_view(p.1), string_view(p.2))),
{
    match serde_json::from_str::<serde_json::Value>(body) {
        Ok(v) => Some((
            v["retCode"].as_i64(),
            v["retMsg"].as_str().map(String::from),
            v["result"]["orderId"].as_str().map(String::from),
        )),
        Err(_) => None,
    }
}

/// Why a Bybit reply is not a success.
#[derive(Debug, Clone, PartialEq, Eq)]
pub enum BybitReplyError {
    /// The body is not JSON.
    Malformed,
    /// Bybit refused the request: its `retCode` (-1 when missing) and
    /// `retMsg` (empty when missing).
    Rejected { ret_code: i64, ret_msg: String },
}

/// A return code, or -1 when the reply has none.
pub open spec fn code_or_missing(code: Option<i64>) -> i64 {
    match code {
        Some(c) => c,
        None => -1i64,
    }
}

/// The text of an optional message, empty when absent.
pub open spec fn text_or_empty(msg: Option<Seq<char>>) -> Seq<char> {
    match msg {
        Some(m) => m,
        None => Seq::empty(),
    }
}

/// The verdict on the fields of a parsed reply: success on `retCode` 0,
/// else a refusal carrying the code and message.
pub fn reply_verdict(ret_code: Option<i64>, ret_msg: Option<String>) -> (r: Result<(), BybitReplyError>)
    ensures
        r is Ok <==> ret_code == Some(0i64),
        ret_code != Some(0i64) ==> (r matches Err(BybitReplyError::Rejected { ret_code: c, ret_msg: m })
            && c == code_or_missing(ret_code) && m@ == text_or_empty(string_view(ret_msg))),
{
    if ret_code_ok(ret_code) {
        return Ok(());
    }
    let c: i64 = match ret_code {
        Some(c) => c,
        None => -1,
    };
    let m = match ret_msg {
        Some(m) => m,
        None => {
            proof {
                reveal_strlit("");
            }
            String::from_str("")
        },
    };
    Err(BybitReplyError::Rejected { ret_code: c, ret_msg: m })
}

/// Check a Bybit reply body: success exactly when it parses and its
/// `retCode` is 0.
pub fn ensure_bybit_ok(body: &str) -> (r: Result<(), BybitReplyError>)
    ensures
        r is Ok <==> (bybit_reply(body@) matches Some(p) && p.0 == Some(0i64)),
        bybit_reply(body@) is None ==> r matches Err(BybitReplyError::Malformed),
        bybit_reply(body@) is Some && bybit_reply(body@).unwrap().0 != Some(0i64) ==> (r matches Err(
            BybitReplyError::Rejected { ret_code: c, ret_msg: m },
        ) && c == code_or_missing(bybit_reply(body@).unwrap().0) && m@ == text_or_empty(
            bybit_reply(body@).unwrap().1,
        )),
{
    match parse_bybit_reply(body) {
        None => Err(BybitReplyError::Malformed),
        Some((code, msg, _)) => reply_verdict(code, msg),
    }
}

/// Check the reply to a leverage change: success when Bybit answers 0 or
/// "leverage not modified" (110043); otherwise the verdict of
/// `ensure_bybit_ok`.
pub fn leverage_reply_ok(body: &str) -> (r: Result<(), BybitReplyError>)
    ensures
        r is Ok <==> (bybit_reply(body@) matches Some(p) && (p.0 == Some(0i64) || p.0 == Some(
            110043i64,
        ))),
        bybit_reply(body@) is None ==> r matches Err(BybitReplyError::Malformed),
        bybit_reply(body@) is Some && bybit_reply(body@).unwrap().0 != Some(0i64) && bybit_reply(
            body@,
        ).unwrap().0 != Some(110043i64) ==> (r matches Err(
            BybitReplyError::Rejected { ret_code: c, ret_msg: m },
        ) && c == code_or_missing(bybit_reply(body@).unwrap().0) && m@ == text_or_empty(
            bybit_reply(body@).unwrap().1,
        )),
{
    match parse_bybit_reply(body) {
        Some((code, _, _)) => {
            if leverage_change_accepted(code) {
                return Ok(());
            }
        },
        None => {},
    }
    ensure_bybit_ok(body)
}

/// The order id of a reply: its `result.orderId`, if the body parses and
/// carries one as text.
pub fn extract_order_id(body: &str) -> (r: Option<String>)
    ensures
        r is Some <==> (bybit_reply(body@) matches Some(p) && p.2 is Some),
        r matches Some(s) ==> (bybit_reply(body@) matches Some(p) && p.2 == Some(s@)),
{
    match parse_bybit_reply(body) {
        Some((_, _, id)) => id,
        None => None,
    }
}

/// Trigger direction of a conditional order: 2 (triggered when the price
/// falls to it) for a sell in any ASCII case, 1 (when it rises) otherwise.
pub fn trigger_direction(side: &str) -> (d: u8)
    ensures
        d == (if ascii_lower(side@) == ascii_lower("Sell"@) { 2u8 } else { 1u8 }),
{
    if eq_ignore_ascii_case(side, "Sell") {
        2
    } else {
        1
    }
}

/// Time in force of an order: good-till-cancel for a conditional order,
/// immediate-or-cancel for a plain one.
pub fn time_in_force(conditional: bool) -> (tif: &'static str)
    ensures
        conditional ==> tif@ == "GTC"@,
        !conditional ==> tif@ == "IOC"@,
{
    if conditional {
        "GTC"
    } else {
        "IOC"
    }
}

/// An order status that counts as fully filled once a fill quantity is
/// known: "Filled" or "PartiallyFilledCanceled" in any ASCII case, or no
/// status at all.
pub fn order_fully_filled(status: &str) -> (r: bool)
    ensures
        r == (ascii_lower(status@) == ascii_lower("Filled"@) || ascii_lower(status@) == ascii_lower(
            "PartiallyFilledCanceled"@,
        ) || status@.len() == 0),
{
    eq_ignore_ascii_case(status, "Filled") || eq_ignore_ascii_case(status, "PartiallyFilledCanceled")
        || status.is_empty()
}

/// Bybit reports success with `retCode` 0; a missing code counts as -1.
pub fn ret_code_ok(ret_code: Option<i64>) -> (r: bool)
    ensures
        r == (ret_code == Some(0i64)),
{
    match ret_code {
        Some(c) => c == 0,
        None => false,
    }
}

/// A leverage change is accepted when Bybit answers success or "leverage
/// not modified" (110043).
pub fn leverage_change_accepted(ret_code: Option<i64>) -> (r: bool)
    ensures
        r == (ret_code == Some(0i64) || ret_code == Some(110043i64)),
{
    match ret_code {
        Some(c) => c == 0 || c == 110043,
        None => false,
    }
}

} // verus!
