//! The messages of a Jade: requests `{id, method, params}` and replies
//! `{id, result, error}`, written in CBOR.

use super::cbor::{
    bool_at, collection_at, find, head, i32_at, is_items, is_null, items_end,
    lemma_collection_is_an_item, lemma_items_joined, lemma_text_is_an_item,
    lemma_uint_array_is_an_item, lookup, null_at, push_head, push_text, push_uint_array,
    read_bool, read_collection, read_i32, read_text, skip_items, text, text_at, uint_array, Lookup,
    MAJOR_ARRAY, MAJOR_MAP,
};
use vstd::prelude::*;
use vstd::string::StringSliceAdditionalSpecFns;
use vstd::utf8::{decode_utf8, valid_utf8};

verus! {

/// The error of a remote call, as the device reports it.
#[derive(Debug)]
pub struct Error {
    pub code: i32,
    pub message: Option<String>,
}

/// An error as a plain value.
pub ghost struct ErrorView {
    pub code: i32,
    pub message: Option<Seq<char>>,
}

impl View for Error {
    type V = ErrorView;

    open spec fn view(&self) -> ErrorView {
        ErrorView {
            code: self.code,
            message: match self.message {
                Some(m) => Some(m@),
                None => None,
            },
        }
    }
}

/// The JSON text of a CBOR data item, as `serde_json` writes the value that
/// `serde_cbor` reads from it; or the message of the error of the step that
/// fails.
pub uninterp spec fn json_of_cbor(item: Seq<u8>) -> Result<Seq<u8>, Seq<char>>;

/// The CBOR data item of a JSON text, as `serde_cbor` writes the value that
/// `serde_json` reads from it; nothing where either step fails.
pub uninterp spec fn cbor_of_json(json: Seq<u8>) -> Option<Seq<u8>>;

/// Reads a `serde_json::Value` from CBOR with `serde_cbor::from_slice` and
/// writes it with `serde_json::to_vec`. The result is the named JSON text,
/// or the named message of the error.
#[verifier::external_body]
fn cbor_to_json(item: &[u8]) -> (r: Result<Vec<u8>, String>)
    ensures
        match r {
            Ok(json) => json_of_cbor(item@) == Ok::<Seq<u8>, Seq<char>>(json@),
            Err(message) => json_of_cbor(item@) == Err::<Seq<u8>, Seq<char>>(message@),
        },
{
    let value: serde_json::Value = serde_cbor::from_slice(item).map_err(|e| e.to_string())?;
    serde_json::to_vec(&value).map_err(|e| e.to_string())
}

/// Reads a `serde_json::Value` from JSON with `serde_json::from_slice` and
/// writes it with `serde_cbor::to_vec`. The result is the named data item.
#[verifier::external_body]
fn json_to_cbor(json: &[u8]) -> (r: Option<Vec<u8>>)
    ensures
        match r {
            Some(item) => cbor_of_json(json@) == Some(item@),
            None => cbor_of_json(json@) is None,
        },
{
    let value: serde_json::Value = serde_json::from_slice(json).ok()?;
    serde_cbor::to_vec(&value).ok()
}

/// Calls `String::from_utf8` on a copy of the bytes: the text that the
/// bytes encode, where they are UTF-8.
#[verifier::external_body]
fn utf8_text(bytes: &[u8]) -> (r: Option<String>)
    ensures
        match r {
            Some(s) => valid_utf8(bytes@) && s@ == decode_utf8(bytes@),
            None => !valid_utf8(bytes@),
        },
{
    String::from_utf8(bytes.to_vec()).ok()
}

/// The digits of a number in base ten, as ASCII.
pub open spec fn decimal(n: nat) -> Seq<u8>
    decreases n,
{
    if n < 10 {
        seq![(0x30 + n) as u8]
    } else {
        decimal(n / 10) + seq![(0x30 + n % 10) as u8]
    }
}

/// Writes a number in base ten.
pub fn decimal_digits(n: u64) -> (out: Vec<u8>)
    ensures
        out@ == decimal(n as nat),
    decreases n,
{
    if n < 10 {
        let out: Vec<u8> = vec![0x30 + n as u8];
        assert(out@ =~= decimal(n as nat));
        out
    } else {
        let mut out = decimal_digits(n / 10);
        out.push(0x30 + (n % 10) as u8);
        assert(out@ =~= decimal(n as nat));
        out
    }
}

/// The name by which a Jade knows a network: mainnet, or testnet for every
/// other.
pub open spec fn network_name(mainnet: bool) -> Seq<u8> {
    if mainnet {
        "mainnet".spec_bytes()
    } else {
        "testnet".spec_bytes()
    }
}

/// The digits of a number are no more than the number, and one for zero.
pub proof fn lemma_decimal_len(n: nat)
    ensures
        1 <= decimal(n).len() <= if n == 0 {
            1
        } else {
            n
        },
    decreases n,
{
    if n >= 10 {
        lemma_decimal_len(n / 10);
    }
}

/// The words of the requests and of the replies, in bytes.
pub proof fn lemma_words()
    ensures
        "result".spec_bytes() == seq![0x72u8, 0x65, 0x73, 0x75, 0x6c, 0x74],
        "error".spec_bytes() == seq![0x65u8, 0x72, 0x72, 0x6f, 0x72],
        "code".spec_bytes() == seq![0x63u8, 0x6f, 0x64, 0x65],
        "message".spec_bytes() == seq![0x6du8, 0x65, 0x73, 0x73, 0x61, 0x67, 0x65],
        "http_request".spec_bytes() == seq![
            0x68u8,
            0x74,
            0x74,
            0x70,
            0x5f,
            0x72,
            0x65,
            0x71,
            0x75,
            0x65,
            0x73,
            0x74,
        ],
        "urls".spec_bytes() == seq![0x75u8, 0x72, 0x6c, 0x73],
        "url".spec_bytes() == seq![0x75u8, 0x72, 0x6c],
        "data".spec_bytes() == seq![0x64u8, 0x61, 0x74, 0x61],
        "id".spec_bytes() == seq![0x69u8, 0x64],
        "method".spec_bytes() == seq![0x6du8, 0x65, 0x74, 0x68, 0x6f, 0x64],
        "params".spec_bytes() == seq![0x70u8, 0x61, 0x72, 0x61, 0x6d, 0x73],
        "network".spec_bytes() == seq![0x6eu8, 0x65, 0x74, 0x77, 0x6f, 0x72, 0x6b],
        "path".spec_bytes() == seq![0x70u8, 0x61, 0x74, 0x68],
        "mainnet".spec_bytes() == seq![0x6du8, 0x61, 0x69, 0x6e, 0x6e, 0x65, 0x74],
        "testnet".spec_bytes() == seq![0x74u8, 0x65, 0x73, 0x74, 0x6e, 0x65, 0x74],
        "auth_user".spec_bytes() == seq![0x61u8, 0x75, 0x74, 0x68, 0x5f, 0x75, 0x73, 0x65, 0x72],
        "get_xpub".spec_bytes() == seq![0x67u8, 0x65, 0x74, 0x5f, 0x78, 0x70, 0x75, 0x62],
        "pin".spec_bytes() == seq![0x70u8, 0x69, 0x6e],
{
    reveal_strlit("result");
    reveal_strlit("error");
    reveal_strlit("code");
    reveal_strlit("message");
    reveal_strlit("http_request");
    reveal_strlit("urls");
    reveal_strlit("url");
    reveal_strlit("data");
    vstd::string::is_ascii_spec_bytes("result");
    vstd::string::is_ascii_spec_bytes("error");
    vstd::string::is_ascii_spec_bytes("code");
    vstd::string::is_ascii_spec_bytes("message");
    vstd::string::is_ascii_spec_bytes("http_request");
    vstd::string::is_ascii_spec_bytes("urls");
    vstd::string::is_ascii_spec_bytes("url");
    vstd::string::is_ascii_spec_bytes("data");
    reveal_strlit("id");
    reveal_strlit("method");
    reveal_strlit("params");
    reveal_strlit("network");
    reveal_strlit("path");
    reveal_strlit("mainnet");
    reveal_strlit("testnet");
    reveal_strlit("auth_user");
    reveal_strlit("get_xpub");
    reveal_strlit("pin");
    vstd::string::is_ascii_spec_bytes("id");
    vstd::string::is_ascii_spec_bytes("method");
    vstd::string::is_ascii_spec_bytes("params");
    vstd::string::is_ascii_spec_bytes("network");
    vstd::string::is_ascii_spec_bytes("path");
    vstd::string::is_ascii_spec_bytes("mainnet");
    vstd::string::is_ascii_spec_bytes("testnet");
    vstd::string::is_ascii_spec_bytes("auth_user");
    vstd::string::is_ascii_spec_bytes("get_xpub");
    vstd::string::is_ascii_spec_bytes("pin");
}

/// A field of a map: a text key and a value.
pub open spec fn field(key: Seq<u8>, value: Seq<u8>) -> Seq<u8> {
    text(key) + value
}

/// The parameters of `auth_user` and `get_xpub`: `{network, path}`.
pub open spec fn xpub_params(mainnet: bool, path: Seq<u32>) -> Seq<u8> {
    head(MAJOR_MAP, 2) + (field("network".spec_bytes(), text(network_name(mainnet))) + field(
        "path".spec_bytes(),
        uint_array(path),
    ))
}

/// A request: `{id, method, params}`, the id as a text of decimal digits.
pub open spec fn request(id: u64, method: Seq<u8>, params: Seq<u8>) -> Seq<u8> {
    head(MAJOR_MAP, 3) + (field("id".spec_bytes(), text(decimal(id as nat))) + field(
        "method".spec_bytes(),
        text(method),
    ) + field("params".spec_bytes(), params))
}

/// A field is two items, where its value is one.
pub proof fn lemma_field_is_two_items(key: Seq<u8>, value: Seq<u8>)
    requires
        key.len() <= u64::MAX,
        is_items(value, 1),
    ensures
        is_items(field(key, value), 2),
{
    lemma_text_is_an_item(key);
    lemma_items_joined(text(key), 1, value, 1);
}

/// The parameters of `auth_user` and `get_xpub` are one complete data item.
pub proof fn lemma_xpub_params_are_an_item(mainnet: bool, path: Seq<u32>)
    requires
        path.len() <= u64::MAX,
    ensures
        is_items(xpub_params(mainnet, path), 1),
{
    lemma_words();
    let network = field("network".spec_bytes(), text(network_name(mainnet)));
    let path_field = field("path".spec_bytes(), uint_array(path));
    lemma_text_is_an_item(network_name(mainnet));
    lemma_uint_array_is_an_item(path);
    lemma_field_is_two_items("network".spec_bytes(), text(network_name(mainnet)));
    lemma_field_is_two_items("path".spec_bytes(), uint_array(path));
    lemma_items_joined(network, 2, path_field, 2);
    lemma_collection_is_an_item(MAJOR_MAP, 2, network + path_field);
}

/// A request is one complete data item, where its parameters are one.
pub proof fn lemma_request_is_an_item(id: u64, method: Seq<u8>, params: Seq<u8>)
    requires
        is_items(params, 1),
        method.len() <= u64::MAX,
    ensures
        is_items(request(id, method, params), 1),
{
    lemma_words();
    lemma_decimal_len(id as nat);
    let id_field = field("id".spec_bytes(), text(decimal(id as nat)));
    let method_field = field("method".spec_bytes(), text(method));
    let params_field = field("params".spec_bytes(), params);
    lemma_text_is_an_item(decimal(id as nat));
    lemma_text_is_an_item(method);
    lemma_field_is_two_items("id".spec_bytes(), text(decimal(id as nat)));
    lemma_field_is_two_items("method".spec_bytes(), text(method));
    lemma_field_is_two_items("params".spec_bytes(), params);
    lemma_items_joined(id_field, 2, method_field, 2);
    lemma_items_joined(id_field + method_field, 4, params_field, 2);
    lemma_collection_is_an_item(MAJOR_MAP, 3, id_field + method_field + params_field);
}

/// Writes the parameters of `auth_user` and `get_xpub`.
pub fn write_xpub_params(mainnet: bool, path: &[u32]) -> (out: Vec<u8>)
    ensures
        out@ == xpub_params(mainnet, path@),
{
    let mut out: Vec<u8> = Vec::new();
    push_head(&mut out, MAJOR_MAP, 2);
    push_text(&mut out, "network".as_bytes());
    if mainnet {
        push_text(&mut out, "mainnet".as_bytes());
    } else {
        push_text(&mut out, "testnet".as_bytes());
    }
    push_text(&mut out, "path".as_bytes());
    push_uint_array(&mut out, path);
    assert(out@ =~= xpub_params(mainnet, path@));
    out
}

/// Writes a request.
pub fn write_request(id: u64, method: &str, params: &[u8]) -> (out: Vec<u8>)
    ensures
        out@ == request(id, method.spec_bytes(), params@),
{
    let mut out: Vec<u8> = Vec::new();
    push_head(&mut out, MAJOR_MAP, 3);
    push_text(&mut out, "id".as_bytes());
    let digits = decimal_digits(id);
    push_text(&mut out, digits.as_slice());
    push_text(&mut out, "method".as_bytes());
    push_text(&mut out, method.as_bytes());
    push_text(&mut out, "params".as_bytes());
    out.extend_from_slice(params);
    assert(out@ =~= request(id, method.spec_bytes(), params@));
    out
}

/// What the envelope of a reply says.
pub enum Envelope {
    /// The reply is no map in CBOR, or its error is no error object.
    Malformed,
    /// The call failed.
    Failure(Error),
    /// The reply has neither a result nor an error.
    Empty,
    /// The call succeeded: the result begins at this place in the reply.
    Result(usize),
}

/// An envelope as a plain value.
pub ghost enum EnvelopeView {
    Malformed,
    Failure(ErrorView),
    Empty,
    Result(int),
}

impl View for Envelope {
    type V = EnvelopeView;

    open spec fn view(&self) -> EnvelopeView {
        match self {
            Envelope::Malformed => EnvelopeView::Malformed,
            Envelope::Failure(e) => EnvelopeView::Failure(e@),
            Envelope::Empty => EnvelopeView::Empty,
            Envelope::Result(at) => EnvelopeView::Result(*at as int),
        }
    }
}

/// The text string at a place, where one is there and is UTF-8.
pub open spec fn string_at(bytes: Seq<u8>, pos: int) -> Option<Seq<char>> {
    match text_at(bytes, pos) {
        Some((from, to)) => if valid_utf8(bytes.subrange(from, to)) {
            Some(decode_utf8(bytes.subrange(from, to)))
        } else {
            None
        },
        None => None,
    }
}

/// The error object at a place: a map with an integer `code` and, where it
/// has one that is not `null`, a text `message`.
pub open spec fn error_at(bytes: Seq<u8>, pos: int) -> EnvelopeView {
    match collection_at(bytes, pos, MAJOR_MAP) {
        None => EnvelopeView::Malformed,
        Some((first, pairs)) => match lookup(bytes, first, pairs, "code".spec_bytes()) {
            Lookup::Found(code_at) => match i32_at(bytes, code_at as int) {
                None => EnvelopeView::Malformed,
                Some(code) => match lookup(bytes, first, pairs, "message".spec_bytes()) {
                    Lookup::Malformed => EnvelopeView::Malformed,
                    Lookup::Missing => EnvelopeView::Failure(ErrorView { code, message: None }),
                    Lookup::Found(message_at) => if null_at(bytes, message_at as int) {
                        EnvelopeView::Failure(ErrorView { code, message: None })
                    } else {
                        match string_at(bytes, message_at as int) {
                            Some(message) => EnvelopeView::Failure(
                                ErrorView { code, message: Some(message) },
                            ),
                            None => EnvelopeView::Malformed,
                        }
                    },
                },
            },
            _ => EnvelopeView::Malformed,
        },
    }
}

/// What the envelope of a reply says. The reply must be one complete data
/// item, a map. An `error` that is not `null` makes a failure, whatever the
/// result. Else a `result` that is not `null` is the result. Other keys are
/// passed over.
pub open spec fn envelope(bytes: Seq<u8>) -> EnvelopeView {
    if items_end(bytes, 0, 1) != Some(bytes.len() as int) {
        EnvelopeView::Malformed
    } else {
        match collection_at(bytes, 0, MAJOR_MAP) {
            None => EnvelopeView::Malformed,
            Some((first, pairs)) => match lookup(bytes, first, pairs, "error".spec_bytes()) {
                Lookup::Malformed => EnvelopeView::Malformed,
                Lookup::Found(error) if !null_at(bytes, error as int) => error_at(
                    bytes,
                    error as int,
                ),
                _ => match lookup(bytes, first, pairs, "result".spec_bytes()) {
                    Lookup::Malformed => EnvelopeView::Malformed,
                    Lookup::Found(result) if !null_at(bytes, result as int) => EnvelopeView::Result(
                        result as int,
                    ),
                    _ => EnvelopeView::Empty,
                },
            },
        }
    }
}

fn read_string(bytes: &[u8], pos: usize) -> (r: Option<String>)
    ensures
        match r {
            Some(s) => string_at(bytes@, pos as int) == Some(s@),
            None => string_at(bytes@, pos as int) is None,
        },
{
    match read_text(bytes, pos) {
        Some((from, to)) => utf8_text(vstd::slice::slice_subrange(bytes, from, to)),
        None => None,
    }
}

fn read_error(bytes: &[u8], pos: usize) -> (r: Envelope)
    ensures
        r@ == error_at(bytes@, pos as int),
{
    let (first, pairs) = match read_collection(bytes, pos, MAJOR_MAP) {
        Some(c) => c,
        None => {
            return Envelope::Malformed;
        },
    };
    let code = match find(bytes, first, pairs, "code".as_bytes()) {
        Lookup::Found(code_at) => match read_i32(bytes, code_at) {
            Some(code) => code,
            None => {
                return Envelope::Malformed;
            },
        },
        _ => {
            return Envelope::Malformed;
        },
    };
    match find(bytes, first, pairs, "message".as_bytes()) {
        Lookup::Malformed => Envelope::Malformed,
        Lookup::Missing => Envelope::Failure(Error { code, message: None }),
        Lookup::Found(message_at) => {
            if is_null(bytes, message_at) {
                Envelope::Failure(Error { code, message: None })
            } else {
                match read_string(bytes, message_at) {
                    Some(message) => Envelope::Failure(Error { code, message: Some(message) }),
                    None => Envelope::Malformed,
                }
            }
        },
    }
}

/// Reads the envelope of a reply.
pub fn read_envelope(bytes: &[u8]) -> (r: Envelope)
    ensures
        r@ == envelope(bytes@),
        r matches Envelope::Result(at) ==> at <= bytes@.len(),
{
    match skip_items(bytes, 0, 1) {
        Some(end) => {
            if end != bytes.len() {
                return Envelope::Malformed;
            }
        },
        None => {
            return Envelope::Malformed;
        },
    }
    let (first, pairs) = match read_collection(bytes, 0, MAJOR_MAP) {
        Some(c) => c,
        None => {
            return Envelope::Malformed;
        },
    };
    match find(bytes, first, pairs, "error".as_bytes()) {
        Lookup::Malformed => {
            return Envelope::Malformed;
        },
        Lookup::Found(error) => {
            if !is_null(bytes, error) {
                return read_error(bytes, error);
            }
        },
        Lookup::Missing => {},
    }
    match find(bytes, first, pairs, "result".as_bytes()) {
        Lookup::Malformed => Envelope::Malformed,
        Lookup::Found(result) => {
            if !is_null(bytes, result) {
                Envelope::Result(result)
            } else {
                Envelope::Empty
            }
        },
        Lookup::Missing => Envelope::Empty,
    }
}

/// What a device answers to `auth_user`.
pub enum AuthReply {
    /// The result has another shape.
    Malformed,
    /// A truth value: the device needs no PIN server.
    Settled(bool),
    /// The device wants a PIN server asked, and names none.
    NoUrl,
    /// The device wants this URL asked with the data item in this span of
    /// the reply.
    PinServer { url: String, data: (usize, usize) },
}

/// An answer to `auth_user` as a plain value.
pub ghost enum AuthReplyView {
    Malformed,
    Settled(bool),
    NoUrl,
    PinServer { url: Seq<char>, data: (int, int) },
}

impl View for AuthReply {
    type V = AuthReplyView;

    open spec fn view(&self) -> AuthReplyView {
        match self {
            AuthReply::Malformed => AuthReplyView::Malformed,
            AuthReply::Settled(b) => AuthReplyView::Settled(*b),
            AuthReply::NoUrl => AuthReplyView::NoUrl,
            AuthReply::PinServer { url, data } => AuthReplyView::PinServer {
                url: url@,
                data: (data.0 as int, data.1 as int),
            },
        }
    }
}

/// The URL that `urls` names: the first element of an array of texts, or
/// the `url` of a map.
pub ghost enum UrlView {
    Malformed,
    NoUrl,
    Url(Seq<char>),
}

pub open spec fn url_at(bytes: Seq<u8>, pos: int) -> UrlView {
    match collection_at(bytes, pos, MAJOR_ARRAY) {
        Some((first, count)) => if count == 0 {
            UrlView::NoUrl
        } else {
            match string_at(bytes, first) {
                Some(url) => UrlView::Url(url),
                None => UrlView::Malformed,
            }
        },
        None => match collection_at(bytes, pos, MAJOR_MAP) {
            Some((first, pairs)) => match lookup(bytes, first, pairs, "url".spec_bytes()) {
                Lookup::Found(at) => match string_at(bytes, at as int) {
                    Some(url) => UrlView::Url(url),
                    None => UrlView::Malformed,
                },
                _ => UrlView::Malformed,
            },
            None => UrlView::Malformed,
        },
    }
}

/// The value of a key in the map at a place, where the map has the key.
pub open spec fn member(bytes: Seq<u8>, pos: int, key: Seq<u8>) -> Option<int> {
    match collection_at(bytes, pos, MAJOR_MAP) {
        Some((first, pairs)) => match lookup(bytes, first, pairs, key) {
            Lookup::Found(at) => Some(at as int),
            _ => None,
        },
        None => None,
    }
}

/// What the result of `auth_user` at a place says: a truth value, or
/// `{http_request: {params: {urls, data}}}`.
pub open spec fn auth_reply(bytes: Seq<u8>, pos: int) -> AuthReplyView {
    match bool_at(bytes, pos) {
        Some(b) => AuthReplyView::Settled(b),
        None => match member(bytes, pos, "http_request".spec_bytes()) {
            None => AuthReplyView::Malformed,
            Some(http_request) => match member(bytes, http_request, "params".spec_bytes()) {
                None => AuthReplyView::Malformed,
                Some(params) => match (
                    member(bytes, params, "urls".spec_bytes()),
                    member(bytes, params, "data".spec_bytes()),
                ) {
                    (Some(urls), Some(data)) => match items_end(bytes, data, 1) {
                        None => AuthReplyView::Malformed,
                        Some(end) => match url_at(bytes, urls) {
                            UrlView::Malformed => AuthReplyView::Malformed,
                            UrlView::NoUrl => AuthReplyView::NoUrl,
                            UrlView::Url(url) => AuthReplyView::PinServer {
                                url,
                                data: (data, end),
                            },
                        },
                    },
                    _ => AuthReplyView::Malformed,
                },
            },
        },
    }
}

fn read_member(bytes: &[u8], pos: usize, key: &[u8]) -> (r: Option<usize>)
    ensures
        super::cbor::as_int(r) == member(bytes@, pos as int, key@),
        r matches Some(at) ==> at <= bytes@.len(),
{
    match read_collection(bytes, pos, MAJOR_MAP) {
        Some((first, pairs)) => match find(bytes, first, pairs, key) {
            Lookup::Found(at) => Some(at),
            _ => None,
        },
        None => None,
    }
}

enum Url {
    Malformed,
    NoUrl,
    Url(String),
}

fn read_url(bytes: &[u8], pos: usize) -> (r: Url)
    ensures
        match r {
            Url::Malformed => url_at(bytes@, pos as int) == UrlView::Malformed,
            Url::NoUrl => url_at(bytes@, pos as int) == UrlView::NoUrl,
            Url::Url(url) => url_at(bytes@, pos as int) == UrlView::Url(url@),
        },
{
    match read_collection(bytes, pos, MAJOR_ARRAY) {
        Some((first, count)) => {
            if count == 0 {
                Url::NoUrl
            } else {
                match read_string(bytes, first) {
                    Some(url) => Url::Url(url),
                    None => Url::Malformed,
                }
            }
        },
        None => match read_member(bytes, pos, "url".as_bytes()) {
            Some(at) => match read_string(bytes, at) {
                Some(url) => Url::Url(url),
                None => Url::Malformed,
            },
            None => Url::Malformed,
        },
    }
}

/// Reads the result of `auth_user`.
pub fn read_auth_reply(bytes: &[u8], pos: usize) -> (r: AuthReply)
    ensures
        r@ == auth_reply(bytes@, pos as int),
        r matches AuthReply::PinServer { data, .. } ==> data.0 <= data.1 <= bytes@.len(),
{
    if let Some(b) = read_bool(bytes, pos) {
        return AuthReply::Settled(b);
    }
    let http_request = match read_member(bytes, pos, "http_request".as_bytes()) {
        Some(at) => at,
        None => {
            return AuthReply::Malformed;
        },
    };
    let params = match read_member(bytes, http_request, "params".as_bytes()) {
        Some(at) => at,
        None => {
            return AuthReply::Malformed;
        },
    };
    let urls = match read_member(bytes, params, "urls".as_bytes()) {
        Some(at) => at,
        None => {
            return AuthReply::Malformed;
        },
    };
    let data = match read_member(bytes, params, "data".as_bytes()) {
        Some(at) => at,
        None => {
            return AuthReply::Malformed;
        },
    };
    let end = match skip_items(bytes, data, 1) {
        Some(end) => end,
        None => {
            return AuthReply::Malformed;
        },
    };
    match read_url(bytes, urls) {
        Url::Malformed => AuthReply::Malformed,
        Url::NoUrl => AuthReply::NoUrl,
        Url::Url(url) => AuthReply::PinServer { url, data: (data, end) },
    }
}

/// The JSON text of the data item in a span of a reply.
pub fn json_of(bytes: &[u8], from: usize, to: usize) -> (r: Result<Vec<u8>, String>)
    requires
        from <= to <= bytes@.len(),
    ensures
        match r {
            Ok(json) => json_of_cbor(bytes@.subrange(from as int, to as int)) == Ok::<
                Seq<u8>,
                Seq<char>,
            >(json@),
            Err(message) => json_of_cbor(bytes@.subrange(from as int, to as int)) == Err::<
                Seq<u8>,
                Seq<char>,
            >(message@),
        },
{
    cbor_to_json(vstd::slice::slice_subrange(bytes, from, to))
}

/// The CBOR data item of a JSON text.
pub fn cbor_of(json: &[u8]) -> (r: Option<Vec<u8>>)
    ensures
        match r {
            Some(item) => cbor_of_json(json@) == Some(item@),
            None => cbor_of_json(json@) is None,
        },
{
    json_to_cbor(json)
}

} // verus!
