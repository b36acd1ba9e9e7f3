//! The commands of the command-line client.
use vstd::prelude::*;
use crate::text::{decimal, usize_text, join, join_spec, texts_of, str_eq, push_char};

verus! {

/// The commands of the client.
#[derive(Debug)]
pub enum Commands {
    /// Generates random bytes of a length, as "hex" or "base64".
    RandBytes { len: usize, format: String },
    /// Makes a signed RPC call to an endpoint.
    Rpc { endpoint: String, id_secret: String, method: String, args: Option<Vec<String>> },
    /// Runs an agent on an endpoint.
    AgentRun { endpoint: String, id_secret: String, prompt: String, name: Option<String> },
    /// Calls a tool on an endpoint.
    ToolCall { endpoint: String, id_secret: String, name: String, args: String },
}

/// The most random bytes generated at once.
pub const MAX_RAND_BYTES: usize = 1024;

/// How many random bytes to generate for a requested length: at most 1024.
pub fn rand_bytes_len(len: usize) -> (n: usize)
    ensures
        n == if len < MAX_RAND_BYTES { len } else { MAX_RAND_BYTES },
{
    if len < MAX_RAND_BYTES {
        len
    } else {
        MAX_RAND_BYTES
    }
}

/// The lowercase hex digit of a number below 16.
pub open spec fn hex_digit(n: u8) -> char {
    if n < 10 {
        ((n + 48) as u8) as char
    } else {
        ((n + 87) as u8) as char
    }
}

/// Bytes in lowercase hex, two digits each, high digit first.
pub open spec fn hex_text(bytes: Seq<u8>) -> Seq<char>
    decreases bytes.len(),
{
    if bytes.len() == 0 {
        Seq::empty()
    } else {
        hex_text(bytes.drop_last()).push(hex_digit(bytes.last() / 16)).push(hex_digit(bytes.last() % 16))
    }
}

/// What `base64`'s URL-safe engine without padding makes of the bytes.
pub uninterp spec fn base64_url_text(bytes: Seq<u8>) -> Seq<char>;

/// `const_hex::encode`: the bytes in lowercase hex, two digits per byte.
#[verifier::external_body]
fn hex_encode(bytes: &Vec<u8>) -> (r: String)
    ensures
        r@ == hex_text(bytes@),
{
    const_hex::encode(bytes)
}

/// `Engine::encode` of `base64`'s `BASE64_URL_SAFE_NO_PAD`: the bytes in
/// base64 with the URL-safe alphabet and no padding. It panics where the
/// length of the text would overflow `usize`, which the bound rules out.
#[verifier::external_body]
fn base64_url_encode(bytes: &Vec<u8>) -> (r: String)
    requires
        bytes@.len() <= usize::MAX / 2,
    ensures
        r@ == base64_url_text(bytes@),
{
    base64::Engine::encode(&base64::prelude::BASE64_URL_SAFE_NO_PAD, bytes)
}

/// The decimal texts of bytes.
pub open spec fn byte_texts(bytes: Seq<u8>) -> Seq<Seq<char>> {
    bytes.map_values(|b: u8| decimal(b as nat))
}

/// Bytes as a list of decimal numbers: "[1, 2, 3]".
pub open spec fn byte_list_text(bytes: Seq<u8>) -> Seq<char> {
    seq!['['] + join_spec(byte_texts(bytes), seq![',', ' ']) + seq![']']
}

/// How random bytes are shown: "hex" in lowercase hex, "base64" in URL-safe
/// base64 without padding, any other format as a list of numbers.
pub open spec fn rendered_bytes(bytes: Seq<u8>, format: Seq<char>) -> Seq<char> {
    if format == seq!['h', 'e', 'x'] {
        hex_text(bytes)
    } else if format == seq!['b', 'a', 's', 'e', '6', '4'] {
        base64_url_text(bytes)
    } else {
        byte_list_text(bytes)
    }
}

/// Shows bytes in a format: "hex", "base64", or otherwise as a list of numbers.
pub fn render_bytes(bytes: &Vec<u8>, format: &str) -> (r: String)
    requires
        bytes@.len() <= usize::MAX / 2,
    ensures
        r@ == rendered_bytes(bytes@, format@),
{
    let hex = "hex";
    let b64 = "base64";
    proof {
        reveal_strlit("hex");
        reveal_strlit("base64");
    }
    assert(hex@ == seq!['h', 'e', 'x']);
    assert(b64@ == seq!['b', 'a', 's', 'e', '6', '4']);
    if str_eq(format, hex) {
        hex_encode(bytes)
    } else if str_eq(format, b64) {
        base64_url_encode(bytes)
    } else {
        let mut texts: Vec<String> = Vec::new();
        let mut i: usize = 0;
        while i < bytes.len()
            invariant
                i <= bytes.len(),
                texts@.len() == i,
                forall|k: int| 0 <= k < i ==> texts@[k]@ == decimal(bytes@[k] as nat),
            decreases bytes.len() - i,
        {
            let t = usize_text(bytes[i] as usize);
            assert(t@ == decimal(bytes@[i as int] as nat));
            texts.push(t);
            i = i + 1;
        }
        proof {
            assert(texts_of(texts@) =~= byte_texts(bytes@));
        }
        let sep = ", ";
        proof {
            reveal_strlit(", ");
        }
        let inner = join(&texts, sep);
        let mut r = String::new();
        push_char(&mut r, '[');
        r.append(inner.as_str());
        push_char(&mut r, ']');
        proof {
            assert(", "@ == seq![',', ' ']);
            assert(inner@ == join_spec(byte_texts(bytes@), seq![',', ' ']));
            assert(r@ =~= byte_list_text(bytes@));
        }
        r
    }
}

} // verus!
