//! Direct-volume records: where a volume's mount information is kept on the
//! host, and what the records hold. The file reads and writes themselves
//! happen outside this layer; the paths and lookups are decided here.

use std::collections::HashMap;

use vstd::prelude::*;
use vstd::string::StrSliceExecFns;
use vstd::string::StringSliceAdditionalSpecFns;
use vstd::string::StringExecFns;

verus! {

/// The mount information of one direct volume.
pub struct VolumeMountInfo {
    pub volume_type: String,
    pub device: String,
    pub fs_type: String,
    pub metadata: HashMap<String, String>,
    pub options: Vec<String>,
}

/// A request to grow a guest volume to `size` bytes.
pub struct ResizeRequest {
    pub size: u64,
    pub volume_path: String,
}

/// One character of a base64 string in its url-safe form.
pub open spec fn b64url_escape_char(c: char) -> char {
    if c == '+' {
        '-'
    } else if c == '/' {
        '_'
    } else {
        c
    }
}

/// A base64 string in url-safe form: `'+'` and `'/'` become `'-'` and
/// `'_'`, and everything from the first `'='` on is dropped.
pub open spec fn b64url_escaped(s: Seq<char>) -> Seq<char>
    decreases s.len(),
{
    if s.len() == 0 {
        Seq::empty()
    } else if s[0] == '=' {
        Seq::empty()
    } else {
        seq![b64url_escape_char(s[0])] + b64url_escaped(s.drop_first())
    }
}

/// One character of a url-safe base64 string in its standard form.
pub open spec fn b64url_unescape_char(c: char) -> char {
    if c == '-' {
        '+'
    } else if c == '_' {
        '/'
    } else {
        c
    }
}

/// A url-safe base64 string in standard form: `'-'` and `'_'` become `'+'`
/// and `'/'`, and `'='` padding is appended until the byte length `n` of
/// the input is rounded up to a multiple of four.
pub open spec fn b64url_unescaped(s: Seq<char>, n: nat) -> Seq<char> {
    s.map_values(|c: char| b64url_unescape_char(c)) + if n % 4 == 0 {
        Seq::<char>::empty()
    } else {
        Seq::new((4 - n % 4) as nat, |i: int| '=')
    }
}

/// Relies on `base64_url::escape`: it maps the bytes `'+'` and `'/'` to
/// `'-'` and `'_'` and truncates at the first `'='`. Bytes of multi-byte
/// characters are never mapped (they are all above the ASCII range), so the
/// same mapping holds character by character.
#[verifier::external_body]
fn b64url_escape(s: &str) -> (r: String)
    ensures
        r@ == b64url_escaped(s@),
{
    base64_url::escape(s).into_owned()
}

/// Relies on `base64_url::unescape`: it maps the bytes `'-'` and `'_'` to
/// `'+'` and `'/'` and pads with `'='` to a multiple of four bytes; the
/// padding count comes from the input's byte length.
#[verifier::external_body]
fn b64url_unescape_str(s: &str) -> (r: String)
    ensures
        r@ == b64url_unescaped(s@, s.spec_bytes().len() as nat),
{
    base64_url::unescape(s).into_owned()
}

/// Decodes a url-safe base64 volume path back to its standard form.
pub fn unescape_volume_path(s: &String) -> (r: String)
    ensures
        r@ == b64url_unescaped(s@, vstd::utf8::encode_utf8(s@).len() as nat),
{
    b64url_unescape_str(s.as_str())
}

/// The directory a volume's mount information is kept in: the shared
/// direct-volumes root, with the volume path flattened to a single url-safe
/// component.
pub open spec fn mount_info_dir_path_spec(volume_path: Seq<char>) -> Seq<char> {
    "/run/kata-containers/shared/direct-volumes/"@ + b64url_escaped(volume_path)
}

/// Joins the direct-volumes root with the flattened volume path.
pub fn join_path(volume_path: &String) -> (r: String)
    ensures
        r@ == mount_info_dir_path_spec(volume_path@),
{
    let mut s = String::from_str("/run/kata-containers/shared/direct-volumes/");
    s.append(b64url_escape(volume_path.as_str()).as_str());
    s
}

/// The file a volume's mount information is kept in, inside its directory.
pub fn mount_info_file_path(volume_path: &String) -> (r: String)
    ensures
        r@ == mount_info_dir_path_spec(volume_path@) + "/"@ + "mountInfo.json"@,
{
    let mut s = join_path(volume_path);
    s.append("/");
    s.append(mount_info_file_name());
    s
}

/// The name every mount-info record is kept under.
pub fn mount_info_file_name() -> (r: &'static str)
    ensures
        r@ == "mountInfo.json"@,
{
    "mountInfo.json"
}

/// One byte of a JSON string body: the quote and the backslash are
/// escaped, control bytes become `\u00XX`, and every other byte — bytes of
/// multi-byte characters included — passes through unchanged.
pub open spec fn json_escaped_byte(b: u8) -> Seq<u8> {
    if b == 0x22 {
        seq![0x5cu8, 0x22u8]
    } else if b == 0x5c {
        seq![0x5cu8, 0x5cu8]
    } else if b < 0x20 {
        seq![0x5cu8, 0x75u8, 0x30u8, 0x30u8, hex_digit_byte(b / 16), hex_digit_byte(b % 16)]
    } else {
        seq![b]
    }
}

/// One lower-case hexadecimal digit, as its ASCII byte.
pub open spec fn hex_digit_byte(d: u8) -> u8 {
    if d < 10 {
        (0x30 + d) as u8
    } else {
        (0x57 + d) as u8
    }
}

/// A byte string escaped for the inside of a JSON string literal.
pub open spec fn json_escaped(s: Seq<u8>) -> Seq<u8>
    decreases s.len(),
{
    if s.len() == 0 {
        Seq::empty()
    } else {
        json_escaped_byte(s[0]) + json_escaped(s.drop_first())
    }
}

proof fn lemma_json_escaped_push(s: Seq<u8>, b: u8)
    ensures
        json_escaped(s.push(b)) == json_escaped(s) + json_escaped_byte(b),
    decreases s.len(),
{
    if s.len() == 0 {
        assert(s.push(b).drop_first() =~= Seq::<u8>::empty());
        assert(s.push(b)[0] == b);
        assert(json_escaped(Seq::<u8>::empty()) =~= Seq::<u8>::empty());
        assert(json_escaped(s.push(b)) =~= json_escaped_byte(b) + json_escaped(
            Seq::<u8>::empty(),
        ));
        assert(json_escaped(s.push(b)) =~= json_escaped_byte(b));
        assert(json_escaped(s) + json_escaped_byte(b) =~= json_escaped_byte(b));
    } else {
        assert(s.push(b).drop_first() =~= s.drop_first().push(b));
        lemma_json_escaped_push(s.drop_first(), b);
        assert(s.push(b)[0] == s[0]);
        assert(json_escaped(s) + json_escaped_byte(b) =~= json_escaped_byte(s[0]) + (json_escaped(
            s.drop_first(),
        ) + json_escaped_byte(b)));
    }
}

/// Appends every byte of `src` to `dst`, in order.
fn push_byte_seq(dst: &mut Vec<u8>, src: &Vec<u8>)
    ensures
        final(dst)@ == old(dst)@ + src@,
{
    let mut i: usize = 0;
    while i < src.len()
        invariant
            i <= src@.len(),
            dst@ == old(dst)@ + src@.take(i as int),
        decreases src@.len() - i,
    {
        dst.push(src[i]);
        proof {
            assert(dst@ =~= old(dst)@ + src@.take(i + 1));
        }
        i += 1;
    }
    proof {
        assert(dst@ =~= old(dst)@ + src@);
    }
}

/// Appends `src` escaped for a JSON string literal to `dst`.
fn push_json_escaped(dst: &mut Vec<u8>, src: &Vec<u8>)
    ensures
        final(dst)@ == old(dst)@ + json_escaped(src@),
{
    let mut i: usize = 0;
    proof {
        assert(src@.take(0) =~= Seq::empty());
        assert(dst@ =~= old(dst)@ + json_escaped(src@.take(0)));
    }
    while i < src.len()
        invariant
            i <= src@.len(),
            dst@ == old(dst)@ + json_escaped(src@.take(i as int)),
        decreases src@.len() - i,
    {
        let b = src[i];
        if b == 0x22 {
            dst.push(0x5c);
            dst.push(0x22);
        } else if b == 0x5c {
            dst.push(0x5c);
            dst.push(0x5c);
        } else if b < 0x20 {
            dst.push(0x5c);
            dst.push(0x75);
            dst.push(0x30);
            dst.push(0x30);
            let hi = b / 16;
            let lo = b % 16;
            dst.push(if hi < 10 {
                0x30 + hi
            } else {
                0x57 + hi
            });
            dst.push(if lo < 10 {
                0x30 + lo
            } else {
                0x57 + lo
            });
        } else {
            dst.push(b);
        }
        proof {
            lemma_json_escaped_push(src@.take(i as int), b);
            assert(src@.take(i + 1) =~= src@.take(i as int).push(b));
            assert(dst@ =~= old(dst)@ + json_escaped(src@.take(i + 1)));
        }
        i += 1;
    }
    proof {
        assert(src@.take(src@.len() as int) =~= src@);
    }
}

/// The request body a resize travels as: a JSON record with the new size
/// and the device path, the path escaped as a JSON string.
pub open spec fn resize_body_spec(size: u64, volume_path: Seq<u8>) -> Seq<u8> {
    vstd::utf8::encode_utf8("{\"size\":"@) + vstd::utf8::encode_utf8(
        crate::numstr::dec_digits(size as nat),
    ) + vstd::utf8::encode_utf8(",\"volume_path\":\""@) + json_escaped(volume_path)
        + vstd::utf8::encode_utf8("\"}"@)
}

/// Serializes a resize request for the management server.
pub fn resize_request_body(req: &ResizeRequest) -> (r: Vec<u8>)
    ensures
        r@ == resize_body_spec(req.size, vstd::utf8::encode_utf8(req.volume_path@)),
{
    let mut out: Vec<u8> = "{\"size\":".as_bytes_vec();
    push_byte_seq(&mut out, &crate::numstr::u64_dec_str(req.size).as_str().as_bytes_vec());
    push_byte_seq(&mut out, &",\"volume_path\":\"".as_bytes_vec());
    push_json_escaped(&mut out, &req.volume_path.as_str().as_bytes_vec());
    push_byte_seq(&mut out, &"\"}".as_bytes_vec());
    out
}

/// Picks the sandbox id out of a volume directory's entries: the first
/// entry that is a mount-info record, under the convention that a
/// direct-assigned volume belongs to one sandbox at a time. Returns `Some`
/// exactly when such an entry exists.
pub fn get_sandbox_id_for_volume(entries: &Vec<String>) -> (r: Option<String>)
    ensures
        r is Some <==> (exists|i: int|
            0 <= i < entries@.len() && #[trigger] entries@[i]@ == "mountInfo.json"@),
        r matches Some(s) ==> s@ == "mountInfo.json"@,
{
    let name = String::from_str(mount_info_file_name());
    let mut i: usize = 0;
    while i < entries.len()
        invariant
            i <= entries@.len(),
            name@ == "mountInfo.json"@,
            forall|j: int| 0 <= j < i ==> #[trigger] entries@[j]@ != "mountInfo.json"@,
        decreases entries@.len() - i,
    {
        if entries[i] == name {
            return Some(name);
        }
        i += 1;
    }
    None
}

} // verus!
