use vstd::prelude::*;
use crate::config::{DeviceConfig, ServerConfig};
use crate::text::{join, joined};

verus! {

/// The lower-case hexadecimal digit for `n`.
pub open spec fn hex_digit(n: nat) -> char {
    if n < 10 {
        (n + 48) as char
    } else {
        (n + 87) as char
    }
}

/// The bytes in lower-case hexadecimal, two digits each.
pub open spec fn hex(bytes: Seq<u8>) -> Seq<char>
    decreases bytes.len(),
{
    if bytes.len() == 0 {
        Seq::empty()
    } else {
        hex(bytes.drop_last()) + seq![
            hex_digit((bytes.last() / 16) as nat),
            hex_digit((bytes.last() % 16) as nat),
        ]
    }
}

/// A UUID in the hyphenated form of RFC 9562: lower-case hexadecimal in
/// groups of 8, 4, 4, 4 and 12 digits.
pub open spec fn hyphenated_uuid(bytes: Seq<u8>) -> Seq<char> {
    hex(bytes.subrange(0, 4)) + seq!['-'] + hex(bytes.subrange(4, 6)) + seq!['-'] + hex(
        bytes.subrange(6, 8),
    ) + seq!['-'] + hex(bytes.subrange(8, 10)) + seq!['-'] + hex(bytes.subrange(10, 16))
}

/// `uuid::Uuid::hyphenated`, written with `to_string`: the UUID whose bytes
/// are `bytes`, in lower-case hyphenated form.
#[verifier::external_body]
fn uuid_hyphenated(bytes: [u8; 16]) -> (text: String)
    ensures
        text@ == hyphenated_uuid(bytes@),
{
    uuid::Uuid::from_bytes(bytes).hyphenated().to_string()
}

/// The DNS-SD service type for the protocol `protocol` over TCP.
pub open spec fn spec_service_type(protocol: Seq<char>) -> Seq<char> {
    seq!['_'] + protocol + "._tcp.local."@
}

/// The DNS-SD service type for the protocol `protocol` over TCP:
/// `_<protocol>._tcp.local.`.
pub fn service_type(protocol: &str) -> (r: String)
    ensures
        r@ == spec_service_type(protocol@),
{
    let mut r = String::from_str("_");
    proof {
        reveal_strlit("_");
    }
    r.append(protocol);
    r.append("._tcp.local.");
    r
}

/// The DNS-SD host name of a printer: `<name>.local.`.
pub fn host_name(name: &str) -> (r: String)
    ensures
        r@ == name@ + ".local."@,
{
    let mut r = String::from_str(name);
    r.append(".local.");
    r
}

/// The text with one leading `/` removed, if it has one.
pub open spec fn without_leading_slash(s: Seq<char>) -> Seq<char> {
    if s.len() > 0 && s[0] == '/' {
        s.drop_first()
    } else {
        s
    }
}

/// The text with one leading `/` removed, if it has one.
pub fn strip_leading_slash(s: &str) -> (r: &str)
    ensures
        r@ == without_leading_slash(s@),
{
    let n = s.unicode_len();
    if n > 0 && s.get_char(0) == '/' {
        s.substring_char(1, n)
    } else {
        s
    }
}

/// The document formats a printer advertises in its DNS-SD `pdl` record.
pub open spec fn pdl_formats(pdf_supported: bool) -> Seq<Seq<char>> {
    let rest = seq!["application/vnd.ms-xpsdocument"@, "image/pwg-raster"@, "image/urf"@];
    if pdf_supported {
        seq!["application/pdf"@] + rest
    } else {
        rest
    }
}

/// The TXT record of a printer's DNS-SD announcement (the IPP Everywhere
/// keys), as key–value pairs in order.
pub open spec fn txt_properties(device: DeviceConfig, pdf_supported: bool) -> Seq<(Seq<char>, Seq<char>)> {
    seq![
        ("txtvers"@, "1"@),
        ("qtotal"@, "1"@),
        ("rp"@, without_leading_slash(device.basepath@)),
        ("ty"@, device.make_and_model@),
        ("priority"@, "0"@),
        ("pdl"@, joined(pdl_formats(pdf_supported), ","@)),
        ("note"@, ""@),
        ("UUID"@, hyphenated_uuid(device.uuid@)),
    ]
}

/// The views of key–value string pairs.
pub open spec fn pairs_view(pairs: Seq<(String, String)>) -> Seq<(Seq<char>, Seq<char>)> {
    pairs.map_values(|p: (String, String)| (p.0@, p.1@))
}

/// The TXT record of a printer's DNS-SD announcement, as key–value pairs in
/// order; `pdf_supported` says whether PDF documents are accepted.
pub fn txt_record(device: &DeviceConfig, pdf_supported: bool) -> (r: Vec<(String, String)>)
    ensures
        pairs_view(r@) == txt_properties(*device, pdf_supported),
{
    let mut pdl: Vec<String> = Vec::new();
    if pdf_supported {
        pdl.push(String::from_str("application/pdf"));
    }
    pdl.push(String::from_str("application/vnd.ms-xpsdocument"));
    pdl.push(String::from_str("image/pwg-raster"));
    pdl.push(String::from_str("image/urf"));
    assert(pdl@.map_values(|p: String| p@) =~= pdl_formats(pdf_supported));
    let mut r: Vec<(String, String)> = Vec::new();
    r.push((String::from_str("txtvers"), String::from_str("1")));
    r.push((String::from_str("qtotal"), String::from_str("1")));
    r.push((String::from_str("rp"), String::from_str(strip_leading_slash(device.basepath.as_str()))));
    r.push((String::from_str("ty"), device.make_and_model.clone()));
    r.push((String::from_str("priority"), String::from_str("0")));
    r.push((String::from_str("pdl"), join(&pdl, ",")));
    r.push((String::from_str("note"), String::new()));
    proof {
        reveal_strlit("");
    }
    r.push((String::from_str("UUID"), uuid_hyphenated(device.uuid)));
    assert(pairs_view(r@)[0] == txt_properties(*device, pdf_supported)[0]);
    assert(pairs_view(r@)[2] == txt_properties(*device, pdf_supported)[2]);
    assert(pairs_view(r@)[3] == txt_properties(*device, pdf_supported)[3]);
    assert(pairs_view(r@)[5] == txt_properties(*device, pdf_supported)[5]);
    assert(pairs_view(r@)[6] == txt_properties(*device, pdf_supported)[6]);
    assert(pairs_view(r@)[7] == txt_properties(*device, pdf_supported)[7]);
    assert(pairs_view(r@) =~= txt_properties(*device, pdf_supported));
    r
}

/// The DNS-SD service types a printer is announced under: none when DNS-SD
/// is off, else `ipp`, and `ipps` as well when the server speaks TLS.
pub open spec fn spec_announced_types(device: DeviceConfig, server: ServerConfig) -> Seq<Seq<char>> {
    if !device.dnssd {
        Seq::empty()
    } else if server.tls is Some {
        seq!["ipp"@, "ipps"@]
    } else {
        seq!["ipp"@]
    }
}

/// The DNS-SD service types a printer is announced under: none when DNS-SD
/// is off, else `ipp`, and `ipps` as well when the server speaks TLS.
pub fn announced_types(device: &DeviceConfig, server: &ServerConfig) -> (r: Vec<String>)
    ensures
        r@.map_values(|t: String| t@) == spec_announced_types(*device, *server),
{
    let mut r: Vec<String> = Vec::new();
    if device.dnssd {
        r.push(String::from_str("ipp"));
        if server.tls.is_some() {
            r.push(String::from_str("ipps"));
        }
    }
    assert(r@.map_values(|t: String| t@) =~= spec_announced_types(*device, *server));
    r
}


/// A printer's TXT record has one entry per key, and names its resource
/// path (the base path without its leading `/`) under `rp`, its configured
/// make and model under `ty`, the document formats it accepts under `pdl`,
/// and its UUID in hyphenated form under `UUID`.
pub proof fn lemma_txt_record_describes_device(device: DeviceConfig, pdf_supported: bool)
    ensures
        forall|i: int, j: int|
            0 <= i < j < txt_properties(device, pdf_supported).len()
                ==> (#[trigger] txt_properties(device, pdf_supported)[i]).0
                != (#[trigger] txt_properties(device, pdf_supported)[j]).0,
        txt_properties(device, pdf_supported).contains(("rp"@, without_leading_slash(device.basepath@))),
        txt_properties(device, pdf_supported).contains(("ty"@, device.make_and_model@)),
        txt_properties(device, pdf_supported).contains(("pdl"@, joined(pdl_formats(pdf_supported), ","@))),
        txt_properties(device, pdf_supported).contains(("UUID"@, hyphenated_uuid(device.uuid@))),
{
    let t = txt_properties(device, pdf_supported);
    reveal_strlit("txtvers");
    reveal_strlit("qtotal");
    reveal_strlit("rp");
    reveal_strlit("ty");
    reveal_strlit("priority");
    reveal_strlit("pdl");
    reveal_strlit("note");
    reveal_strlit("UUID");
    let keys = seq!["txtvers"@, "qtotal"@, "rp"@, "ty"@, "priority"@, "pdl"@, "note"@, "UUID"@];
    assert forall|i: int| 0 <= i < 8 implies t[i].0 == keys[i] by {}
    assert forall|i: int, j: int| 0 <= i < j < 8 implies keys[i] != keys[j] by {
        if keys[i].len() == keys[j].len() {
            assert(keys[i][0] != keys[j][0]);
        }
    }
    assert(t[2] == ("rp"@, without_leading_slash(device.basepath@)));
    assert(t[3] == ("ty"@, device.make_and_model@));
    assert(t[5] == ("pdl"@, joined(pdl_formats(pdf_supported), ","@)));
    assert(t[7] == ("UUID"@, hyphenated_uuid(device.uuid@)));
}

} // verus!
