use vstd::prelude::*;
use vstd::string::StringSliceAdditionalSpecFns;

verus! {

/// The lower-case hexadecimal digit (as an ASCII byte) of a value below 16.
pub open spec fn hex_digit_lower(d: int) -> u8 {
    if d < 10 {
        (48 + d) as u8
    } else {
        (87 + d) as u8
    }
}

/// The value of a hexadecimal digit byte (`0-9`, `a-f`).
pub open spec fn hex_value(c: u8) -> int {
    if 48 <= c <= 57 {
        c - 48
    } else if 97 <= c <= 102 {
        c - 87
    } else {
        0
    }
}

/// The length field of a pkt-line: four hexadecimal digits read as a number.
pub open spec fn pkt_length_field_value(h: Seq<u8>) -> int {
    4096 * hex_value(h[0]) + 256 * hex_value(h[1]) + 16 * hex_value(h[2]) + hex_value(h[3])
}

/// `"# service="` as bytes.
pub open spec fn service_announcement_prefix() -> Seq<u8> {
    seq![35u8, 32u8, 115u8, 101u8, 114u8, 118u8, 105u8, 99u8, 101u8, 61u8]
}

/// The payload of the first pkt-line of a ref advertisement: `"# service=<service>\n"`.
pub open spec fn service_announcement(service: Seq<u8>) -> Seq<u8> {
    service_announcement_prefix() + service + seq![10u8]
}

/// The flush packet `"0000"` that closes a section.
pub open spec fn flush_pkt() -> Seq<u8> {
    seq![48u8, 48u8, 48u8, 48u8]
}

/// The length header of a pkt-line whose total length (header included) is `total`,
/// for totals below 256: two `'0'` digits of padding and then the byte in lower-case hex.
pub open spec fn short_length_header(total: u8) -> Seq<u8> {
    seq![48u8, 48u8, hex_digit_lower(total as int / 16), hex_digit_lower(total as int % 16)]
}

/// What the smart-HTTP ref advertisement starts with: the service announcement as one
/// pkt-line, then a flush packet.
pub open spec fn advertisement_preamble_bytes(service: Seq<u8>) -> Seq<u8> {
    let line = service_announcement(service);
    short_length_header((line.len() + 4) as u8) + line + flush_pkt()
}

/// `base16::encode_byte` with `EncodeLower`: the two lower-case hexadecimal digits of
/// `byte`, high nibble first. The contract states the whole result.
#[verifier::external_body]
fn encode_byte_lower(byte: u8) -> (hex: (u8, u8))
    ensures
        hex.0 == hex_digit_lower(byte as int / 16),
        hex.1 == hex_digit_lower(byte as int % 16),
{
    let h = base16::encode_byte(byte, base16::EncodeLower);
    (h[0], h[1])
}

/// Builds the bytes that open a smart-HTTP ref advertisement for `service`:
/// the pkt-line `"# service=<service>\n"` (its length written as four hex digits)
/// followed by the flush packet `"0000"`.
/// The length must fit in one byte, as the encoder takes a single byte.
pub fn advertisement_preamble(service: &str) -> (out: Vec<u8>)
    requires
        service.spec_bytes().len() + 15 <= 255,
    ensures
        out@ == advertisement_preamble_bytes(service.spec_bytes()),
{
    let svc = service.as_bytes();
    let mut line: Vec<u8> = vec![35u8, 32u8, 115u8, 101u8, 114u8, 118u8, 105u8, 99u8, 101u8, 61u8];
    line.extend_from_slice(svc);
    line.push(10u8);
    assert(line@ =~= service_announcement(service.spec_bytes()));
    let total: usize = line.len() + 4;
    let hex = encode_byte_lower(total as u8);
    let digits: usize = 2;
    let mut out: Vec<u8> = Vec::new();
    if digits % 4 != 0 {
        let pad: usize = 4 - digits % 4;
        let mut k: usize = 0;
        while k < pad
            invariant
                pad == 2,
                k <= pad,
                out@ =~= Seq::new(k as nat, |i: int| 48u8),
            decreases pad - k,
        {
            out.push(48u8);
            k = k + 1;
        }
    }
    out.push(hex.0);
    out.push(hex.1);
    out.append(&mut line);
    out.push(48u8);
    out.push(48u8);
    out.push(48u8);
    out.push(48u8);
    assert(out@ =~= advertisement_preamble_bytes(service.spec_bytes()));
    out
}

/// The whole body of a ref advertisement: the preamble for `service`, then the refs that
/// `git <command> --stateless-rpc --advertise-refs` printed, unchanged.
pub fn ref_advertisement_body(service: &str, advertised_refs: &[u8]) -> (out: Vec<u8>)
    requires
        service.spec_bytes().len() + 15 <= 255,
    ensures
        out@ == advertisement_preamble_bytes(service.spec_bytes()) + advertised_refs@,
{
    let mut out = advertisement_preamble(service);
    out.extend_from_slice(advertised_refs);
    assert(out@ =~= advertisement_preamble_bytes(service.spec_bytes()) + advertised_refs@);
    out
}

/// The length field of the announcement pkt-line reads back as the pkt-line's own length,
/// the payload follows it unchanged, and the preamble ends with a flush packet.
pub proof fn lemma_advertisement_preamble_framing(service: Seq<u8>)
    requires
        service.len() + 15 <= 255,
    ensures
        ({
            let p = advertisement_preamble_bytes(service);
            let line = service_announcement(service);
            &&& pkt_length_field_value(p.take(4)) == line.len() + 4
            &&& p.subrange(4, 4 + line.len() as int) == line
            &&& p.skip(4 + line.len() as int) == flush_pkt()
            &&& p.len() == service.len() + 19
        }),
{
    let p = advertisement_preamble_bytes(service);
    let line = service_announcement(service);
    let total = (line.len() + 4) as u8;
    assert(total as int == line.len() + 4);
    assert(p.take(4) =~= short_length_header(total));
    assert(hex_value(hex_digit_lower(total as int / 16)) == total as int / 16);
    assert(hex_value(hex_digit_lower(total as int % 16)) == total as int % 16);
    assert(p.subrange(4, 4 + line.len() as int) =~= line);
    assert(p.skip(4 + line.len() as int) =~= flush_pkt());
}

} // verus!
