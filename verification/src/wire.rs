use vstd::prelude::*;
use crate::fields::CanonicalField;
use crate::mapping::ColumnMapping;
use crate::payload::SubmissionPayload;

verus! {

/// The byte at one position of the standard base64 alphabet.
pub open spec fn b64_byte(n: int) -> u8 {
    if n < 26 {
        (65 + n) as u8  // 'A'..'Z'
    } else if n < 52 {
        (71 + n) as u8  // 'a'..'z'
    } else if n < 62 {
        (n - 4) as u8  // '0'..'9'
    } else if n == 62 {
        43  // '+'
    } else {
        47  // '/'
    }
}

/// Standard base64 with `=` padding, read in groups of three bytes.
pub open spec fn base64_of(b: Seq<u8>) -> Seq<u8>
    decreases b.len(),
{
    if b.len() == 0 {
        Seq::empty()
    } else if b.len() == 1 {
        let x = b[0] as int;
        seq![b64_byte(x / 4), b64_byte((x % 4) * 16), 61, 61]
    } else if b.len() == 2 {
        let x = b[0] as int;
        let y = b[1] as int;
        seq![b64_byte(x / 4), b64_byte((x % 4) * 16 + y / 16), b64_byte((y % 16) * 4), 61]
    } else {
        let x = b[0] as int;
        let y = b[1] as int;
        let z = b[2] as int;
        seq![
            b64_byte(x / 4),
            b64_byte((x % 4) * 16 + y / 16),
            b64_byte((y % 16) * 4 + z / 64),
            b64_byte(z % 64),
        ] + base64_of(b.skip(3))
    }
}

/// One lower-case hex digit.
pub open spec fn hex_digit(n: int) -> u8 {
    if n < 10 {
        (48 + n) as u8
    } else {
        (87 + n) as u8
    }
}

/// A JSON `\u` escape for one 16-bit code unit.
pub open spec fn u_escape(m: int) -> Seq<u8> {
    seq![
        92,
        117,
        hex_digit(m / 4096),
        hex_digit((m / 256) % 16),
        hex_digit((m / 16) % 16),
        hex_digit(m % 16),
    ]
}

/// The wire bytes for one character inside a JSON string literal: printable
/// ASCII stands for itself, quote and backslash carry a backslash, and every
/// other character (controls and all non-ASCII) is written as a `\u` escape,
/// as a surrogate pair above the basic plane. The output is pure ASCII, so
/// the message needs no encoding step of its own.
pub open spec fn escape_char(c: char) -> Seq<u8> {
    let n = c as int;
    if c == '"' {
        seq![92, 34]
    } else if c == '\\' {
        seq![92, 92]
    } else if 32 <= n < 127 {
        seq![n as u8]
    } else if n < 65536 {
        u_escape(n)
    } else {
        u_escape(0xD800 + (n - 0x10000) / 1024) + u_escape(0xDC00 + (n - 0x10000) % 1024)
    }
}

/// The escaped body of a JSON string literal.
pub open spec fn escape_seq(s: Seq<char>) -> Seq<u8>
    decreases s.len(),
{
    if s.len() == 0 {
        Seq::empty()
    } else {
        escape_char(s[0]) + escape_seq(s.drop_first())
    }
}

/// A whole JSON string literal, quotes included.
pub open spec fn json_string(s: Seq<char>) -> Seq<u8> {
    seq![34] + escape_seq(s) + seq![34]
}

/// The wire form of an optional string: JSON `null` when absent.
pub open spec fn key_json(k: Option<Seq<char>>) -> Seq<u8> {
    match k {
        None => seq![110, 117, 108, 108],
        Some(s) => json_string(s),
    }
}

/// One member of the mapping object: the canonical field's name and its
/// chosen column.
pub open spec fn entry_json(field: CanonicalField, m: Seq<Seq<char>>) -> Seq<u8> {
    json_string(field.spec_name()) + seq![58] + json_string(m[field.spec_index()])
}

/// The wire form of the mapping: one JSON object with a member per
/// canonical field, in canonical order.
pub open spec fn mapping_json(m: Seq<Seq<char>>) -> Seq<u8> {
    seq![123] + entry_json(CanonicalField::FileKey, m) + seq![44] + entry_json(
        CanonicalField::Catalog,
        m,
    ) + seq![44] + entry_json(CanonicalField::Brand, m) + seq![44] + entry_json(
        CanonicalField::Description,
        m,
    ) + seq![44] + entry_json(CanonicalField::Quantity, m) + seq![44] + entry_json(
        CanonicalField::Ecommerce,
        m,
    ) + seq![125]
}

/// The single wire message for one submission: a JSON object holding the
/// vendor identity, the mapping in canonical order, and the file bytes in
/// base64.
pub open spec fn payload_wire(
    vendor_name: Seq<char>,
    password: Seq<char>,
    vendor_key: Option<Seq<char>>,
    mapping: Seq<Seq<char>>,
    file_bytes: Seq<u8>,
) -> Seq<u8> {
    seq![123] + json_string("vendor_name"@) + seq![58] + json_string(vendor_name) + seq![44]
        + json_string("password"@) + seq![58] + json_string(password) + seq![44] + json_string(
        "vendor_key"@,
    ) + seq![58] + key_json(vendor_key) + seq![44] + json_string("file_mappings"@) + seq![58]
        + mapping_json(mapping) + seq![44] + json_string("file_bytes"@) + seq![58] + seq![34]
        + base64_of(file_bytes) + seq![34] + seq![125]
}

fn emit_byte(out: &mut Vec<u8>, b: u8)
    ensures
        final(out)@ == old(out)@ + seq![b],
{
    out.push(b);
    proof {
        assert(out@ =~= old(out)@ + seq![b]);
    }
}

fn b64_encode_byte(n: u8) -> (r: u8)
    requires
        n < 64,
    ensures
        r == b64_byte(n as int),
{
    if n < 26 {
        65 + n
    } else if n < 52 {
        71 + n
    } else if n < 62 {
        n - 4
    } else if n == 62 {
        43
    } else {
        47
    }
}

/// Appends the base64 form of `bytes` to `out`.
fn emit_base64(out: &mut Vec<u8>, bytes: &Vec<u8>)
    ensures
        final(out)@ == old(out)@ + base64_of(bytes@),
{
    let n = bytes.len();
    let mut i: usize = 0;
    proof {
        assert(bytes@.skip(0) =~= bytes@);
    }
    while n - i >= 3
        invariant
            i <= n,
            n == bytes@.len(),
            old(out)@ + base64_of(bytes@) == out@ + base64_of(bytes@.skip(i as int)),
        decreases n - i,
    {
        let ghost pre = bytes@.skip(i as int);
        let x = bytes[i];
        let y = bytes[i + 1];
        let z = bytes[i + 2];
        proof {
            assert(pre.len() >= 3);
            assert(pre[0] == x && pre[1] == y && pre[2] == z);
            assert(pre.skip(3) =~= bytes@.skip(i as int + 3));
        }
        let ghost mid = out@;
        emit_byte(out, b64_encode_byte(x / 4));
        emit_byte(out, b64_encode_byte((x % 4) * 16 + y / 16));
        emit_byte(out, b64_encode_byte((y % 16) * 4 + z / 64));
        emit_byte(out, b64_encode_byte(z % 64));
        proof {
            assert(out@ + base64_of(bytes@.skip(i as int + 3)) =~= mid + base64_of(pre));
        }
        i = i + 3;
    }
    let ghost mid = out@;
    let ghost pre = bytes@.skip(i as int);
    if n - i == 1 {
        let x = bytes[i];
        proof {
            assert(pre.len() == 1);
            assert(pre[0] == x);
        }
        emit_byte(out, b64_encode_byte(x / 4));
        emit_byte(out, b64_encode_byte((x % 4) * 16));
        emit_byte(out, 61);
        emit_byte(out, 61);
        proof {
            assert(out@ =~= mid + base64_of(pre));
        }
    } else if n - i == 2 {
        let x = bytes[i];
        let y = bytes[i + 1];
        proof {
            assert(pre.len() == 2);
            assert(pre[0] == x && pre[1] == y);
        }
        emit_byte(out, b64_encode_byte(x / 4));
        emit_byte(out, b64_encode_byte((x % 4) * 16 + y / 16));
        emit_byte(out, b64_encode_byte((y % 16) * 4));
        emit_byte(out, 61);
        proof {
            assert(out@ =~= mid + base64_of(pre));
        }
    } else {
        proof {
            assert(pre.len() == 0);
            assert(out@ =~= mid + base64_of(pre));
        }
    }
}

fn hex_digit_byte(m: u32) -> (r: u8)
    requires
        m < 16,
    ensures
        r == hex_digit(m as int),
{
    if m < 10 {
        48 + (m as u8)
    } else {
        87 + (m as u8)
    }
}

fn emit_u_escape(out: &mut Vec<u8>, m: u32)
    requires
        m < 65536,
    ensures
        final(out)@ == old(out)@ + u_escape(m as int),
{
    out.push(92);
    out.push(117);
    out.push(hex_digit_byte(m / 4096));
    out.push(hex_digit_byte((m / 256) % 16));
    out.push(hex_digit_byte((m / 16) % 16));
    out.push(hex_digit_byte(m % 16));
    proof {
        assert(out@ =~= old(out)@ + u_escape(m as int));
    }
}

/// Appends the JSON string literal for `s`, quotes included, to `out`.
fn emit_json_string(out: &mut Vec<u8>, s: &str)
    ensures
        final(out)@ == old(out)@ + json_string(s@),
{
    out.push(34);
    let ghost start = out@;
    let n = s.unicode_len();
    let mut i: usize = 0;
    proof {
        assert(s@.skip(0) =~= s@);
    }
    while i < n
        invariant
            i <= n,
            n == s@.len(),
            start + escape_seq(s@) == out@ + escape_seq(s@.skip(i as int)),
        decreases n - i,
    {
        let ghost pre = s@.skip(i as int);
        let ghost mid = out@;
        proof {
            assert(pre.len() > 0);
            assert(pre[0] == s@[i as int]);
            assert(pre.drop_first() =~= s@.skip(i as int + 1));
        }
        let c = s.get_char(i);
        let m = c as u32;
        if c == '"' {
            emit_byte(out, 92);
            emit_byte(out, 34);
        } else if c == '\\' {
            emit_byte(out, 92);
            emit_byte(out, 92);
        } else if 32 <= m && m < 127 {
            emit_byte(out, m as u8);
        } else if m < 65536 {
            emit_u_escape(out, m);
        } else {
            let v = m - 65536;
            emit_u_escape(out, 0xD800 + v / 1024);
            emit_u_escape(out, 0xDC00 + v % 1024);
        }
        proof {
            assert(out@ + escape_seq(s@.skip(i as int + 1)) =~= mid + escape_seq(pre));
        }
        i = i + 1;
    }
    proof {
        assert(s@.skip(n as int) =~= Seq::<char>::empty());
    }
    out.push(34);
    proof {
        assert(out@ =~= old(out)@ + json_string(s@));
    }
}

/// Appends one mapping member to `out`.
fn emit_entry(out: &mut Vec<u8>, field: CanonicalField, mapping: &ColumnMapping)
    requires
        mapping.wf(),
    ensures
        final(out)@ == old(out)@ + entry_json(field, mapping@),
{
    emit_json_string(out, field.name());
    emit_byte(out, 58);
    emit_json_string(out, mapping.column_for(field).as_str());
    proof {
        assert(out@ =~= old(out)@ + entry_json(field, mapping@));
    }
}

/// Appends the mapping object to `out`.
#[verifier::rlimit(60)]
fn emit_mapping(out: &mut Vec<u8>, mapping: &ColumnMapping)
    requires
        mapping.wf(),
    ensures
        final(out)@ == old(out)@ + mapping_json(mapping@),
{
    let ghost m = mapping@;
    emit_byte(out, 123);
    let ghost mut done: Seq<u8> = seq![123u8];
    emit_entry(out, CanonicalField::FileKey, mapping);
    proof {
        done = done + entry_json(CanonicalField::FileKey, m);
        assert(out@ =~= old(out)@ + done);
    }
    emit_byte(out, 44);
    proof {
        done = done + seq![44u8];
        assert(out@ =~= old(out)@ + done);
    }
    emit_entry(out, CanonicalField::Catalog, mapping);
    proof {
        done = done + entry_json(CanonicalField::Catalog, m);
        assert(out@ =~= old(out)@ + done);
    }
    emit_byte(out, 44);
    proof {
        done = done + seq![44u8];
        assert(out@ =~= old(out)@ + done);
    }
    emit_entry(out, CanonicalField::Brand, mapping);
    proof {
        done = done + entry_json(CanonicalField::Brand, m);
        assert(out@ =~= old(out)@ + done);
    }
    emit_byte(out, 44);
    proof {
        done = done + seq![44u8];
        assert(out@ =~= old(out)@ + done);
    }
    emit_entry(out, CanonicalField::Description, mapping);
    proof {
        done = done + entry_json(CanonicalField::Description, m);
        assert(out@ =~= old(out)@ + done);
    }
    emit_byte(out, 44);
    proof {
        done = done + seq![44u8];
        assert(out@ =~= old(out)@ + done);
    }
    emit_entry(out, CanonicalField::Quantity, mapping);
    proof {
        done = done + entry_json(CanonicalField::Quantity, m);
        assert(out@ =~= old(out)@ + done);
    }
    emit_byte(out, 44);
    proof {
        done = done + seq![44u8];
        assert(out@ =~= old(out)@ + done);
    }
    emit_entry(out, CanonicalField::Ecommerce, mapping);
    proof {
        done = done + entry_json(CanonicalField::Ecommerce, m);
        assert(out@ =~= old(out)@ + done);
    }
    emit_byte(out, 125);
    proof {
        done = done + seq![125u8];
        assert(out@ =~= old(out)@ + done);
        assert(done == mapping_json(m));
    }
}

/// Encodes the payload into its single wire message. The encoding is total:
/// every payload has a wire form, so no serialization error can arise here.
pub fn encode_payload(p: &SubmissionPayload) -> (r: Vec<u8>)
    requires
        p.mapping.wf(),
    ensures
        r@ == payload_wire(
            p.vendor_name@,
            p.password@,
            p.vendor_key.deep_view(),
            p.mapping@,
            p.file_bytes@,
        ),
{
    let mut out: Vec<u8> = Vec::new();
    emit_byte(&mut out, 123);
    let ghost mut done: Seq<u8> = seq![123u8];
    proof {
        assert(out@ =~= done);
    }
    emit_json_string(&mut out, "vendor_name");
    proof {
        done = done + json_string("vendor_name"@);
        assert(out@ =~= done);
    }
    emit_byte(&mut out, 58);
    proof {
        done = done + seq![58u8];
        assert(out@ =~= done);
    }
    emit_json_string(&mut out, p.vendor_name.as_str());
    proof {
        done = done + json_string(p.vendor_name@);
        assert(out@ =~= done);
    }
    emit_byte(&mut out, 44);
    proof {
        done = done + seq![44u8];
        assert(out@ =~= done);
    }
    emit_json_string(&mut out, "password");
    proof {
        done = done + json_string("password"@);
        assert(out@ =~= done);
    }
    emit_byte(&mut out, 58);
    proof {
        done = done + seq![58u8];
        assert(out@ =~= done);
    }
    emit_json_string(&mut out, p.password.as_str());
    proof {
        done = done + json_string(p.password@);
        assert(out@ =~= done);
    }
    emit_byte(&mut out, 44);
    proof {
        done = done + seq![44u8];
        assert(out@ =~= done);
    }
    emit_json_string(&mut out, "vendor_key");
    proof {
        done = done + json_string("vendor_key"@);
        assert(out@ =~= done);
    }
    emit_byte(&mut out, 58);
    proof {
        done = done + seq![58u8];
        assert(out@ =~= done);
    }
    match &p.vendor_key {
        Some(k) => {
            emit_json_string(&mut out, k.as_str());
        },
        None => {
            emit_byte(&mut out, 110);
            emit_byte(&mut out, 117);
            emit_byte(&mut out, 108);
            emit_byte(&mut out, 108);
        },
    }
    proof {
        done = done + key_json(p.vendor_key.deep_view());
        assert(out@ =~= done);
    }
    emit_byte(&mut out, 44);
    proof {
        done = done + seq![44u8];
        assert(out@ =~= done);
    }
    emit_json_string(&mut out, "file_mappings");
    proof {
        done = done + json_string("file_mappings"@);
        assert(out@ =~= done);
    }
    emit_byte(&mut out, 58);
    proof {
        done = done + seq![58u8];
        assert(out@ =~= done);
    }
    emit_mapping(&mut out, &p.mapping);
    proof {
        done = done + mapping_json(p.mapping@);
        assert(out@ =~= done);
    }
    emit_byte(&mut out, 44);
    proof {
        done = done + seq![44u8];
        assert(out@ =~= done);
    }
    emit_json_string(&mut out, "file_bytes");
    proof {
        done = done + json_string("file_bytes"@);
        assert(out@ =~= done);
    }
    emit_byte(&mut out, 58);
    proof {
        done = done + seq![58u8];
        assert(out@ =~= done);
    }
    emit_byte(&mut out, 34);
    proof {
        done = done + seq![34u8];
        assert(out@ =~= done);
    }
    emit_base64(&mut out, &p.file_bytes);
    proof {
        done = done + base64_of(p.file_bytes@);
        assert(out@ =~= done);
    }
    emit_byte(&mut out, 34);
    proof {
        done = done + seq![34u8];
        assert(out@ =~= done);
    }
    emit_byte(&mut out, 125);
    proof {
        done = done + seq![125u8];
        assert(out@ =~= done);
        assert(done == payload_wire(
            p.vendor_name@,
            p.password@,
            p.vendor_key.deep_view(),
            p.mapping@,
            p.file_bytes@,
        ));
    }
    out
}

} // verus!
