//! The outbound wire frames, as bytes: a cell update is sent as the
//! JSON object `{"id":…,"name":…,"value":…}` and a kernel status as
//! `{"status":…}`, each field a JSON string. The frames are built here,
//! byte by byte, against a spec of the JSON string escaping; turning
//! the bytes into a websocket message is the network layer's job.

use vstd::prelude::*;

use crate::models::{KernelUpdate, RunCellUpdate};

verus! {

use vstd::string::StringSliceAdditionalSpecFns;
use vstd::utf8::encode_utf8;

/// The lowercase hex digit of `d` (for `d < 16`).
pub open spec fn spec_hex_digit(d: u8) -> u8 {
    if d < 10 {
        (48 + d) as u8
    } else {
        (87 + d) as u8
    }
}

/// The JSON escape of one UTF-8 byte: quote and backslash get a
/// backslash, the named control characters their short escapes, the
/// remaining control bytes a `\u00XX` escape, and every other byte —
/// continuation bytes of multi-byte characters included — stands as it
/// is.
pub open spec fn spec_escape_byte(b: u8) -> Seq<u8> {
    if b == 34 {  // " -> \"
        seq![92u8, 34u8]
    } else if b == 92 {  // \ -> \\
        seq![92u8, 92u8]
    } else if b == 8 {  // backspace -> \b
        seq![92u8, 98u8]
    } else if b == 12 {  // form feed -> \f
        seq![92u8, 102u8]
    } else if b == 10 {  // newline -> \n
        seq![92u8, 110u8]
    } else if b == 13 {  // carriage return -> \r
        seq![92u8, 114u8]
    } else if b == 9 {  // tab -> \t
        seq![92u8, 116u8]
    } else if b < 32 {  // other control bytes -> \u00XX
        seq![92u8, 117u8, 48u8, 48u8, spec_hex_digit(b / 16), spec_hex_digit(b % 16)]
    } else {
        seq![b]
    }
}

/// The JSON escape of a byte sequence.
pub open spec fn spec_escape(s: Seq<u8>) -> Seq<u8>
    decreases s.len(),
{
    if s.len() == 0 {
        Seq::empty()
    } else {
        spec_escape(s.drop_last()) + spec_escape_byte(s.last())
    }
}

/// A JSON string: a quote, the escaped bytes, a quote.
pub open spec fn spec_json_string(s: Seq<u8>) -> Seq<u8> {
    seq![34u8] + spec_escape(s) + seq![34u8]
}

/// The frame of a cell update: `{"id":` …, `"name":` …, `"value":` …,
/// `}`, the fixed parts spelled as their ASCII bytes.
pub open spec fn spec_update_frame(id: Seq<u8>, name: Seq<u8>, value: Seq<u8>) -> Seq<u8> {
    seq![123u8, 34u8, 105u8, 100u8, 34u8, 58u8]  // {"id":
        + spec_json_string(id) + seq![44u8, 34u8, 110u8, 97u8, 109u8, 101u8, 34u8, 58u8]  // ,"name":
        + spec_json_string(name) + seq![
        44u8,
        34u8,
        118u8,
        97u8,
        108u8,
        117u8,
        101u8,
        34u8,
        58u8,
    ]  // ,"value":
        + spec_json_string(value) + seq![125u8]  // }
}

/// The frame of a kernel status: `{"status":` … `}`.
pub open spec fn spec_status_frame(status: Seq<u8>) -> Seq<u8> {
    seq![123u8, 34u8, 115u8, 116u8, 97u8, 116u8, 117u8, 115u8, 34u8, 58u8]  // {"status":
        + spec_json_string(status) + seq![125u8]  // }
}

/// The lowercase hex digit of `d`.
fn hex_digit(d: u8) -> (r: u8)
    requires
        d < 16,
    ensures
        r == spec_hex_digit(d),
{
    if d < 10 {
        d + 48
    } else {
        d + 87
    }
}

/// Appends the JSON string of `s` — quote, escaped UTF-8 bytes, quote.
fn push_json_string(out: &mut Vec<u8>, s: &str)
    ensures
        final(out)@ == old(out)@ + spec_json_string(s.spec_bytes()),
{
    out.push(34);
    let b: &[u8] = s.as_bytes();
    let mut i: usize = 0;
    while i < b.len()
        invariant
            b@ == s.spec_bytes(),
            i <= b@.len(),
            out@ == old(out)@ + seq![34u8] + spec_escape(b@.subrange(0, i as int)),
        decreases b@.len() - i,
    {
        let c = b[i];
        if c == 34 {
            out.push(92);
            out.push(34);
        } else if c == 92 {
            out.push(92);
            out.push(92);
        } else if c == 8 {
            out.push(92);
            out.push(98);
        } else if c == 12 {
            out.push(92);
            out.push(102);
        } else if c == 10 {
            out.push(92);
            out.push(110);
        } else if c == 13 {
            out.push(92);
            out.push(114);
        } else if c == 9 {
            out.push(92);
            out.push(116);
        } else if c < 32 {
            out.push(92);
            out.push(117);
            out.push(48);
            out.push(48);
            out.push(hex_digit(c / 16));
            out.push(hex_digit(c % 16));
        } else {
            out.push(c);
        }
        i = i + 1;
        proof {
            let pre = b@.subrange(0, i - 1);
            let cur = b@.subrange(0, i as int);
            assert(cur.drop_last() =~= pre);
            assert(cur.last() == c);
            assert(spec_escape(cur) == spec_escape(pre) + spec_escape_byte(c));
            assert(out@ =~= old(out)@ + seq![34u8] + spec_escape(cur));
        }
    }
    proof {
        assert(b@.subrange(0, b@.len() as int) =~= b@);
    }
    out.push(34);
    proof {
        assert(out@ =~= old(out)@ + spec_json_string(s.spec_bytes()));
    }
}

/// The wire frame of a cell update.
pub fn encode_cell_update(u: &RunCellUpdate) -> (r: Vec<u8>)
    ensures
        r@ == spec_update_frame(encode_utf8(u@.id), encode_utf8(u@.name), encode_utf8(u@.value)),
{
    let mut out: Vec<u8> = Vec::new();
    out.push(123);
    out.push(34);
    out.push(105);
    out.push(100);
    out.push(34);
    out.push(58);
    proof {
        assert(out@ =~= seq![123u8, 34u8, 105u8, 100u8, 34u8, 58u8]);
    }
    push_json_string(&mut out, u.id.as_str());
    let ghost after_id = out@;
    out.push(44);
    out.push(34);
    out.push(110);
    out.push(97);
    out.push(109);
    out.push(101);
    out.push(34);
    out.push(58);
    proof {
        assert(out@ =~= after_id + seq![44u8, 34u8, 110u8, 97u8, 109u8, 101u8, 34u8, 58u8]);
    }
    push_json_string(&mut out, u.name.as_str());
    let ghost after_name = out@;
    out.push(44);
    out.push(34);
    out.push(118);
    out.push(97);
    out.push(108);
    out.push(117);
    out.push(101);
    out.push(34);
    out.push(58);
    proof {
        assert(out@ =~= after_name + seq![
            44u8,
            34u8,
            118u8,
            97u8,
            108u8,
            117u8,
            101u8,
            34u8,
            58u8,
        ]);
    }
    push_json_string(&mut out, u.value.as_str());
    out.push(125);
    proof {
        assert(out@ =~= spec_update_frame(
            encode_utf8(u@.id),
            encode_utf8(u@.name),
            encode_utf8(u@.value),
        ));
    }
    out
}

/// The wire frame of a kernel status.
pub fn encode_kernel_update(k: &KernelUpdate) -> (r: Vec<u8>)
    ensures
        r@ == spec_status_frame(encode_utf8(k@)),
{
    let mut out: Vec<u8> = Vec::new();
    out.push(123);
    out.push(34);
    out.push(115);
    out.push(116);
    out.push(97);
    out.push(116);
    out.push(117);
    out.push(115);
    out.push(34);
    out.push(58);
    proof {
        assert(out@ =~= seq![123u8, 34u8, 115u8, 116u8, 97u8, 116u8, 117u8, 115u8, 34u8, 58u8]);
    }
    push_json_string(&mut out, k.status.as_str());
    out.push(125);
    proof {
        assert(out@ =~= spec_status_frame(encode_utf8(k@)));
    }
    out
}

} // verus!
