//! Verified text rendering: decimal numbers, the app's view-model line, and
//! the wire representation of key-value operations.
//!
//! Keys are spliced verbatim. A binary value is shown as its bytes when it
//! decodes as UTF-8, quoted, and truncated to its first fifty characters
//! (never splitting a character); otherwise only its length is shown.

use vstd::prelude::*;
use vstd::string::{StrSliceExecFns, StringExecFns};
use vstd::utf8::{decode_utf8, valid_utf8};

use crate::event::ModelView;
use crate::kv::{KeyValueOperation, KvOpView};

verus! {

/// The character for a single decimal digit.
pub open spec fn digit_char(d: nat) -> char {
    if d == 0 {
        '0'
    } else if d == 1 {
        '1'
    } else if d == 2 {
        '2'
    } else if d == 3 {
        '3'
    } else if d == 4 {
        '4'
    } else if d == 5 {
        '5'
    } else if d == 6 {
        '6'
    } else if d == 7 {
        '7'
    } else if d == 8 {
        '8'
    } else {
        '9'
    }
}

/// The decimal rendering of a natural number, most significant digit first.
pub open spec fn dec_str(n: nat) -> Seq<char>
    decreases n,
{
    if n < 10 {
        seq![digit_char(n)]
    } else {
        dec_str(n / 10) + seq![digit_char(n % 10)]
    }
}

/// The decimal rendering of a signed number: a minus sign, then the
/// magnitude.
pub open spec fn dec_str_i32(n: i32) -> Seq<char> {
    if n < 0 {
        seq!['-'] + dec_str((-(n as int)) as nat)
    } else {
        dec_str(n as nat)
    }
}

fn push_digit(d: u64, out: &mut String)
    requires
        d < 10,
    ensures
        final(out)@ == old(out)@ + seq![digit_char(d as nat)],
{
    let lit: &str = match d {
        0 => "0",
        1 => "1",
        2 => "2",
        3 => "3",
        4 => "4",
        5 => "5",
        6 => "6",
        7 => "7",
        8 => "8",
        _ => "9",
    };
    proof {
        reveal_strlit("0");
        reveal_strlit("1");
        reveal_strlit("2");
        reveal_strlit("3");
        reveal_strlit("4");
        reveal_strlit("5");
        reveal_strlit("6");
        reveal_strlit("7");
        reveal_strlit("8");
        reveal_strlit("9");
        assert(lit@ =~= seq![digit_char(d as nat)]);
    }
    out.append(lit);
}

/// Append the decimal rendering of `n`.
pub fn push_dec_u64(n: u64, out: &mut String)
    ensures
        final(out)@ == old(out)@ + dec_str(n as nat),
    decreases n,
{
    if n < 10 {
        push_digit(n, out);
    } else {
        push_dec_u64(n / 10, out);
        push_digit(n % 10, out);
        proof {
            assert(out@ =~= old(out)@ + dec_str(n as nat));
        }
    }
}

/// Append the decimal rendering of a signed number.
pub fn push_dec_i32(n: i32, out: &mut String)
    ensures
        final(out)@ == old(out)@ + dec_str_i32(n),
{
    if n < 0 {
        proof {
            reveal_strlit("-");
            assert("-"@ =~= seq!['-']);
        }
        out.append("-");
        let magnitude: u64 = (-(n as i64)) as u64;
        push_dec_u64(magnitude, out);
        proof {
            assert(out@ =~= old(out)@ + dec_str_i32(n));
        }
    } else {
        push_dec_u64(n as u64, out);
    }
}

/// The line the app's `view` projects out of its model.
pub open spec fn success_line(m: ModelView) -> Seq<char> {
    "Success: "@ + bool_str(m.successful) + ", Value: "@ + dec_str_i32(m.value)
}

pub open spec fn bool_str(b: bool) -> Seq<char> {
    if b {
        "true"@
    } else {
        "false"@
    }
}

/// Render `Success: {successful}, Value: {value}`.
pub fn format_success_line(successful: bool, value: i32) -> (s: String)
    ensures
        s@ == success_line(ModelView { value, keys: Seq::empty(), cursor: 0, successful }),
{
    let mut s = String::new();
    s.append("Success: ");
    if successful {
        s.append("true");
    } else {
        s.append("false");
    }
    s.append(", Value: ");
    push_dec_i32(value, &mut s);
    proof {
        assert(s@ =~= "Success: "@ + bool_str(successful) + ", Value: "@ + dec_str_i32(value));
    }
    s
}

/// Check whether the bytes at `i` begin a well-formed UTF-8 scalar; on
/// success return its width in bytes.
fn check_first_scalar(v: &Vec<u8>, i: usize) -> (r: Option<usize>)
    requires
        i < v@.len(),
    ensures
        r matches Some(w) ==> {
            &&& vstd::utf8::valid_first_scalar(v@.skip(i as int))
            &&& 1 <= w <= 4
            &&& i + w <= v@.len()
            &&& vstd::utf8::length_of_first_scalar(v@.skip(i as int)) == w
        },
        r is None ==> !vstd::utf8::valid_first_scalar(v@.skip(i as int)),
{
    let ghost s = v@.skip(i as int);
    proof {
        assert(s[0] == v@[i as int]);
    }
    let n = v.len();
    let b0 = v[i];
    if b0 <= 0x7f {
        proof {
            assert(b0 & 0x7f <= 0x7f) by (bit_vector);
        }
        Option::Some(1)
    } else if 0xc0 <= b0 && b0 <= 0xdf {
        if i + 1 < n {
            let b1 = v[i + 1];
            proof {
                assert(s[1] == v@[i + 1]);
            }
            if 0x80 <= b1 && b1 <= 0xbf {
                let cp: u32 = (((b0 & 0x1f) as u32) << 6u32) | ((b1 & 0x3f) as u32);
                if 0x80 <= cp && !(0xd800 <= cp && cp <= 0xdfff) {
                    Option::Some(2)
                } else {
                    Option::None
                }
            } else {
                Option::None
            }
        } else {
            Option::None
        }
    } else if 0xe0 <= b0 && b0 <= 0xef {
        if n - i > 2 {
            let b1 = v[i + 1];
            let b2 = v[i + 2];
            proof {
                assert(s[1] == v@[i + 1]);
                assert(s[2] == v@[i + 2]);
            }
            if 0x80 <= b1 && b1 <= 0xbf && 0x80 <= b2 && b2 <= 0xbf {
                let cp: u32 = (((b0 & 0x0f) as u32) << 12u32) | (((b1 & 0x3f) as u32) << 6u32)
                    | ((b2 & 0x3f) as u32);
                if 0x800 <= cp && !(0xd800 <= cp && cp <= 0xdfff) {
                    Option::Some(3)
                } else {
                    Option::None
                }
            } else {
                Option::None
            }
        } else {
            Option::None
        }
    } else if 0xf0 <= b0 && b0 <= 0xf7 {
        if n - i > 3 {
            let b1 = v[i + 1];
            let b2 = v[i + 2];
            let b3 = v[i + 3];
            proof {
                assert(s[1] == v@[i + 1]);
                assert(s[2] == v@[i + 2]);
                assert(s[3] == v@[i + 3]);
            }
            if 0x80 <= b1 && b1 <= 0xbf && 0x80 <= b2 && b2 <= 0xbf && 0x80 <= b3 && b3 <= 0xbf {
                let cp: u32 = (((b0 & 0x07) as u32) << 18u32) | (((b1 & 0x3f) as u32) << 12u32)
                    | (((b2 & 0x3f) as u32) << 6u32) | ((b3 & 0x3f) as u32);
                if 0x10000 <= cp && cp <= 0x10ffff {
                    Option::Some(4)
                } else {
                    Option::None
                }
            } else {
                Option::None
            }
        } else {
            Option::None
        }
    } else {
        Option::None
    }
}

/// Decide, byte by byte, whether `v` is a well-formed UTF-8 encoding.
pub fn check_utf8(v: &Vec<u8>) -> (b: bool)
    ensures
        b == valid_utf8(v@),
{
    let n = v.len();
    let mut i: usize = 0;
    proof {
        assert(v@.skip(0) =~= v@);
    }
    while i < n
        invariant
            i <= n,
            n == v@.len(),
            valid_utf8(v@) == valid_utf8(v@.skip(i as int)),
        decreases n - i,
    {
        let ghost s = v@.skip(i as int);
        match check_first_scalar(v, i) {
            Option::Some(w) => {
                proof {
                    assert(valid_utf8(s) == (vstd::utf8::valid_first_scalar(s) && valid_utf8(
                        vstd::utf8::pop_first_scalar(s),
                    )));
                    assert(vstd::utf8::pop_first_scalar(s) =~= v@.skip(i + w as int));
                }
                i += w;
            },
            Option::None => {
                proof {
                    assert(valid_utf8(s) == (vstd::utf8::valid_first_scalar(s) && valid_utf8(
                        vstd::utf8::pop_first_scalar(s),
                    )));
                }
                return false;
            },
        }
    }
    proof {
        assert(v@.skip(i as int) =~= Seq::<u8>::empty());
        assert(valid_utf8(v@.skip(i as int)));
    }
    true
}

/// Relies on std's `str::from_utf8`: on UTF-8 input — all that the caller,
/// gated by [`check_utf8`], ever passes — it returns those same bytes as a
/// `&str`, whose characters vstd's `decode_utf8` states.
#[verifier::external_body]
fn utf8_str<'a>(v: &'a [u8]) -> (r: &'a str)
    requires
        valid_utf8(v@),
    ensures
        r@ == decode_utf8(v@),
{
    core::str::from_utf8(v).unwrap()
}

/// How a byte payload is shown: quoted text when it decodes as UTF-8 (its
/// first fifty characters, with a trailing ellipsis when truncated), else a
/// placeholder with the byte count.
pub open spec fn value_repr(value: Seq<u8>) -> Seq<char> {
    if valid_utf8(value) {
        let chars = decode_utf8(value);
        if chars.len() <= 50 {
            seq!['"'] + chars + seq!['"']
        } else {
            seq!['"'] + chars.take(50) + "\"..."@
        }
    } else {
        "<binary data - "@ + dec_str(value.len()) + " bytes>"@
    }
}

fn push_value_repr(value: &Vec<u8>, out: &mut String)
    ensures
        final(out)@ == old(out)@ + value_repr(value@),
{
    proof {
        reveal_strlit("\"");
        assert("\""@ =~= seq!['"']);
    }
    if check_utf8(value) {
        let s: &str = utf8_str(value.as_slice());
        let n = s.unicode_len();
        if n <= 50 {
            out.append("\"");
            out.append(s);
            out.append("\"");
            proof {
                assert(out@ =~= old(out)@ + value_repr(value@));
            }
        } else {
            let prefix = s.substring_char(0, 50);
            out.append("\"");
            out.append(prefix);
            out.append("\"...");
            proof {
                assert(prefix@ =~= decode_utf8(value@).take(50));
                assert(out@ =~= old(out)@ + value_repr(value@));
            }
        }
    } else {
        out.append("<binary data - ");
        push_dec_u64(value.len() as u64, out);
        out.append(" bytes>");
        proof {
            assert(out@ =~= old(out)@ + value_repr(value@));
        }
    }
}

/// The wire representation of an operation, as shown to a debugging host.
/// Operations carry their wire labels: the store's write is labelled `Set`.
pub open spec fn op_repr(op: KvOpView) -> Seq<char> {
    match op {
        KvOpView::Get { key } => "Get { key: \""@ + key + "\" }"@,
        KvOpView::Put { key, value } => "Set { key: \""@ + key + "\", value: "@ + value_repr(
            value,
        ) + " }"@,
        KvOpView::Delete { key } => "Delete { key: \""@ + key + "\" }"@,
        KvOpView::Exists { key } => "Exists { key: \""@ + key + "\" }"@,
        KvOpView::ListKeys { prefix, cursor } => "ListKeys { prefix: \""@ + prefix
            + "\", cursor: "@ + dec_str(cursor as nat) + " }"@,
    }
}

impl KeyValueOperation {
    /// Render this operation for a debugging host, exactly as [`op_repr`]
    /// states.
    pub fn debug_repr(&self) -> (s: String)
        ensures
            s@ == op_repr(self@),
    {
        let mut s = String::new();
        match self {
            KeyValueOperation::Get { key } => {
                s.append("Get { key: \"");
                s.append(key.as_str());
                s.append("\" }");
            },
            KeyValueOperation::Put { key, value } => {
                s.append("Set { key: \"");
                s.append(key.as_str());
                s.append("\", value: ");
                push_value_repr(value, &mut s);
                s.append(" }");
            },
            KeyValueOperation::Delete { key } => {
                s.append("Delete { key: \"");
                s.append(key.as_str());
                s.append("\" }");
            },
            KeyValueOperation::Exists { key } => {
                s.append("Exists { key: \"");
                s.append(key.as_str());
                s.append("\" }");
            },
            KeyValueOperation::ListKeys { prefix, cursor } => {
                s.append("ListKeys { prefix: \"");
                s.append(prefix.as_str());
                s.append("\", cursor: ");
                push_dec_u64(*cursor, &mut s);
                s.append(" }");
            },
        }
        proof {
            assert(s@ =~= op_repr(self@));
        }
        s
    }
}

} // verus!
