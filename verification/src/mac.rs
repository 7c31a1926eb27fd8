//! Hardware-address parsing: the textual `aa:bb:cc:dd:ee:ff` form is turned
//! into the fixed-width binary form the hypervisor expects.

use vstd::prelude::*;
use vstd::string::StrSliceExecFns;

verus! {

/// A hardware address in fixed-width binary form: exactly six octets.
#[derive(Debug, Clone)]
pub struct MacAddr {
    pub bytes: Vec<u8>,
}

impl MacAddr {
    pub open spec fn wf(&self) -> bool {
        self.bytes@.len() == 6
    }
}

pub open spec fn is_hex_digit(c: char) -> bool {
    ('0' <= c && c <= '9') || ('a' <= c && c <= 'f') || ('A' <= c && c <= 'F')
}

/// The numeric value of one hexadecimal digit.
pub open spec fn hex_val(c: char) -> int {
    if '0' <= c && c <= '9' {
        c as int - '0' as int
    } else if 'a' <= c && c <= 'f' {
        c as int - 'a' as int + 10
    } else {
        c as int - 'A' as int + 10
    }
}

/// What the character at position `i` of a well-formed hardware-address
/// string must be: a separator at every third position, a hex digit elsewhere.
pub open spec fn mac_char_ok(s: Seq<char>, i: int) -> bool {
    if i % 3 == 2 {
        s[i] == ':'
    } else {
        is_hex_digit(s[i])
    }
}

/// A well-formed hardware-address string: six two-digit hexadecimal groups
/// separated by colons, seventeen characters in all.
pub open spec fn mac_str_wf(s: Seq<char>) -> bool {
    s.len() == 17 && forall|i: int| 0 <= i < 17 ==> #[trigger] mac_char_ok(s, i)
}

/// The value of the `k`-th octet of a well-formed hardware-address string.
pub open spec fn mac_byte_at(s: Seq<char>, k: int) -> u8 {
    (hex_val(s[3 * k]) * 16 + hex_val(s[3 * k + 1])) as u8
}

/// The six octets encoded by a well-formed hardware-address string.
pub open spec fn mac_bytes(s: Seq<char>) -> Seq<u8> {
    Seq::new(6, |k: int| mac_byte_at(s, k))
}

/// The value of one hexadecimal digit, or `None` for any other character.
fn hex_digit_value(c: char) -> (r: Option<u8>)
    ensures
        r is Some <==> is_hex_digit(c),
        r matches Some(v) ==> v as int == hex_val(c),
{
    let u = c as u32;
    if 48 <= u && u <= 57 {
        Some((u - 48) as u8)
    } else if 97 <= u && u <= 102 {
        Some((u - 97 + 10) as u8)
    } else if 65 <= u && u <= 70 {
        Some((u - 65 + 10) as u8)
    } else {
        None
    }
}

/// Parses a textual hardware address into its binary form.
/// Returns `Some` exactly on well-formed `hh:hh:hh:hh:hh:hh` strings.
pub fn parse_mac(s: &str) -> (r: Option<MacAddr>)
    ensures
        r is Some <==> mac_str_wf(s@),
        r matches Some(m) ==> m.wf() && m.bytes@ == mac_bytes(s@),
{
    let n = s.unicode_len();
    if n != 17 {
        return None;
    }
    let mut bytes: Vec<u8> = Vec::new();
    let mut k: usize = 0;
    while k < 6
        invariant
            s@.len() == 17,
            k <= 6,
            bytes@.len() == k,
            forall|j: int| 0 <= j < k ==> bytes@[j] == mac_byte_at(s@, j),
            forall|i: int| 0 <= i < 3 * k && i < 17 ==> #[trigger] mac_char_ok(s@, i),
        decreases 6 - k,
    {
        let c0 = s.get_char(3 * k);
        let c1 = s.get_char(3 * k + 1);
        let v0 = match hex_digit_value(c0) {
            Some(v) => v,
            None => {
                assert(!mac_char_ok(s@, 3 * k as int));
                return None;
            },
        };
        let v1 = match hex_digit_value(c1) {
            Some(v) => v,
            None => {
                assert(!mac_char_ok(s@, 3 * k as int + 1));
                return None;
            },
        };
        if k < 5 {
            let sep = s.get_char(3 * k + 2);
            if sep != ':' {
                assert(!mac_char_ok(s@, 3 * k as int + 2));
                return None;
            }
        }
        bytes.push(v0 * 16 + v1);
        assert(bytes@[k as int] == mac_byte_at(s@, k as int));
        assert forall|i: int| 0 <= i < 3 * (k + 1) && i < 17 implies #[trigger] mac_char_ok(
            s@,
            i,
        ) by {
            if i == 3 * k {
                assert(i % 3 == 0);
                assert(mac_char_ok(s@, i));
            } else if i == 3 * k + 1 {
                assert(i % 3 == 1);
                assert(mac_char_ok(s@, i));
            } else if i == 3 * k + 2 {
                assert(i % 3 == 2);
                assert(mac_char_ok(s@, i));
            } else {
                assert(0 <= i < 3 * k);
            }
        }
        k += 1;
    }
    assert forall|i: int| 0 <= i < 17 implies #[trigger] mac_char_ok(s@, i) by {
        assert(mac_char_ok(s@, i));
    }
    assert(bytes@ =~= mac_bytes(s@));
    Some(MacAddr { bytes })
}

} // verus!
