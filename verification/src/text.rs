//! Identifiers and numerals as text.

use vstd::prelude::*;
use vstd::utf8::{encode_utf8, encode_utf8_decode_utf8};

verus! {

/// The prefix that marks an identifier of the default namespace.
pub const NAMESPACE: &'static str = "minecraft:";

/// The ten digits, in order.
pub const DIGITS: &'static str = "0123456789";

/// Whether `id` begins with the namespace prefix.
pub open spec fn has_namespace(id: Seq<char>) -> bool {
    NAMESPACE@.is_prefix_of(id)
}

/// `id` without its namespace prefix; an identifier that has none is left as it is.
pub open spec fn stripped(id: Seq<char>) -> Seq<char> {
    if has_namespace(id) {
        id.skip(NAMESPACE@.len() as int)
    } else {
        id
    }
}

/// The decimal numeral of `n`, without leading zeros.
pub open spec fn decimal(n: nat) -> Seq<char>
    decreases n,
{
    if n < 10 {
        seq![DIGITS@[n as int]]
    } else {
        decimal(n / 10).push(DIGITS@[(n % 10) as int])
    }
}

/// Whether two texts hold the same characters.
pub fn same_text(a: &str, b: &str) -> (same: bool)
    ensures
        same == (a@ == b@),
{
    let left = a.as_bytes();
    let right = b.as_bytes();
    proof {
        encode_utf8_decode_utf8(a@);
        encode_utf8_decode_utf8(b@);
    }
    if left.len() != right.len() {
        return false;
    }
    let mut i: usize = 0;
    while i < left.len()
        invariant
            i <= left.len(),
            left.len() == right.len(),
            left@ == encode_utf8(a@),
            right@ == encode_utf8(b@),
            forall|j: int| 0 <= j < i ==> left@[j] == right@[j],
        decreases left.len() - i,
    {
        if left[i] != right[i] {
            return false;
        }
        i += 1;
    }
    assert(left@ =~= right@);
    true
}

/// Removes the namespace prefix from an identifier, where it has one.
pub fn strip_namespace(id: &str) -> (bare: String)
    ensures
        bare@ == stripped(id@),
{
    proof {
        reveal_strlit("minecraft:");
    }
    let len = id.unicode_len();
    if len >= 10 && same_text(id.substring_char(0, 10), NAMESPACE) {
        id.substring_char(10, len).to_owned()
    } else {
        id.to_owned()
    }
}

/// Writes `n` as a decimal numeral.
pub fn decimal_string(n: u64) -> (numeral: String)
    ensures
        numeral@ == decimal(n as nat),
    decreases n,
{
    proof {
        reveal_strlit("0123456789");
    }
    if n < 10 {
        let d = n as usize;
        let digit = DIGITS.substring_char(d, d + 1);
        digit.to_owned()
    } else {
        let mut numeral = decimal_string(n / 10);
        let d = (n % 10) as usize;
        let digit = DIGITS.substring_char(d, d + 1);
        numeral.append(digit);
        numeral
    }
}

} // verus!
