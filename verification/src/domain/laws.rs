use vstd::prelude::*;

use crate::domain::hash::{hex_digit, lower_hex, md5_digest, payload_hash_of};
use crate::domain::state::{allowed_transition, EventStatus};

verus! {

/// Each status's successors in the lifecycle: `Received` and `FailedRetry`
/// go only to `Processing`; `Processing` goes only to `Completed`,
/// `FailedRetry` or `Failed`; `Completed` and `Failed` go nowhere.
pub proof fn law_lifecycle_successors(from: EventStatus, to: EventStatus)
    ensures
        from == EventStatus::Received ==> (allowed_transition(from, to) <==> to
            == EventStatus::Processing),
        from == EventStatus::FailedRetry ==> (allowed_transition(from, to) <==> to
            == EventStatus::Processing),
        from == EventStatus::Processing ==> (allowed_transition(from, to) <==> (to
            == EventStatus::Completed || to == EventStatus::FailedRetry || to
            == EventStatus::Failed)),
        from == EventStatus::Completed ==> !allowed_transition(from, to),
        from == EventStatus::Failed ==> !allowed_transition(from, to),
{
}

/// `lower_hex` writes two characters per byte: at `2i` and `2i + 1` the
/// digits of the high and low nibble of byte `i`.
proof fn lemma_lower_hex_layout(b: Seq<u8>)
    ensures
        lower_hex(b).len() == 2 * b.len(),
        forall|i: int|
            0 <= i < b.len() ==> lower_hex(b)[2 * i] == hex_digit(#[trigger] b[i] as int / 16)
                && lower_hex(b)[2 * i + 1] == hex_digit(b[i] as int % 16),
    decreases b.len(),
{
    if b.len() > 0 {
        lemma_lower_hex_layout(b.drop_last());
        assert forall|i: int| 0 <= i < b.len() implies lower_hex(b)[2 * i] == hex_digit(
            #[trigger] b[i] as int / 16,
        ) && lower_hex(b)[2 * i + 1] == hex_digit(b[i] as int % 16) by {
            if i < b.len() - 1 {
                assert(b.drop_last()[i] == b[i]);
            }
        }
    }
}

/// The hash recorded for a payload is the MD5 digest of all of the payload
/// text's UTF-8 bytes, written as lowercase hexadecimal: two characters per
/// digest byte, high nibble first, from the digits `0123456789abcdef`.
pub proof fn law_payload_hash_is_hex_md5(text: Seq<char>)
    ensures
        ({
            let d = md5_digest(vstd::utf8::encode_utf8(text));
            let h = payload_hash_of(text);
            let digits = "0123456789abcdef"@;
            &&& h.len() == 2 * d.len()
            &&& forall|i: int|
                0 <= i < d.len() ==> h[2 * i] == digits[#[trigger] d[i] as int / 16] && h[2 * i
                    + 1] == digits[d[i] as int % 16]
        }),
{
    let d = md5_digest(vstd::utf8::encode_utf8(text));
    lemma_lower_hex_layout(d);
    reveal_strlit("0123456789abcdef");
    let digits = "0123456789abcdef"@;
    assert forall|n: int| 0 <= n < 16 implies hex_digit(n) == #[trigger] digits[n] by {
        if n == 0 {} else if n == 1 {} else if n == 2 {} else if n == 3 {} else if n == 4 {}
        else if n == 5 {} else if n == 6 {} else if n == 7 {} else if n == 8 {} else if n == 9 {}
        else if n == 10 {} else if n == 11 {} else if n == 12 {} else if n == 13 {}
        else if n == 14 {} else {}
    }
    assert forall|i: int| 0 <= i < d.len() implies payload_hash_of(text)[2 * i] == digits[
        #[trigger] d[i] as int / 16] && payload_hash_of(text)[2 * i + 1] == digits[d[i] as int % 16] by {
        assert(hex_digit(d[i] as int / 16) == digits[d[i] as int / 16]);
        assert(hex_digit(d[i] as int % 16) == digits[d[i] as int % 16]);
    }
}

} // verus!
