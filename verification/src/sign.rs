//! The signed request builder: given the signing token, a timestamp and a
//! serialized business payload, it produces the exact parameter set the
//! gateway checks. The signature is a keyed digest over the concatenation
//! `token & timestamp & app_key & payload`; the gateway validates it
//! bit-exactly, so the algorithm and its constants are pinned, not tuned.
//!
//! Building the request is a pure function: no I/O, no shared state, and
//! identical inputs always yield the identical signature.

use vstd::prelude::*;

use vstd::arithmetic::div_mod::{
    lemma_mod_bound, lemma_mod_equivalence, lemma_mul_mod_noop_left, lemma_mul_mod_noop_right,
    lemma_small_mod,
};

verus! {

/// The fixed application key the gateway expects in every request.
pub open spec fn spec_app_key() -> Seq<char> {
    "12574478"@
}

/// The decimal digit characters, lowest first: `'0' + d`.
pub open spec fn spec_digit_char(d: int) -> char {
    ((d + 48) as u8) as char
}

/// The decimal text of `n`, most significant digit first.
pub open spec fn spec_digits(n: int) -> Seq<char>
    decreases n,
{
    if n < 10 {
        seq![spec_digit_char(if n < 0 { 0 } else { n % 10 })]
    } else {
        spec_digits(n / 10).push(spec_digit_char(n % 10))
    }
}

/// One step of the pinned digest: multiply-and-add over the character's
/// code point, modulo 2^64.
pub open spec fn spec_digest_step(h: int, c: char) -> int {
    (h * 131 + (c as u32)) % 0x1_0000_0000_0000_0000
}

/// The digest of `s` from position `i` on, starting from accumulator `h`.
pub open spec fn spec_digest_from(s: Seq<char>, i: int, h: int) -> int
    decreases s.len() - i,
{
    if i < 0 || i >= s.len() {
        h
    } else {
        spec_digest_from(s, i + 1, spec_digest_step(h, s[i]))
    }
}

/// The pinned one-way digest of a character sequence.
pub open spec fn spec_digest(s: Seq<char>) -> int {
    spec_digest_from(s, 0, 5381)
}

/// The exact text that is digested for a request: token, timestamp,
/// application key and serialized payload, joined by `&`.
pub open spec fn spec_signing_input(token: Seq<char>, timestamp_ms: u64, payload: Seq<char>) -> Seq<
    char,
> {
    token + "&"@ + spec_digits(timestamp_ms as int) + "&"@ + spec_app_key() + "&"@ + payload
}

/// The signature the gateway validates for `(token, timestamp, payload)`.
pub open spec fn spec_sign(token: Seq<char>, timestamp_ms: u64, payload: Seq<char>) -> int {
    spec_digest(spec_signing_input(token, timestamp_ms, payload))
}

/// Which RPC is addressed, and under which interface version.
pub struct EndpointMeta {
    pub api: String,
    pub version: String,
}

/// Everything the wire layer puts into the request's query parameters.
pub struct SignedRequest {
    /// The digest of the signing input, as the gateway checks it.
    pub sign: u64,
    pub timestamp_ms: u64,
    pub app_key: String,
    pub api_version: String,
    /// The serialized payload, exactly the text that was signed.
    pub data: String,
}

/// The Signed Request Builder is deterministic: the signature is a
/// function of `(token, timestamp_ms, payload)` alone, so identical
/// inputs always yield the identical signature.
pub proof fn lemma_signature_deterministic(
    token1: Seq<char>,
    ts1: u64,
    payload1: Seq<char>,
    token2: Seq<char>,
    ts2: u64,
    payload2: Seq<char>,
)
    requires
        token1 == token2,
        ts1 == ts2,
        payload1 == payload2,
    ensures
        spec_sign(token1, ts1, payload1) == spec_sign(token2, ts2, payload2),
{
}

/// The digest's multiplier is odd, so multiplying by it is invertible
/// modulo 2^64: a product that vanishes modulo 2^64 forces a vanishing
/// factor.
proof fn lemma_mul131_nonzero(d: int)
    requires
        0 < d < 0x1_0000_0000_0000_0000,
    ensures
        (131 * d) % 0x1_0000_0000_0000_0000 != 0,
{
    let m: int = 0x1_0000_0000_0000_0000;
    let inv: int = 0x3e88cb3c9484e2b;
    if (131 * d) % m == 0 {
        assert((131 * inv) % m == 1);
        lemma_mul_mod_noop_right(inv, 131 * d, m);
        assert((inv * (131 * d)) % m == 0);
        assert(inv * (131 * d) == (inv * 131) * d) by (nonlinear_arith);
        lemma_mul_mod_noop_left(inv * 131, d, m);
        assert((1 * d) % m == 0);
        lemma_small_mod(d as nat, m as nat);
        assert(d == 0);
    }
}

/// One digest step keeps its accumulator within the modulus.
proof fn lemma_step_in_range(h: int, c: char)
    requires
        0 <= h,
    ensures
        0 <= spec_digest_step(h, c) < 0x1_0000_0000_0000_0000,
{
    lemma_mod_bound(131 * h + (c as u32), 0x1_0000_0000_0000_0000);
}

/// One digest step with the same character sends different accumulators
/// to different values.
proof fn lemma_step_acc_injective(h1: int, h2: int, c: char)
    requires
        0 <= h1 < 0x1_0000_0000_0000_0000,
        0 <= h2 < 0x1_0000_0000_0000_0000,
        h1 != h2,
    ensures
        spec_digest_step(h1, c) != spec_digest_step(h2, c),
{
    let m: int = 0x1_0000_0000_0000_0000;
    if spec_digest_step(h1, c) == spec_digest_step(h2, c) {
        lemma_mod_equivalence(131 * h1 + (c as u32), 131 * h2 + (c as u32), m);
        if h1 > h2 {
            lemma_mul131_nonzero(h1 - h2);
        } else {
            lemma_mod_equivalence(131 * h2 + (c as u32), 131 * h1 + (c as u32), m);
            lemma_mul131_nonzero(h2 - h1);
        }
    }
}

/// One digest step from the same accumulator with different characters
/// yields different values.
proof fn lemma_step_char_injective(h: int, c1: char, c2: char)
    requires
        0 <= h,
        c1 != c2,
    ensures
        spec_digest_step(h, c1) != spec_digest_step(h, c2),
{
    let m: int = 0x1_0000_0000_0000_0000;
    if spec_digest_step(h, c1) == spec_digest_step(h, c2) {
        lemma_mod_equivalence(131 * h + (c1 as u32), 131 * h + (c2 as u32), m);
        if (c1 as u32) > (c2 as u32) {
            let d: int = (c1 as u32) - (c2 as u32);
            lemma_small_mod(d as nat, m as nat);
        } else {
            lemma_mod_equivalence(131 * h + (c2 as u32), 131 * h + (c1 as u32), m);
            let d: int = (c2 as u32) - (c1 as u32);
            lemma_small_mod(d as nat, m as nat);
        }
    }
}

/// The digest from position `i` on reads only the characters from `i`
/// on.
proof fn lemma_digest_from_suffix_equal(s1: Seq<char>, s2: Seq<char>, i: int, h: int)
    requires
        s1.len() == s2.len(),
        0 <= i,
        forall|j: int| i <= j < s1.len() ==> s1[j] == s2[j],
    ensures
        spec_digest_from(s1, i, h) == spec_digest_from(s2, i, h),
    decreases s1.len() - i,
{
    if i < s1.len() {
        lemma_digest_from_suffix_equal(s1, s2, i + 1, spec_digest_step(h, s1[i]));
    }
}

/// The digest from any position is injective in its accumulator.
proof fn lemma_digest_from_acc_injective(s: Seq<char>, i: int, h1: int, h2: int)
    requires
        0 <= i,
        0 <= h1 < 0x1_0000_0000_0000_0000,
        0 <= h2 < 0x1_0000_0000_0000_0000,
        h1 != h2,
    ensures
        spec_digest_from(s, i, h1) != spec_digest_from(s, i, h2),
    decreases s.len() - i,
{
    if i < s.len() {
        lemma_step_acc_injective(h1, h2, s[i]);
        lemma_step_in_range(h1, s[i]);
        lemma_step_in_range(h2, s[i]);
        lemma_digest_from_acc_injective(
            s,
            i + 1,
            spec_digest_step(h1, s[i]),
            spec_digest_step(h2, s[i]),
        );
    }
}

/// The digest from position `i` tells apart two texts that agree
/// everywhere from `i` on except at one position.
proof fn lemma_digest_from_single_change(s1: Seq<char>, s2: Seq<char>, i: int, k: int, h: int)
    requires
        s1.len() == s2.len(),
        0 <= i <= k < s1.len(),
        0 <= h < 0x1_0000_0000_0000_0000,
        s1[k] != s2[k],
        forall|j: int| i <= j < s1.len() && j != k ==> s1[j] == s2[j],
    ensures
        spec_digest_from(s1, i, h) != spec_digest_from(s2, i, h),
    decreases k - i,
{
    if i == k {
        let g1 = spec_digest_step(h, s1[k]);
        let g2 = spec_digest_step(h, s2[k]);
        lemma_step_char_injective(h, s1[k], s2[k]);
        lemma_step_in_range(h, s1[k]);
        lemma_step_in_range(h, s2[k]);
        lemma_digest_from_suffix_equal(s1, s2, k + 1, g2);
        lemma_digest_from_acc_injective(s1, k + 1, g1, g2);
    } else {
        lemma_step_in_range(h, s1[i]);
        lemma_digest_from_single_change(s1, s2, i + 1, k, spec_digest_step(h, s1[i]));
    }
}

/// The pinned digest is sensitive to any single-character substitution:
/// two equal-length texts that differ in exactly one position digest
/// differently. (Edits that change the length remain a matter of
/// collision improbability, not proof.)
pub proof fn lemma_digest_single_change(s1: Seq<char>, s2: Seq<char>, k: int)
    requires
        s1.len() == s2.len(),
        0 <= k < s1.len(),
        s1[k] != s2[k],
        forall|j: int| 0 <= j < s1.len() && j != k ==> s1[j] == s2[j],
    ensures
        spec_digest(s1) != spec_digest(s2),
{
    lemma_digest_from_single_change(s1, s2, 0, k, 5381);
}

/// A single-character substitution anywhere between a shared prefix and
/// a shared suffix changes the digest of the whole.
pub proof fn lemma_digest_change_between(
    pre: Seq<char>,
    x1: Seq<char>,
    x2: Seq<char>,
    suf: Seq<char>,
    k: int,
)
    requires
        x1.len() == x2.len(),
        0 <= k < x1.len(),
        x1[k] != x2[k],
        forall|j: int| 0 <= j < x1.len() && j != k ==> x1[j] == x2[j],
    ensures
        spec_digest(pre + x1 + suf) != spec_digest(pre + x2 + suf),
{
    let s1 = pre + x1 + suf;
    let s2 = pre + x2 + suf;
    let p = pre.len() + k;
    assert(s1[p] == x1[k]);
    assert(s2[p] == x2[k]);
    assert forall|j: int| 0 <= j < s1.len() && j != p implies s1[j] == s2[j] by {
        if j < pre.len() {
            assert(s1[j] == pre[j]);
            assert(s2[j] == pre[j]);
        } else if j < pre.len() + x1.len() {
            assert(s1[j] == x1[j - pre.len()]);
            assert(s2[j] == x2[j - pre.len()]);
        } else {
            assert(s1[j] == suf[j - pre.len() - x1.len()]);
            assert(s2[j] == suf[j - pre.len() - x2.len()]);
        }
    }
    lemma_digest_single_change(s1, s2, p);
}

/// A single-character substitution in the token changes the signature.
pub proof fn lemma_sign_token_change(
    token1: Seq<char>,
    token2: Seq<char>,
    timestamp_ms: u64,
    payload: Seq<char>,
    k: int,
)
    requires
        token1.len() == token2.len(),
        0 <= k < token1.len(),
        token1[k] != token2[k],
        forall|j: int| 0 <= j < token1.len() && j != k ==> token1[j] == token2[j],
    ensures
        spec_sign(token1, timestamp_ms, payload) != spec_sign(token2, timestamp_ms, payload),
{
    let pre = Seq::<char>::empty();
    let suf = "&"@ + spec_digits(timestamp_ms as int) + "&"@ + spec_app_key() + "&"@ + payload;
    assert(spec_signing_input(token1, timestamp_ms, payload) =~= pre + token1 + suf);
    assert(spec_signing_input(token2, timestamp_ms, payload) =~= pre + token2 + suf);
    lemma_digest_change_between(pre, token1, token2, suf, k);
}

/// A single-character substitution in the timestamp's decimal rendering
/// changes the signature.
pub proof fn lemma_sign_timestamp_change(
    token: Seq<char>,
    ts1: u64,
    ts2: u64,
    payload: Seq<char>,
    k: int,
)
    requires
        spec_digits(ts1 as int).len() == spec_digits(ts2 as int).len(),
        0 <= k < spec_digits(ts1 as int).len(),
        spec_digits(ts1 as int)[k] != spec_digits(ts2 as int)[k],
        forall|j: int|
            0 <= j < spec_digits(ts1 as int).len() && j != k ==> spec_digits(ts1 as int)[j]
                == spec_digits(ts2 as int)[j],
    ensures
        spec_sign(token, ts1, payload) != spec_sign(token, ts2, payload),
{
    let pre = token + "&"@;
    let suf = "&"@ + spec_app_key() + "&"@ + payload;
    assert(spec_signing_input(token, ts1, payload) =~= pre + spec_digits(ts1 as int) + suf);
    assert(spec_signing_input(token, ts2, payload) =~= pre + spec_digits(ts2 as int) + suf);
    lemma_digest_change_between(pre, spec_digits(ts1 as int), spec_digits(ts2 as int), suf, k);
}

/// A single-character substitution in the serialized payload changes the
/// signature.
pub proof fn lemma_sign_payload_change(
    token: Seq<char>,
    timestamp_ms: u64,
    payload1: Seq<char>,
    payload2: Seq<char>,
    k: int,
)
    requires
        payload1.len() == payload2.len(),
        0 <= k < payload1.len(),
        payload1[k] != payload2[k],
        forall|j: int| 0 <= j < payload1.len() && j != k ==> payload1[j] == payload2[j],
    ensures
        spec_sign(token, timestamp_ms, payload1) != spec_sign(token, timestamp_ms, payload2),
{
    let pre = token + "&"@ + spec_digits(timestamp_ms as int) + "&"@ + spec_app_key() + "&"@;
    let suf = Seq::<char>::empty();
    assert(spec_signing_input(token, timestamp_ms, payload1) =~= pre + payload1 + suf);
    assert(spec_signing_input(token, timestamp_ms, payload2) =~= pre + payload2 + suf);
    lemma_digest_change_between(pre, payload1, payload2, suf, k);
}

/// The text form of one decimal digit, cut from a pinned digit table.
fn digit_str(d: u64) -> (s: &'static str)
    requires
        d < 10,
    ensures
        s@ =~= seq![spec_digit_char(d as int)],
{
    let table = "0123456789";
    proof {
        reveal_strlit("0123456789");
    }
    let r = table.substring_ascii(d as usize, d as usize + 1);
    proof {
        assert(r@ =~= seq![table@[d as int]]);
    }
    r
}

/// Append the decimal text of `n` to `out`.
fn push_digits(out: &mut String, n: u64)
    ensures
        final(out)@ == old(out)@ + spec_digits(n as int),
    decreases n,
{
    if n < 10 {
        out.append(digit_str(n));
    } else {
        push_digits(out, n / 10);
        out.append(digit_str(n % 10));
        proof {
            assert(old(out)@ + spec_digits((n / 10) as int) + seq![
                spec_digit_char((n % 10) as int),
            ] =~= old(out)@ + spec_digits(n as int));
        }
    }
}

/// The decimal text of `n`.
pub fn u64_to_decimal(n: u64) -> (s: String)
    ensures
        s@ == spec_digits(n as int),
{
    let mut s = String::new();
    push_digits(&mut s, n);
    proof {
        assert(Seq::<char>::empty() + spec_digits(n as int) =~= spec_digits(n as int));
    }
    s
}

/// The pinned digest of `s`, computed character by character.
pub fn digest_str(s: &str) -> (h: u64)
    ensures
        h == spec_digest(s@),
{
    let n = s.unicode_len();
    let mut h: u64 = 5381;
    let mut i: usize = 0;
    while i < n
        invariant
            i <= n,
            n == s@.len(),
            spec_digest_from(s@, i as int, h as int) == spec_digest(s@),
        decreases n - i,
    {
        let c = s.get_char(i);
        let wide: u128 = (h as u128) * 131 + (c as u128);
        h = (wide % 0x1_0000_0000_0000_0000u128) as u64;
        i = i + 1;
    }
    h
}

/// Build the signed request for one gateway call: serialize nothing anew,
/// digest the pinned signing input, and carry timestamp, application key,
/// interface version and payload along as the gateway expects them.
pub fn build(
    endpoint: &EndpointMeta,
    token: &str,
    timestamp_ms: u64,
    payload: &str,
) -> (r: SignedRequest)
    ensures
        r.sign == spec_sign(token@, timestamp_ms, payload@),
        r.timestamp_ms == timestamp_ms,
        r.app_key@ == spec_app_key(),
        r.api_version@ == endpoint.version@,
        r.data@ == payload@,
{
    let mut input = String::from_str(token);
    input.append("&");
    push_digits(&mut input, timestamp_ms);
    input.append("&");
    input.append("12574478");
    input.append("&");
    input.append(payload);
    let sign = digest_str(input.as_str());
    SignedRequest {
        sign,
        timestamp_ms,
        app_key: String::from_str("12574478"),
        api_version: endpoint.version.clone(),
        data: String::from_str(payload),
    }
}

} // verus!
