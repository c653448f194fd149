//! Textual encoding of candidate keys and the case-folding rule used when
//! comparing encoded text against a target prefix.

use vstd::prelude::*;

verus! {

/// The base-58 text of a 32-byte value, named abstractly: the encoding is a
/// function of the input bytes alone, identical on every worker and machine.
pub uninterp spec fn base58_of(bytes: Seq<u8>) -> Seq<u8>;

/// True of the bytes that may appear in base-58 encoded text: the digits
/// `1`-`9` and the ASCII letters, with the ambiguous glyphs `0`, `O`, `I`
/// and `l` excluded (58 symbols in all).
pub open spec fn is_b58_byte(b: u8) -> bool {
    (49 <= b && b <= 57) || (65 <= b && b <= 90 && b != 73 && b != 79) || (97 <= b && b <= 122
        && b != 108)
}

/// Case folding of one byte: ASCII uppercase letters map to lowercase,
/// except `L`, which is the only letter the base-58 alphabet keeps in
/// uppercase while dropping its lowercase form.
pub open spec fn fold_byte(b: u8) -> u8 {
    if b == 76 {
        76
    } else if 65 <= b && b <= 90 {
        (b + 32) as u8
    } else {
        b
    }
}

/// Case folding of a whole text: pointwise `fold_byte` when the search is
/// case-insensitive, the identity otherwise.
pub open spec fn fold_seq(s: Seq<u8>, case_insensitive: bool) -> Seq<u8> {
    if case_insensitive {
        s.map_values(|b: u8| fold_byte(b))
    } else {
        s
    }
}

/// Lowercase `target` for comparison when `case_insensitive` is set, keeping
/// `L` uppercase; return it unchanged otherwise.
pub fn maybe_bs58_aware_lowercase(target: &Vec<u8>, case_insensitive: bool) -> (r: Vec<u8>)
    ensures
        r@ == fold_seq(target@, case_insensitive),
{
    let mut out: Vec<u8> = Vec::new();
    let mut i: usize = 0;
    while i < target.len()
        invariant
            i <= target@.len(),
            out@.len() == i,
            forall|j: int| 0 <= j < i ==> out@[j] == fold_seq(target@, case_insensitive)[j],
        decreases target@.len() - i,
    {
        let b = target[i];
        let f: u8 = if !case_insensitive {
            b
        } else if b == 76 {
            76
        } else if 65 <= b && b <= 90 {
            b + 32
        } else {
            b
        };
        out.push(f);
        i += 1;
    }
    proof {
        assert(out@ =~= fold_seq(target@, case_insensitive));
    }
    out
}

/// Relies on fd_bs58's `encode_32`: deterministic base-58 text of exactly the
/// given 32 bytes, every output byte drawn from the crate's 58-symbol
/// alphabet (digits `1`-`9` and letters without `0`, `O`, `I`, `l`).
#[verifier::external_body]
fn encode_32_raw(bytes: &[u8; 32]) -> (r: Vec<u8>)
    ensures
        r@ == base58_of(bytes@),
        forall|i: int| 0 <= i < r@.len() ==> is_b58_byte(r@[i]),
{
    fd_bs58::encode_32(bytes).into_bytes()
}

/// Encode a 32-byte candidate as base-58 text. Deterministic, and the output
/// never contains the ambiguous glyphs `0`, `O`, `I` or `l`.
pub fn encode(bytes: &[u8; 32]) -> (r: Vec<u8>)
    ensures
        r@ == base58_of(bytes@),
        forall|i: int| 0 <= i < r@.len() ==> is_b58_byte(r@[i]),
{
    encode_32_raw(bytes)
}

/// The encoding alphabet never contains the ambiguous glyphs `0`, `O`, `I`
/// or `l`; together with `encode`'s guarantee that every output byte is in
/// the alphabet, no encoded text ever shows one of them.
pub proof fn lemma_b58_excludes_ambiguous(b: u8)
    requires
        is_b58_byte(b),
    ensures
        b != 48 && b != 79 && b != 73 && b != 108,
{
}

/// The case-folding law: when the search is case-insensitive, folding
/// lowercases every character except `L`, which stays as it is; when it is
/// not, folding is the identity. Folding never changes the length.
pub proof fn lemma_fold_spec(s: Seq<u8>, case_insensitive: bool)
    ensures
        fold_seq(s, case_insensitive).len() == s.len(),
        case_insensitive ==> forall|i: int|
            0 <= i < s.len() ==> fold_seq(s, true)[i] == fold_byte(#[trigger] s[i]),
        !case_insensitive ==> fold_seq(s, false) == s,
        fold_byte(76) == 76,
        forall|b: u8| 65 <= b <= 90 && b != 76 ==> #[trigger] fold_byte(b) == b + 32,
        forall|b: u8| !(65 <= b <= 90) ==> #[trigger] fold_byte(b) == b,
{
}

/// Determinism of the encoding: equal byte strings always encode to equal
/// text, whichever worker or machine encodes them.
pub proof fn lemma_encode_deterministic(a: Seq<u8>, b: Seq<u8>)
    requires
        a == b,
    ensures
        base58_of(a) == base58_of(b),
{
}

} // verus!
