//! Record identifiers: a fixed prefix and a hash of name and farmer.

use crate::text::{hex_digit, lower_hex, to_lower_hex};
use std::collections::hash_map::DefaultHasher;
use std::hash::{Hash, Hasher};
use vstd::prelude::*;
use vstd::std_specs::hash::DefaultHasherAdditionalSpecFns;

verus! {

/// The byte blocks that hashing the string `s` feeds to a hasher.
pub uninterp spec fn str_hash_writes(s: Seq<char>) -> Seq<Seq<u8>>;

/// `<str as Hash>::hash` of the standard library, on the default hasher:
/// feeds the hasher the blocks that the string stands for, after what it
/// was fed before.
#[verifier::external_body]
fn feed(state: &mut DefaultHasher, s: &str)
    ensures
        final(state)@ == old(state)@ + str_hash_writes(s@),
{
    s.hash(state)
}

/// The hash of a name followed by a farmer.
pub open spec fn pair_hash(name: Seq<char>, farmer: Seq<char>) -> u64 {
    DefaultHasher::spec_finish(str_hash_writes(name) + str_hash_writes(farmer))
}

/// The identifier that stands for a hash.
pub open spec fn id_of_hash(hash: u64) -> Seq<char> {
    "herb_"@ + lower_hex(hash as nat)
}

/// The identifier of the record with this name and farmer.
pub open spec fn herb_id(name: Seq<char>, farmer: Seq<char>) -> Seq<char> {
    id_of_hash(pair_hash(name, farmer))
}

/// Writes a hash as an identifier: `herb_` and the hash in lower-case
/// hexadecimal digits, without leading zeros.
pub fn id_from_hash(hash: u64) -> (id: String)
    ensures
        id@ == id_of_hash(hash),
{
    let mut id = "herb_".to_owned();
    let digits = to_lower_hex(hash);
    id.append(digits.as_str());
    id
}

/// The identifier of the record with this name and farmer. It depends on
/// nothing else, and the name is hashed before the farmer.
pub fn generate_id(name: &str, farmer: &str) -> (id: String)
    ensures
        id@ == herb_id(name@, farmer@),
{
    let mut hasher = DefaultHasher::new();
    feed(&mut hasher, name);
    feed(&mut hasher, farmer);
    let hash = hasher.finish();
    proof {
        assert(hasher@ == str_hash_writes(name@) + str_hash_writes(farmer@));
    }
    id_from_hash(hash)
}

/// Every number has at least one hexadecimal digit.
pub proof fn lemma_lower_hex_len(n: nat)
    ensures
        lower_hex(n).len() >= 1,
        n >= 16 ==> lower_hex(n).len() >= 2,
    decreases n,
{
    if n >= 16 {
        lemma_lower_hex_len(n / 16);
    }
}

/// Different numbers are written with different digits.
pub proof fn lemma_lower_hex_injective(a: nat, b: nat)
    requires
        lower_hex(a) == lower_hex(b),
    ensures
        a == b,
    decreases a,
{
    reveal_strlit("0123456789abcdef");
    lemma_lower_hex_len(a);
    lemma_lower_hex_len(b);
    let da = (a % 16) as int;
    let db = (b % 16) as int;
    assert(lower_hex(a).last() == hex_digit(da));
    assert(lower_hex(b).last() == hex_digit(db));
    assert(da == db);
    if a >= 16 {
        assert(lower_hex(a).drop_last() == lower_hex(a / 16));
        assert(lower_hex(b).drop_last() == lower_hex(b / 16));
        lemma_lower_hex_injective(a / 16, b / 16);
    }
}

/// Two identifiers are equal exactly when the hashes they stand for are:
/// records whose name and farmer hash differently never share an
/// identifier.
pub proof fn lemma_id_tells_hash(h1: u64, h2: u64)
    ensures
        id_of_hash(h1) == id_of_hash(h2) <==> h1 == h2,
{
    if id_of_hash(h1) == id_of_hash(h2) {
        let p = "herb_"@;
        let a = lower_hex(h1 as nat);
        let b = lower_hex(h2 as nat);
        assert((p + a).skip(p.len() as int) == a);
        assert((p + b).skip(p.len() as int) == b);
        lemma_lower_hex_injective(h1 as nat, h2 as nat);
    }
}

/// Sixteen to the power of `k`.
spec fn sixteen_to(k: nat) -> nat
    decreases k,
{
    if k == 0 {
        1
    } else {
        16 * sixteen_to((k - 1) as nat)
    }
}

/// A number below sixteen to the power of `k` has at most `k` digits.
proof fn lemma_lower_hex_bound(n: nat, k: nat)
    requires
        k >= 1,
        n < sixteen_to(k),
    ensures
        lower_hex(n).len() <= k,
    decreases k,
{
    if n >= 16 {
        if k == 1 {
            assert(sixteen_to(1) == 16 * sixteen_to(0));
        } else {
            lemma_lower_hex_bound(n / 16, (k - 1) as nat);
        }
    }
}

/// An identifier is `herb_` and then between one and sixteen characters.
pub proof fn lemma_id_shape(hash: u64)
    ensures
        id_of_hash(hash).len() == 5 + lower_hex(hash as nat).len(),
        1 <= lower_hex(hash as nat).len() <= 16,
        id_of_hash(hash).take(5) == "herb_"@,
{
    reveal_strlit("herb_");
    lemma_lower_hex_len(hash as nat);
    assert(sixteen_to(16) == 0x1_0000_0000_0000_0000) by {
        reveal_with_fuel(sixteen_to, 17);
    }
    lemma_lower_hex_bound(hash as nat, 16);
    assert(id_of_hash(hash).take(5) == "herb_"@);
}

} // verus!
