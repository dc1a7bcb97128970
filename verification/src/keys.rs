//! Secret keys: which byte strings are keys of the curve of the EVM, and the salt from which the
//! key of a new account is derived.
use vstd::prelude::*;

verus! {

/// The number of points of the curve secp256k1, most significant byte first.
pub open spec fn curve_order() -> Seq<u8> {
    seq![
        0xffu8, 0xff, 0xff, 0xff, 0xff, 0xff, 0xff, 0xff, 0xff, 0xff, 0xff, 0xff, 0xff, 0xff, 0xff,
        0xfe, 0xba, 0xae, 0xdc, 0xe6, 0xaf, 0x48, 0xa0, 0x3b, 0xbf, 0xd2, 0x5e, 0x8c, 0xd0, 0x36,
        0x41, 0x41,
    ]
}

/// Whether `a`, read as a number with the most significant byte first, is below `b`. Both have the
/// same length.
pub open spec fn below(a: Seq<u8>, b: Seq<u8>) -> bool {
    exists|k: int|
        0 <= k < a.len() && #[trigger] a[k] < b[k] && forall|j: int|
            0 <= j < k ==> #[trigger] a[j] == b[j]
}

/// Whether `sk` is a secret key of secp256k1: a number from one up to, and not including, the
/// order of the curve.
pub open spec fn is_secret_key(sk: Seq<u8>) -> bool {
    &&& exists|k: int| 0 <= k < sk.len() && #[trigger] sk[k] != 0
    &&& below(sk, curve_order())
}

/// Tests whether `sk` is a secret key of secp256k1.
pub fn check_secret_key(sk: &[u8; 32]) -> (r: bool)
    ensures
        r == is_secret_key(sk@),
{
    let order: [u8; 32] = [
        0xff, 0xff, 0xff, 0xff, 0xff, 0xff, 0xff, 0xff, 0xff, 0xff, 0xff, 0xff, 0xff, 0xff, 0xff,
        0xfe, 0xba, 0xae, 0xdc, 0xe6, 0xaf, 0x48, 0xa0, 0x3b, 0xbf, 0xd2, 0x5e, 0x8c, 0xd0, 0x36,
        0x41, 0x41,
    ];
    assert(order@ =~= curve_order());
    let mut i: usize = 0;
    while i < 32 && sk[i] == 0
        invariant
            i <= 32,
            forall|j: int| 0 <= j < i ==> sk@[j] == 0,
        decreases 32 - i,
    {
        i = i + 1;
    }
    if i == 32 {
        return false;
    }
    assert(sk@[i as int] != 0);
    let mut k: usize = 0;
    while k < 32 && sk[k] == order[k]
        invariant
            k <= 32,
            forall|j: int| 0 <= j < k ==> sk@[j] == order@[j],
        decreases 32 - k,
    {
        k = k + 1;
    }
    if k == 32 {
        return false;
    }
    proof {
        if below(sk@, order@) {
            let w = choose|w: int|
                0 <= w < sk@.len() && #[trigger] sk@[w] < order@[w] && forall|j: int|
                    0 <= j < w ==> #[trigger] sk@[j] == order@[j];
            assert(w == k);
        }
    }
    sk[k] < order[k]
}

/// The eight bytes of `id`, most significant byte first.
pub open spec fn salt_of(id: u64) -> Seq<u8> {
    Seq::new(8, |i: int| ((id >> ((56 - 8 * i) as u64)) & 0xff) as u8)
}

/// The salt for the key of account `id`: its number, most significant byte first.
pub fn account_salt(id: u64) -> (r: [u8; 8])
    ensures
        r@ == salt_of(id),
{
    let r: [u8; 8] = [
        ((id >> 56u64) & 0xff) as u8,
        ((id >> 48u64) & 0xff) as u8,
        ((id >> 40u64) & 0xff) as u8,
        ((id >> 32u64) & 0xff) as u8,
        ((id >> 24u64) & 0xff) as u8,
        ((id >> 16u64) & 0xff) as u8,
        ((id >> 8u64) & 0xff) as u8,
        ((id >> 0u64) & 0xff) as u8,
    ];
    assert(r@ =~= salt_of(id));
    r
}

/// The first 32 bytes of `key`, or `None` where it is shorter.
pub fn leading_key(key: &Vec<u8>) -> (r: Option<[u8; 32]>)
    ensures
        r is Some <==> key@.len() >= 32,
        r matches Some(sk) ==> sk@ == key@.take(32),
{
    if key.len() < 32 {
        return None;
    }
    let mut sk: [u8; 32] = [0; 32];
    let mut i: usize = 0;
    while i < 32
        invariant
            i <= 32 <= key@.len(),
            forall|j: int| 0 <= j < i ==> sk@[j] == key@[j],
        decreases 32 - i,
    {
        sk[i] = key[i];
        i = i + 1;
    }
    assert(sk@ =~= key@.take(32));
    Some(sk)
}

/// Different accounts are given different salts.
pub proof fn law_salts_are_distinct(a: u64, b: u64)
    requires
        salt_of(a) == salt_of(b),
    ensures
        a == b,
{
    let sa = salt_of(a);
    let sb = salt_of(b);
    assert(sa[0] == ((a >> 56u64) & 0xff) as u8 && sb[0] == ((b >> 56u64) & 0xff) as u8);
    assert(sa[1] == ((a >> 48u64) & 0xff) as u8 && sb[1] == ((b >> 48u64) & 0xff) as u8);
    assert(sa[2] == ((a >> 40u64) & 0xff) as u8 && sb[2] == ((b >> 40u64) & 0xff) as u8);
    assert(sa[3] == ((a >> 32u64) & 0xff) as u8 && sb[3] == ((b >> 32u64) & 0xff) as u8);
    assert(sa[4] == ((a >> 24u64) & 0xff) as u8 && sb[4] == ((b >> 24u64) & 0xff) as u8);
    assert(sa[5] == ((a >> 16u64) & 0xff) as u8 && sb[5] == ((b >> 16u64) & 0xff) as u8);
    assert(sa[6] == ((a >> 8u64) & 0xff) as u8 && sb[6] == ((b >> 8u64) & 0xff) as u8);
    assert(sa[7] == ((a >> 0u64) & 0xff) as u8 && sb[7] == ((b >> 0u64) & 0xff) as u8);
    assert(a == b) by (bit_vector)
        requires
            ((a >> 56u64) & 0xff) as u8 == ((b >> 56u64) & 0xff) as u8,
            ((a >> 48u64) & 0xff) as u8 == ((b >> 48u64) & 0xff) as u8,
            ((a >> 40u64) & 0xff) as u8 == ((b >> 40u64) & 0xff) as u8,
            ((a >> 32u64) & 0xff) as u8 == ((b >> 32u64) & 0xff) as u8,
            ((a >> 24u64) & 0xff) as u8 == ((b >> 24u64) & 0xff) as u8,
            ((a >> 16u64) & 0xff) as u8 == ((b >> 16u64) & 0xff) as u8,
            ((a >> 8u64) & 0xff) as u8 == ((b >> 8u64) & 0xff) as u8,
            ((a >> 0u64) & 0xff) as u8 == ((b >> 0u64) & 0xff) as u8,
    ;
}

/// The number that the bytes stand for, most significant byte first.
pub open spec fn number(bytes: Seq<u8>) -> nat
    decreases bytes.len(),
{
    if bytes.len() == 0 {
        0
    } else {
        256 * number(bytes.drop_last()) + bytes.last() as nat
    }
}

proof fn lemma_below_is_less(a: Seq<u8>, b: Seq<u8>)
    requires
        a.len() == b.len(),
    ensures
        below(a, b) <==> number(a) < number(b),
        a == b <==> number(a) == number(b),
    decreases a.len(),
{
    if a.len() == 0 {
        assert(a =~= b);
    } else {
        let c = a.drop_last();
        let d = b.drop_last();
        lemma_below_is_less(c, d);
        let last = a.len() - 1;
        assert(a =~= c.push(a.last()) && b =~= d.push(b.last()));
        if below(a, b) {
            let k = choose|k: int|
                0 <= k < a.len() && #[trigger] a[k] < b[k] && forall|j: int|
                    0 <= j < k ==> #[trigger] a[j] == b[j];
            if k < last {
                assert(c[k] < d[k]);
                assert forall|j: int| 0 <= j < k implies #[trigger] c[j] == d[j] by {
                    assert(a[j] == b[j]);
                }
            } else {
                assert(c =~= d) by {
                    assert forall|j: int| 0 <= j < c.len() implies c[j] == d[j] by {
                        assert(a[j] == b[j]);
                    }
                }
            }
        }
        if number(a) < number(b) {
            if number(c) < number(d) {
                let k = choose|k: int|
                    0 <= k < c.len() && #[trigger] c[k] < d[k] && forall|j: int|
                        0 <= j < k ==> #[trigger] c[j] == d[j];
                assert(a[k] < b[k]);
                assert forall|j: int| 0 <= j < k implies #[trigger] a[j] == b[j] by {
                    assert(c[j] == d[j]);
                }
            } else {
                assert(number(c) == number(d));
                assert(a[last] < b[last]);
                assert forall|j: int| 0 <= j < last implies #[trigger] a[j] == b[j] by {
                    assert(c[j] == d[j]);
                }
            }
        }
    }
}

proof fn lemma_nonzero(a: Seq<u8>)
    ensures
        (exists|k: int| 0 <= k < a.len() && #[trigger] a[k] != 0) <==> number(a) > 0,
    decreases a.len(),
{
    if a.len() > 0 {
        let c = a.drop_last();
        lemma_nonzero(c);
        if exists|k: int| 0 <= k < a.len() && #[trigger] a[k] != 0 {
            let k = choose|k: int| 0 <= k < a.len() && #[trigger] a[k] != 0;
            if k < c.len() {
                assert(c[k] != 0);
            }
        }
        if number(a) > 0 {
            if number(c) > 0 {
                let k = choose|k: int| 0 <= k < c.len() && #[trigger] c[k] != 0;
                assert(a[k] != 0);
            } else {
                assert(a[a.len() - 1] != 0);
            }
        }
    }
}

proof fn lemma_number_take(s: Seq<u8>, k: int)
    requires
        0 < k <= s.len(),
    ensures
        number(s.take(k)) == 256 * number(s.take(k - 1)) + s[k - 1],
{
    assert(s.take(k).drop_last() =~= s.take(k - 1));
}

proof fn lemma_order()
    ensures
        curve_order().len() == 32,
        number(curve_order())
            == 0xfffffffffffffffffffffffffffffffebaaedce6af48a03bbfd25e8cd0364141int,
{
    let s = curve_order();
    assert(s.take(0) =~= Seq::empty());
    lemma_number_take(s, 1);
    assert(number(s.take(1)) == 0xffint);
    lemma_number_take(s, 2);
    assert(number(s.take(2)) == 0xffffint);
    lemma_number_take(s, 3);
    assert(number(s.take(3)) == 0xffffffint);
    lemma_number_take(s, 4);
    assert(number(s.take(4)) == 0xffffffffint);
    lemma_number_take(s, 5);
    assert(number(s.take(5)) == 0xffffffffffint);
    lemma_number_take(s, 6);
    assert(number(s.take(6)) == 0xffffffffffffint);
    lemma_number_take(s, 7);
    assert(number(s.take(7)) == 0xffffffffffffffint);
    lemma_number_take(s, 8);
    assert(number(s.take(8)) == 0xffffffffffffffffint);
    lemma_number_take(s, 9);
    assert(number(s.take(9)) == 0xffffffffffffffffffint);
    lemma_number_take(s, 10);
    assert(number(s.take(10)) == 0xffffffffffffffffffffint);
    lemma_number_take(s, 11);
    assert(number(s.take(11)) == 0xffffffffffffffffffffffint);
    lemma_number_take(s, 12);
    assert(number(s.take(12)) == 0xffffffffffffffffffffffffint);
    lemma_number_take(s, 13);
    assert(number(s.take(13)) == 0xffffffffffffffffffffffffffint);
    lemma_number_take(s, 14);
    assert(number(s.take(14)) == 0xffffffffffffffffffffffffffffint);
    lemma_number_take(s, 15);
    assert(number(s.take(15)) == 0xffffffffffffffffffffffffffffffint);
    lemma_number_take(s, 16);
    assert(number(s.take(16)) == 0xfffffffffffffffffffffffffffffffeint);
    lemma_number_take(s, 17);
    assert(number(s.take(17)) == 0xfffffffffffffffffffffffffffffffebaint);
    lemma_number_take(s, 18);
    assert(number(s.take(18)) == 0xfffffffffffffffffffffffffffffffebaaeint);
    lemma_number_take(s, 19);
    assert(number(s.take(19)) == 0xfffffffffffffffffffffffffffffffebaaedcint);
    lemma_number_take(s, 20);
    assert(number(s.take(20)) == 0xfffffffffffffffffffffffffffffffebaaedce6int);
    lemma_number_take(s, 21);
    assert(number(s.take(21)) == 0xfffffffffffffffffffffffffffffffebaaedce6afint);
    lemma_number_take(s, 22);
    assert(number(s.take(22)) == 0xfffffffffffffffffffffffffffffffebaaedce6af48int);
    lemma_number_take(s, 23);
    assert(number(s.take(23)) == 0xfffffffffffffffffffffffffffffffebaaedce6af48a0int);
    lemma_number_take(s, 24);
    assert(number(s.take(24)) == 0xfffffffffffffffffffffffffffffffebaaedce6af48a03bint);
    lemma_number_take(s, 25);
    assert(number(s.take(25)) == 0xfffffffffffffffffffffffffffffffebaaedce6af48a03bbfint);
    lemma_number_take(s, 26);
    assert(number(s.take(26)) == 0xfffffffffffffffffffffffffffffffebaaedce6af48a03bbfd2int);
    lemma_number_take(s, 27);
    assert(number(s.take(27)) == 0xfffffffffffffffffffffffffffffffebaaedce6af48a03bbfd25eint);
    lemma_number_take(s, 28);
    assert(number(s.take(28)) == 0xfffffffffffffffffffffffffffffffebaaedce6af48a03bbfd25e8cint);
    lemma_number_take(s, 29);
    assert(number(s.take(29)) == 0xfffffffffffffffffffffffffffffffebaaedce6af48a03bbfd25e8cd0int);
    lemma_number_take(s, 30);
    assert(number(s.take(30)) == 0xfffffffffffffffffffffffffffffffebaaedce6af48a03bbfd25e8cd036int);
    lemma_number_take(s, 31);
    assert(number(s.take(31)) == 0xfffffffffffffffffffffffffffffffebaaedce6af48a03bbfd25e8cd03641int);
    lemma_number_take(s, 32);
    assert(number(s.take(32)) == 0xfffffffffffffffffffffffffffffffebaaedce6af48a03bbfd25e8cd0364141int);
    assert(s.take(32) =~= s);
}

proof fn lemma_salt(id: u64)
    ensures
        salt_of(id).len() == 8,
        number(salt_of(id)) == id,
{
    let s = salt_of(id);
    assert(s.take(0) =~= Seq::empty());
    lemma_number_take(s, 1);
    lemma_number_take(s, 2);
    lemma_number_take(s, 3);
    lemma_number_take(s, 4);
    lemma_number_take(s, 5);
    lemma_number_take(s, 6);
    lemma_number_take(s, 7);
    lemma_number_take(s, 8);
    assert(s.take(8) =~= s);
    let b0 = ((id >> 56u64) & 0xff) as u8;
    assert(s[0] == b0);
    let b1 = ((id >> 48u64) & 0xff) as u8;
    assert(s[1] == b1);
    let b2 = ((id >> 40u64) & 0xff) as u8;
    assert(s[2] == b2);
    let b3 = ((id >> 32u64) & 0xff) as u8;
    assert(s[3] == b3);
    let b4 = ((id >> 24u64) & 0xff) as u8;
    assert(s[4] == b4);
    let b5 = ((id >> 16u64) & 0xff) as u8;
    assert(s[5] == b5);
    let b6 = ((id >> 8u64) & 0xff) as u8;
    assert(s[6] == b6);
    let b7 = ((id >> 0u64) & 0xff) as u8;
    assert(s[7] == b7);
    assert(id == 256 * (256 * (256 * (256 * (256 * (256 * (256 * b0 + b1) + b2) + b3) + b4) + b5) + b6)
        + b7) by (bit_vector)
        requires
            b0 == ((id >> 56u64) & 0xff) as u8,
            b1 == ((id >> 48u64) & 0xff) as u8,
            b2 == ((id >> 40u64) & 0xff) as u8,
            b3 == ((id >> 32u64) & 0xff) as u8,
            b4 == ((id >> 24u64) & 0xff) as u8,
            b5 == ((id >> 16u64) & 0xff) as u8,
            b6 == ((id >> 8u64) & 0xff) as u8,
            b7 == ((id >> 0u64) & 0xff) as u8,
    ;
}

/// Thirty-two bytes are a secret key if and only if the number that they stand for is above zero
/// and below the order of the curve secp256k1.
pub proof fn law_secret_keys_are_numbers_below_the_order(sk: Seq<u8>)
    requires
        sk.len() == 32,
    ensures
        is_secret_key(sk) <==> 0 < number(sk)
            < 0xfffffffffffffffffffffffffffffffebaaedce6af48a03bbfd25e8cd0364141int,
{
    let order = curve_order();
    lemma_below_is_less(sk, order);
    lemma_nonzero(sk);
    lemma_order();
}

/// The salt of an account has eight bytes, and the number of the account is the number that they
/// stand for.
pub proof fn law_salt_is_the_number_of_the_account(id: u64)
    ensures
        salt_of(id).len() == 8,
        number(salt_of(id)) == id,
{
    lemma_salt(id);
}

} // verus!
