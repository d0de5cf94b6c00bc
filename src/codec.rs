//! Byte-level encodings used by the ledger: decimal text, little-endian
//! integers and lowercase hexadecimal.
use vstd::prelude::*;

verus! {

/// ASCII decimal digits of `n`, most significant first, no leading zeros.
pub open spec fn decimal(n: nat) -> Seq<u8>
    decreases n,
{
    if n < 10 {
        seq![(48 + n) as u8]
    } else {
        decimal(n / 10).push((48 + n % 10) as u8)
    }
}

/// The `k` low bytes of `n`, least significant first.
pub open spec fn le_bytes(n: nat, k: nat) -> Seq<u8>
    decreases k,
{
    if k == 0 {
        seq![]
    } else {
        seq![(n % 256) as u8] + le_bytes(n / 256, (k - 1) as nat)
    }
}

/// A lowercase hexadecimal digit for a value below 16.
pub open spec fn hex_digit(v: nat) -> char {
    if v == 0 { '0' } else if v == 1 { '1' } else if v == 2 { '2' } else if v == 3 { '3' }
    else if v == 4 { '4' } else if v == 5 { '5' } else if v == 6 { '6' } else if v == 7 { '7' }
    else if v == 8 { '8' } else if v == 9 { '9' } else if v == 10 { 'a' } else if v == 11 { 'b' }
    else if v == 12 { 'c' } else if v == 13 { 'd' } else if v == 14 { 'e' } else { 'f' }
}

/// Two lowercase hexadecimal digits per byte, high nibble first.
pub open spec fn hex_chars(b: Seq<u8>) -> Seq<char>
    decreases b.len(),
{
    if b.len() == 0 {
        seq![]
    } else {
        hex_chars(b.drop_last()) + seq![
            hex_digit((b.last() / 16) as nat),
            hex_digit((b.last() % 16) as nat),
        ]
    }
}

/// Digit `2i` of the hex text is the high nibble of byte `i`, digit `2i + 1`
/// its low nibble.
pub proof fn lemma_hex_chars_index(b: Seq<u8>)
    ensures
        hex_chars(b).len() == 2 * b.len(),
        forall|i: int|
            0 <= i < b.len() ==> hex_chars(b)[2 * i] == hex_digit((b[i] / 16) as nat)
                && hex_chars(b)[2 * i + 1] == hex_digit((b[i] % 16) as nat),
    decreases b.len(),
{
    if b.len() > 0 {
        let p = b.drop_last();
        lemma_hex_chars_index(p);
        assert forall|i: int| 0 <= i < b.len() implies hex_chars(b)[2 * i] == hex_digit((b[i] / 16) as nat)
            && hex_chars(b)[2 * i + 1] == hex_digit((b[i] % 16) as nat) by {
            if i < p.len() {
                assert(p[i] == b[i]);
            }
        }
    }
}

/// Whether the hex text of `digest` starts with `count` zero digits, read
/// nibble by nibble from the digest itself.
pub fn hex_starts_with_zeros(digest: &Vec<u8>, count: usize) -> (r: bool)
    requires
        digest@.len() <= 0x1000_0000,
    ensures
        r == (count <= hex_chars(digest@).len() && forall|i: int| 0 <= i < count ==> hex_chars(digest@)[i] == '0'),
{
    proof {
        lemma_hex_chars_index(digest@);
    }
    if count > 2 * digest.len() {
        return false;
    }
    let mut i: usize = 0;
    while i < count
        invariant
            i <= count <= 2 * digest@.len(),
            hex_chars(digest@).len() == 2 * digest@.len(),
            forall|j: int| 0 <= j < i ==> hex_chars(digest@)[j] == '0',
        decreases count - i,
    {
        let byte = digest[i / 2];
        let nibble = if i % 2 == 0 {
            byte / 16
        } else {
            byte % 16
        };
        proof {
            let k = (i / 2) as int;
            let h = hex_chars(digest@);
            lemma_hex_chars_index(digest@);
            assert(h[2 * k] == hex_digit((digest@[k] / 16) as nat));
            assert(h[2 * k + 1] == hex_digit((digest@[k] % 16) as nat));
            if i % 2 == 0 {
                assert(i == 2 * k);
            } else {
                assert(i == 2 * k + 1);
            }
            assert(h[i as int] == hex_digit(nibble as nat));
            assert((hex_digit(nibble as nat) == '0') == (nibble == 0));
        }
        if nibble != 0 {
            return false;
        }
        i += 1;
    }
    true
}

/// Appends the decimal text of `n`.
pub fn push_decimal(out: &mut Vec<u8>, n: u128)
    ensures
        final(out)@ == old(out)@ + decimal(n as nat),
    decreases n,
{
    if n >= 10 {
        push_decimal(out, n / 10);
    }
    out.push((48 + n % 10) as u8);
    assert(n >= 10 ==> (n / 10) as nat == (n as nat) / 10);
}

/// Appends the `k` low bytes of `n`, least significant first.
pub fn push_le_bytes(out: &mut Vec<u8>, n: u64, k: usize)
    ensures
        final(out)@ == old(out)@ + le_bytes(n as nat, k as nat),
    decreases k,
{
    if k > 0 {
        out.push((n % 256) as u8);
        push_le_bytes(out, n / 256, k - 1);
        assert(final(out)@ =~= old(out)@ + le_bytes(n as nat, k as nat));
    }
}

/// Appends every byte of `s` in order.
pub fn push_bytes(out: &mut Vec<u8>, s: &[u8])
    ensures
        final(out)@ == old(out)@ + s@,
{
    let mut i: usize = 0;
    while i < s.len()
        invariant
            i <= s@.len(),
            out@ == old(out)@ + s@.subrange(0, i as int),
        decreases s@.len() - i,
    {
        out.push(s[i]);
        i += 1;
        assert(out@ =~= old(out)@ + s@.subrange(0, i as int));
    }
    assert(s@.subrange(0, s@.len() as int) =~= s@);
}

} // verus!
