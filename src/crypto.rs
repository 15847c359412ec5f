use sha3::Digest;
use vstd::prelude::*;

verus! {

/// Length in bytes of a node digest.
pub const HASH_LENGTH: usize = 32;

/// A fixed-size content hash.
pub struct HashValue {
    pub bytes: Vec<u8>,
}

impl View for HashValue {
    type V = Seq<u8>;

    open spec fn view(&self) -> Seq<u8> {
        self.bytes@
    }
}

impl HashValue {
    pub fn new(bytes: Vec<u8>) -> (r: HashValue)
        ensures
            r@ == bytes@,
    {
        HashValue { bytes }
    }

    pub fn duplicate(&self) -> (r: HashValue)
        ensures
            r@ == self@,
    {
        HashValue { bytes: copy_bytes(&self.bytes) }
    }

    /// Byte-wise comparison of two hashes.
    pub fn same_as(&self, other: &HashValue) -> (r: bool)
        ensures
            r == (self@ == other@),
    {
        bytes_equal(&self.bytes, &other.bytes)
    }
}

/// A single validator's signature, held as its serialized bytes.
pub struct Signature {
    pub bytes: Vec<u8>,
}

impl View for Signature {
    type V = Seq<u8>;

    open spec fn view(&self) -> Seq<u8> {
        self.bytes@
    }
}

impl Signature {
    pub fn new(bytes: Vec<u8>) -> (r: Signature)
        ensures
            r@ == bytes@,
    {
        Signature { bytes }
    }

    pub fn duplicate(&self) -> (r: Signature)
        ensures
            r@ == self@,
    {
        Signature { bytes: copy_bytes(&self.bytes) }
    }
}

pub fn copy_bytes(b: &Vec<u8>) -> (r: Vec<u8>)
    ensures
        r@ == b@,
{
    let r = b.clone();
    assert(r@ =~= b@);
    r
}

pub fn bytes_equal(a: &Vec<u8>, b: &Vec<u8>) -> (r: bool)
    ensures
        r == (a@ == b@),
{
    if a.len() != b.len() {
        return false;
    }
    let mut i: usize = 0;
    while i < a.len()
        invariant
            i <= a@.len(),
            a@.len() == b@.len(),
            a@.subrange(0, i as int) == b@.subrange(0, i as int),
        decreases a@.len() - i,
    {
        if a[i] != b[i] {
            assert(a@[i as int] != b@[i as int]);
            return false;
        }
        i += 1;
        assert(a@.subrange(0, i as int) =~= a@.subrange(0, i as int - 1).push(a@[i - 1]));
        assert(b@.subrange(0, i as int) =~= b@.subrange(0, i as int - 1).push(b@[i - 1]));
    }
    assert(a@ =~= a@.subrange(0, i as int));
    assert(b@ =~= b@.subrange(0, i as int));
    true
}

/// The SHA3-256 digest of a byte string.
pub uninterp spec fn sha3_256_of(data: Seq<u8>) -> Seq<u8>;

/// Relies on sha3::Sha3_256::digest: the 32-byte SHA3-256 hash of `data`.
#[verifier::external_body]
pub(crate) fn sha3_256(data: &Vec<u8>) -> (r: Vec<u8>)
    ensures
        r@ == sha3_256_of(data@),
        r@.len() == HASH_LENGTH,
{
    sha3::Sha3_256::digest(data.as_slice()).to_vec()
}

/// The `n` low-order bytes of `x`, least significant first.
pub open spec fn le_bytes(x: nat, n: nat) -> Seq<u8>
    decreases n,
{
    if n == 0 {
        seq![]
    } else {
        seq![(x % 256) as u8] + le_bytes(x / 256, (n - 1) as nat)
    }
}

/// Canonical encoding of a `u64`: eight bytes, little-endian.
pub open spec fn u64_bytes(x: u64) -> Seq<u8> {
    le_bytes(x as nat, 8)
}

/// Canonical encoding of a byte string: its length, then its bytes.
pub open spec fn length_prefixed(b: Seq<u8>) -> Seq<u8> {
    u64_bytes(b.len() as u64) + b
}

pub fn push_u64(out: &mut Vec<u8>, x: u64)
    ensures
        final(out)@ == old(out)@ + u64_bytes(x),
{
    let ghost start = out@;
    let mut v: u64 = x;
    let mut i: usize = 0;
    while i < 8
        invariant
            i <= 8,
            out@ + le_bytes(v as nat, (8 - i) as nat) == start + u64_bytes(x),
        decreases 8 - i,
    {
        let ghost before = out@;
        proof {
            assert(le_bytes(v as nat, (8 - i) as nat) == seq![(v as nat % 256) as u8] + le_bytes(
                v as nat / 256,
                (8 - i - 1) as nat,
            ));
        }
        out.push((v % 256) as u8);
        v = v / 256;
        i += 1;
        assert(out@ + le_bytes(v as nat, (8 - i) as nat) =~= before + (seq![out@.last()] + le_bytes(
            v as nat,
            (8 - i) as nat,
        )));
    }
    assert(le_bytes(v as nat, 0) =~= seq![]);
    assert(out@ =~= out@ + le_bytes(v as nat, 0));
}

pub fn push_bytes(out: &mut Vec<u8>, b: &Vec<u8>)
    ensures
        final(out)@ == old(out)@ + length_prefixed(b@),
{
    push_u64(out, b.len() as u64);
    let ghost start = out@;
    let mut i: usize = 0;
    while i < b.len()
        invariant
            i <= b@.len(),
            out@ == start + b@.subrange(0, i as int),
        decreases b@.len() - i,
    {
        out.push(b[i]);
        i += 1;
        assert(out@ =~= start + b@.subrange(0, i as int));
    }
    assert(b@.subrange(0, b@.len() as int) =~= b@);
    assert(out@ =~= old(out)@ + length_prefixed(b@));
}

/// `n` bytes tell apart any two numbers below `256^n`.
pub proof fn lemma_le_bytes_injective(x: nat, y: nat, n: nat)
    requires
        x < pow256(n),
        y < pow256(n),
        le_bytes(x, n) == le_bytes(y, n),
    ensures
        x == y,
    decreases n,
{
    if n > 0 {
        let m = (n - 1) as nat;
        assert(le_bytes(x, n)[0] == (x % 256) as u8);
        assert(le_bytes(y, n)[0] == (y % 256) as u8);
        assert(le_bytes(x / 256, m) =~= le_bytes(x, n).subrange(1, le_bytes(x, n).len() as int));
        assert(le_bytes(y / 256, m) =~= le_bytes(y, n).subrange(1, le_bytes(y, n).len() as int));
        let p = pow256(m);
        assert(x / 256 < p && y / 256 < p) by (nonlinear_arith)
            requires
                x < 256 * p,
                y < 256 * p,
        ;
        lemma_le_bytes_injective(x / 256, y / 256, m);
        assert(x == 256 * (x / 256) + x % 256) by (nonlinear_arith);
        assert(y == 256 * (y / 256) + y % 256) by (nonlinear_arith);
    } else {
        assert(x == 0 && y == 0);
    }
}

/// `256^n`.
pub open spec fn pow256(n: nat) -> nat
    decreases n,
{
    if n == 0 {
        1
    } else {
        256 * pow256((n - 1) as nat)
    }
}

pub proof fn lemma_le_bytes_len(x: nat, n: nat)
    ensures
        le_bytes(x, n).len() == n,
    decreases n,
{
    if n > 0 {
        lemma_le_bytes_len(x / 256, (n - 1) as nat);
    }
}

/// Distinct `u64` values have distinct encodings.
pub proof fn lemma_u64_bytes_injective(x: u64, y: u64)
    requires
        x != y,
    ensures
        u64_bytes(x) != u64_bytes(y),
        u64_bytes(x).len() == 8,
{
    lemma_le_bytes_len(x as nat, 8);
    reveal_with_fuel(pow256, 9);
    assert(pow256(8) == 0x1_0000_0000_0000_0000);
    if u64_bytes(x) == u64_bytes(y) {
        lemma_le_bytes_injective(x as nat, y as nat, 8);
    }
}

} // verus!
