//! Fixed-width identifiers and the scalar counters used by consensus.

use vstd::prelude::*;

verus! {

broadcast use vstd::array::group_array_axioms;

/// Bytes `a` and `b` agree on every position below `i`.
pub open spec fn agree_below(a: Seq<u8>, b: Seq<u8>, i: int) -> bool {
    forall|k: int| 0 <= k < i ==> a[k] == b[k]
}

/// `i` is the first position where `a` and `b` differ, and `a` is smaller there.
pub open spec fn lt_at(a: Seq<u8>, b: Seq<u8>, i: int) -> bool {
    &&& 0 <= i < a.len()
    &&& i < b.len()
    &&& agree_below(a, b, i)
    &&& a[i] < b[i]
}

/// Lexicographic order on byte strings of equal length.
pub open spec fn lex_lt(a: Seq<u8>, b: Seq<u8>) -> bool {
    exists|i: int| #[trigger] lt_at(a, b, i)
}

pub proof fn lemma_lex_lt_irreflexive(a: Seq<u8>)
    ensures
        !lex_lt(a, a),
{
}

pub proof fn lemma_lex_lt_transitive(a: Seq<u8>, b: Seq<u8>, c: Seq<u8>)
    requires
        lex_lt(a, b),
        lex_lt(b, c),
    ensures
        lex_lt(a, c),
{
    let i = choose|i: int| lt_at(a, b, i);
    let j = choose|j: int| lt_at(b, c, j);
    if i < j {
        assert(lt_at(a, c, i));
    } else if j < i {
        assert(lt_at(a, c, j));
    } else {
        assert(lt_at(a, c, i));
    }
}

pub proof fn lemma_lex_lt_asymmetric(a: Seq<u8>, b: Seq<u8>)
    requires
        lex_lt(a, b),
    ensures
        !lex_lt(b, a),
{
    if lex_lt(b, a) {
        lemma_lex_lt_transitive(a, b, a);
    }
}

proof fn lemma_lex_total_from(a: Seq<u8>, b: Seq<u8>, i: int)
    requires
        a.len() == b.len(),
        0 <= i <= a.len(),
        agree_below(a, b, i),
        a != b,
    ensures
        lex_lt(a, b) || lex_lt(b, a),
    decreases a.len() - i,
{
    if i == a.len() {
        assert(a =~= b);
    } else if a[i] < b[i] {
        assert(lt_at(a, b, i));
    } else if b[i] < a[i] {
        assert(lt_at(b, a, i));
    } else {
        lemma_lex_total_from(a, b, i + 1);
    }
}

/// Byte strings of equal length are equal or ordered one way or the other.
pub proof fn lemma_lex_total(a: Seq<u8>, b: Seq<u8>)
    requires
        a.len() == b.len(),
        a != b,
    ensures
        lex_lt(a, b) || lex_lt(b, a),
{
    lemma_lex_total_from(a, b, 0);
}

/// Byte-wise equality of two 32-byte arrays.
pub fn bytes32_eq(a: &[u8; 32], b: &[u8; 32]) -> (r: bool)
    ensures
        r <==> *a == *b,
{
    let mut i: usize = 0;
    while i < 32
        invariant
            i <= 32,
            a@.len() == 32,
            b@.len() == 32,
            agree_below(a@, b@, i as int),
        decreases 32 - i,
    {
        if a[i] != b[i] {
            return false;
        }
        i = i + 1;
    }
    assert(*a =~= *b);
    true
}

/// Lexicographic comparison of two 32-byte arrays.
pub fn bytes32_lt(a: &[u8; 32], b: &[u8; 32]) -> (r: bool)
    ensures
        r == lex_lt(a@, b@),
{
    let mut i: usize = 0;
    while i < 32
        invariant
            i <= 32,
            a@.len() == 32,
            b@.len() == 32,
            agree_below(a@, b@, i as int),
        decreases 32 - i,
    {
        if a[i] < b[i] {
            assert(lt_at(a@, b@, i as int));
            return true;
        }
        if a[i] > b[i] {
            proof {
                assert forall|j: int| !lt_at(a@, b@, j) by {
                    if lt_at(a@, b@, j) {
                        if j < i {
                        } else if j > i {
                            assert(a@[i as int] == b@[i as int]);
                        }
                    }
                }
            }
            return false;
        }
        i = i + 1;
    }
    assert forall|j: int| !lt_at(a@, b@, j) by {}
    false
}

/// Copies a 32-byte slice into an array.
pub fn bytes32_from_slice(s: &[u8]) -> (r: [u8; 32])
    requires
        s@.len() == 32,
    ensures
        r@ == s@,
{
    let mut v: [u8; 32] = [0u8; 32];
    let mut i: usize = 0;
    while i < 32
        invariant
            i <= 32,
            s@.len() == 32,
            v@.len() == 32,
            agree_below(v@, s@, i as int),
        decreases 32 - i,
    {
        v[i] = s[i];
        i = i + 1;
    }
    assert(v@ =~= s@);
    v
}

/// Copies a 32-byte array into a vector.
pub fn bytes32_to_vec(a: &[u8; 32]) -> (r: Vec<u8>)
    ensures
        r@ == a@,
{
    let mut v: Vec<u8> = Vec::new();
    let mut i: usize = 0;
    while i < 32
        invariant
            i <= 32,
            a@.len() == 32,
            v@ == a@.subrange(0, i as int),
        decreases 32 - i,
    {
        v.push(a[i]);
        i = i + 1;
        assert(v@ =~= a@.subrange(0, i as int));
    }
    assert(a@.subrange(0, 32) =~= a@);
    v
}

/// A 32-byte identifier of a partition of the object address space.
#[derive(Clone, Copy, Debug, Eq, Hash)]
pub struct ShardId(pub [u8; 32]);

impl ShardId {
    pub open spec fn bytes(&self) -> Seq<u8> {
        self.0@
    }

    /// The smallest shard id.
    pub fn zero() -> (r: ShardId)
        ensures
            r.bytes() == Seq::new(32, |i: int| 0u8),
    {
        let r = ShardId([0u8; 32]);
        assert(r.bytes() =~= Seq::new(32, |i: int| 0u8));
        r
    }

    /// The largest shard id.
    pub fn max() -> (r: ShardId)
        ensures
            r.bytes() == Seq::new(32, |i: int| 255u8),
    {
        let r = ShardId([255u8; 32]);
        assert(r.bytes() =~= Seq::new(32, |i: int| 255u8));
        r
    }

    /// The id's bytes in storage order.
    pub fn to_le_bytes(&self) -> (r: Vec<u8>)
        ensures
            r@ == self.bytes(),
    {
        bytes32_to_vec(&self.0)
    }

    /// Builds a shard id from exactly 32 bytes; `None` for any other length.
    pub fn from_bytes(s: &[u8]) -> (r: Option<ShardId>)
        ensures
            s@.len() == 32 <==> r is Some,
            r is Some ==> r->0.bytes() == s@,
    {
        if s.len() == 32 {
            Some(ShardId(bytes32_from_slice(s)))
        } else {
            None
        }
    }

    /// Strict lexicographic order of the id bytes.
    pub fn lt(&self, other: &ShardId) -> (r: bool)
        ensures
            r == lex_lt(self.bytes(), other.bytes()),
    {
        bytes32_lt(&self.0, &other.0)
    }
}

impl PartialEq for ShardId {
    fn eq(&self, other: &ShardId) -> (r: bool) {
        bytes32_eq(&self.0, &other.0)
    }
}

impl vstd::std_specs::cmp::PartialEqSpecImpl for ShardId {
    open spec fn obeys_eq_spec() -> bool {
        true
    }

    open spec fn eq_spec(&self, other: &ShardId) -> bool {
        *self == *other
    }
}


/// Little-endian digits of `x` in base 256, `n` of them.
pub open spec fn le_digits(x: nat, n: nat) -> Seq<u8>
    decreases n,
{
    if n == 0 {
        Seq::empty()
    } else {
        seq![(x % 256) as u8] + le_digits(x / 256, (n - 1) as nat)
    }
}

/// The number whose little-endian base-256 digits are `s`.
pub open spec fn from_le(s: Seq<u8>) -> nat
    decreases s.len(),
{
    if s.len() == 0 {
        0
    } else {
        s[0] as nat + 256 * from_le(s.drop_first())
    }
}

pub open spec fn pow256(n: nat) -> nat
    decreases n,
{
    if n == 0 {
        1
    } else {
        256 * pow256((n - 1) as nat)
    }
}

pub proof fn lemma_le_digits_len(x: nat, n: nat)
    ensures
        le_digits(x, n).len() == n,
    decreases n,
{
    if n > 0 {
        lemma_le_digits_len(x / 256, (n - 1) as nat);
    }
}

/// Reading back the digits gives the number, when it fits in `n` digits.
pub proof fn lemma_from_le_digits(x: nat, n: nat)
    requires
        x < pow256(n),
    ensures
        from_le(le_digits(x, n)) == x,
    decreases n,
{
    if n > 0 {
        let p = pow256((n - 1) as nat);
        assert(x / 256 < p) by (nonlinear_arith)
            requires
                x < 256 * p,
        ;
        lemma_from_le_digits(x / 256, (n - 1) as nat);
        let d = le_digits(x, n);
        assert(d.drop_first() =~= le_digits(x / 256, (n - 1) as nat));
        assert(x == x % 256 + 256 * (x / 256)) by (nonlinear_arith);
    }
}

pub proof fn lemma_pow256_8()
    ensures
        pow256(8) == 0x10000000000000000,
{
    reveal_with_fuel(pow256, 9);
}

/// The eight little-endian bytes of `x`.
pub open spec fn u64_le(x: u64) -> Seq<u8> {
    le_digits(x as nat, 8)
}

/// Encodes `x` as eight little-endian bytes.
pub fn u64_to_le_bytes(x: u64) -> (r: Vec<u8>)
    ensures
        r@ == u64_le(x),
        r@.len() == 8,
{
    let mut r: Vec<u8> = Vec::new();
    let mut rem: u64 = x;
    let mut i: usize = 0;
    while i < 8
        invariant
            i <= 8,
            r@ + le_digits(rem as nat, (8 - i) as nat) == le_digits(x as nat, 8),
        decreases 8 - i,
    {
        let ghost before = r@;
        let d: u8 = (rem % 256) as u8;
        r.push(d);
        assert(le_digits(rem as nat, (8 - i) as nat) == seq![d] + le_digits(
            (rem / 256) as nat,
            (8 - i - 1) as nat,
        ));
        assert(r@ + le_digits((rem / 256) as nat, (8 - i - 1) as nat) =~= before + le_digits(
            rem as nat,
            (8 - i) as nat,
        ));
        rem = rem / 256;
        i = i + 1;
    }
    assert(r@ =~= r@ + le_digits(rem as nat, 0));
    proof {
        lemma_le_digits_len(x as nat, 8);
    }
    r
}

/// Two concatenations with equally long tails split the same way.
pub proof fn lemma_split_tail(a: Seq<u8>, b: Seq<u8>, c: Seq<u8>, d: Seq<u8>)
    requires
        a + b == c + d,
        b.len() == d.len(),
    ensures
        a == c,
        b == d,
{
    assert(a =~= (a + b).subrange(0, a.len() as int));
    assert(c =~= (c + d).subrange(0, c.len() as int));
    assert(b =~= (a + b).subrange(a.len() as int, (a + b).len() as int));
    assert(d =~= (c + d).subrange(c.len() as int, (c + d).len() as int));
}

/// Distinct integers have distinct little-endian encodings.
pub proof fn lemma_u64_le_injective(x: u64, y: u64)
    requires
        u64_le(x) == u64_le(y),
    ensures
        x == y,
{
    lemma_pow256_8();
    lemma_from_le_digits(x as nat, 8);
    lemma_from_le_digits(y as nat, 8);
}

pub proof fn lemma_u64_le_len(x: u64)
    ensures
        u64_le(x).len() == 8,
{
    lemma_le_digits_len(x as nat, 8);
}

/// The round number of a node in a shard's proposal tree.
#[derive(Clone, Copy, Debug, PartialEq, Eq, Structural, Hash)]
pub struct NodeHeight(pub u64);

impl NodeHeight {
    pub fn as_u64(&self) -> (r: u64)
        ensures
            r == self.0,
    {
        self.0
    }

    pub fn to_le_bytes(&self) -> (r: Vec<u8>)
        ensures
            r@ == u64_le(self.0),
    {
        u64_to_le_bytes(self.0)
    }
}

/// A period of base-layer blocks during which committees are fixed.
#[derive(Clone, Copy, Debug, PartialEq, Eq, Structural, Hash)]
pub struct Epoch(pub u64);

impl Epoch {
    pub fn as_u64(&self) -> (r: u64)
        ensures
            r == self.0,
    {
        self.0
    }

    pub fn to_le_bytes(&self) -> (r: Vec<u8>)
        ensures
            r@ == u64_le(self.0),
    {
        u64_to_le_bytes(self.0)
    }

    /// `self - other`, or epoch zero where that would be negative.
    pub fn saturating_sub(&self, other: Epoch) -> (r: Epoch)
        ensures
            r.0 == if self.0 >= other.0 { (self.0 - other.0) as u64 } else { 0u64 },
    {
        if self.0 >= other.0 {
            Epoch(self.0 - other.0)
        } else {
            Epoch(0)
        }
    }

    /// `self - other`, or `None` where that would be negative.
    pub fn checked_sub(&self, other: Epoch) -> (r: Option<Epoch>)
        ensures
            self.0 >= other.0 <==> r is Some,
            r matches Some(e) ==> e.0 == self.0 - other.0,
    {
        if self.0 >= other.0 {
            Some(Epoch(self.0 - other.0))
        } else {
            None
        }
    }
}

/// The 32-byte content hash that identifies a payload.
#[derive(Clone, Copy, Debug, Eq, Hash)]
pub struct PayloadId {
    pub id: [u8; 32],
}

impl PayloadId {
    pub open spec fn bytes(&self) -> Seq<u8> {
        self.id@
    }

    /// Builds an id from exactly 32 bytes.
    pub fn new(id: &[u8]) -> (r: PayloadId)
        requires
            id@.len() == 32,
        ensures
            r.bytes() == id@,
    {
        PayloadId { id: bytes32_from_slice(id) }
    }

    pub fn from_array(id: [u8; 32]) -> (r: PayloadId)
        ensures
            r.bytes() == id@,
    {
        PayloadId { id }
    }

    /// Builds an id from a byte string; `None` unless it holds exactly 32 bytes.
    pub fn try_from_slice(id: &[u8]) -> (r: Option<PayloadId>)
        ensures
            id@.len() == 32 <==> r is Some,
            r is Some ==> r->0.bytes() == id@,
    {
        if id.len() == 32 {
            Some(PayloadId::new(id))
        } else {
            None
        }
    }

    /// The id with every byte zero.
    pub fn zero() -> (r: PayloadId)
        ensures
            r.bytes() == Seq::new(32, |i: int| 0u8),
    {
        let r = PayloadId { id: [0u8; 32] };
        assert(r.bytes() =~= Seq::new(32, |i: int| 0u8));
        r
    }

    pub fn as_bytes(&self) -> (r: &[u8])
        ensures
            r@ == self.bytes(),
    {
        self.id.as_slice()
    }

    pub fn into_array(self) -> (r: [u8; 32])
        ensures
            r@ == self.bytes(),
    {
        self.id
    }

    pub fn to_vec(&self) -> (r: Vec<u8>)
        ensures
            r@ == self.bytes(),
    {
        bytes32_to_vec(&self.id)
    }
}

impl PartialEq for PayloadId {
    fn eq(&self, other: &PayloadId) -> (r: bool) {
        bytes32_eq(&self.id, &other.id)
    }
}

impl vstd::std_specs::cmp::PartialEqSpecImpl for PayloadId {
    open spec fn obeys_eq_spec() -> bool {
        true
    }

    open spec fn eq_spec(&self, other: &PayloadId) -> bool {
        *self == *other
    }
}

/// The content hash of a tree node.
#[derive(Clone, Copy, Debug, Eq, Hash)]
pub struct TreeNodeHash(pub [u8; 32]);

impl TreeNodeHash {
    pub open spec fn bytes(&self) -> Seq<u8> {
        self.0@
    }

    /// The hash that stands for the genesis node.
    pub fn zero() -> (r: TreeNodeHash)
        ensures
            r.bytes() == Seq::new(32, |i: int| 0u8),
    {
        let r = TreeNodeHash([0u8; 32]);
        assert(r.bytes() =~= Seq::new(32, |i: int| 0u8));
        r
    }

    pub fn is_zero(&self) -> (r: bool)
        ensures
            r <==> self.bytes() == Seq::new(32, |i: int| 0u8),
    {
        let z = TreeNodeHash::zero();
        let r = bytes32_eq(&self.0, &z.0);
        proof {
            if self.bytes() == Seq::new(32, |i: int| 0u8) {
                assert(self.0 =~= z.0);
            }
        }
        r
    }

    pub fn as_bytes(&self) -> (r: Vec<u8>)
        ensures
            r@ == self.bytes(),
    {
        bytes32_to_vec(&self.0)
    }
}

impl PartialEq for TreeNodeHash {
    fn eq(&self, other: &TreeNodeHash) -> (r: bool) {
        bytes32_eq(&self.0, &other.0)
    }
}

impl vstd::std_specs::cmp::PartialEqSpecImpl for TreeNodeHash {
    open spec fn obeys_eq_spec() -> bool {
        true
    }

    open spec fn eq_spec(&self, other: &TreeNodeHash) -> bool {
        *self == *other
    }
}

/// The 32-byte public key by which a validator node is addressed.
#[derive(Clone, Copy, Debug, Eq, Hash)]
pub struct PublicKey(pub [u8; 32]);

impl PublicKey {
    pub open spec fn bytes(&self) -> Seq<u8> {
        self.0@
    }

    /// The all-zero address.
    pub fn zero() -> (r: PublicKey)
        ensures
            r.bytes() == Seq::new(32, |i: int| 0u8),
    {
        let r = PublicKey([0u8; 32]);
        assert(r.bytes() =~= Seq::new(32, |i: int| 0u8));
        r
    }

    pub fn as_bytes(&self) -> (r: Vec<u8>)
        ensures
            r@ == self.bytes(),
    {
        bytes32_to_vec(&self.0)
    }
}

impl PartialEq for PublicKey {
    fn eq(&self, other: &PublicKey) -> (r: bool) {
        bytes32_eq(&self.0, &other.0)
    }
}

impl vstd::std_specs::cmp::PartialEqSpecImpl for PublicKey {
    open spec fn obeys_eq_spec() -> bool {
        true
    }

    open spec fn eq_spec(&self, other: &PublicKey) -> bool {
        *self == *other
    }
}

} // verus!
