//! Deterministic ids for the outputs of a transaction. Every output id is
//! derived from the transaction hash and a counter, so all validators that
//! execute the transaction derive the same ids; the number of ids is capped.

use vstd::prelude::*;
use vstd::string::StringSliceAdditionalSpecFns;

use crate::hashing::{blake256, blake256_of, extend_bytes};
use crate::ids::{bytes32_eq, bytes32_to_vec};
use crate::table::{Table, TableKey};

verus! {

/// Domain byte of output ids.
pub const OUTPUT_DOMAIN: u8 = 0;

/// Domain byte of resource addresses.
pub const RESOURCE_ADDRESS_DOMAIN: u8 = 1;

/// Domain byte of uuids.
pub const UUID_DOMAIN: u8 = 2;

/// Domain byte of the random byte stream.
pub const RANDOM_BYTES_DOMAIN: u8 = 3;

/// First bucket id handed out.
pub const FIRST_BUCKET_ID: u32 = 1000;

/// The address of a template.
#[derive(Clone, Copy, Debug, PartialEq, Eq, Hash)]
pub struct TemplateAddress(pub [u8; 32]);

impl TableKey for TemplateAddress {
    fn key_eq(&self, other: &TemplateAddress) -> (r: bool) {
        bytes32_eq(&self.0, &other.0)
    }
}

/// The address of the `index`-th component of a template.
#[derive(Clone, Copy, Debug, PartialEq, Eq, Hash)]
pub struct ComponentAddress {
    pub template_address: TemplateAddress,
    pub index: u64,
}

#[derive(Clone, Copy, Debug, PartialEq, Eq, Structural)]
pub enum IdProviderError {
    MaxIdsExceeded { max: u32 },
}

/// `x` as four little-endian bytes.
pub open spec fn u32_le(x: u32) -> Seq<u8> {
    crate::ids::le_digits(x as nat, 4)
}

fn u32_to_le_bytes(x: u32) -> (r: Vec<u8>)
    ensures
        r@ == u32_le(x),
{
    let mut r: Vec<u8> = Vec::new();
    let mut rem: u32 = x;
    let mut i: usize = 0;
    while i < 4
        invariant
            i <= 4,
            r@ + crate::ids::le_digits(rem as nat, (4 - i) as nat) == crate::ids::le_digits(x as nat, 4),
        decreases 4 - i,
    {
        let ghost before = r@;
        let d: u8 = (rem % 256) as u8;
        r.push(d);
        assert(r@ + crate::ids::le_digits((rem / 256) as nat, (4 - i - 1) as nat) =~= before
            + crate::ids::le_digits(rem as nat, (4 - i) as nat));
        rem = rem / 256;
        i = i + 1;
    }
    assert(r@ =~= r@ + crate::ids::le_digits(rem as nat, 0));
    r
}

/// The hash input of a counter-derived id: domain, transaction hash, counter.
pub open spec fn counter_preimage(domain: u8, tx_hash: Seq<u8>, n: u32) -> Seq<u8> {
    seq![domain] + tx_hash + u32_le(n)
}

/// The `k`-th block of the random stream seeded with `seed`; block 0 is the
/// seed itself.
pub open spec fn random_block(seed: Seq<u8>, k: nat) -> Seq<u8>
    decreases k,
{
    if k == 0 {
        seed
    } else {
        blake256_of(seq![RANDOM_BYTES_DOMAIN] + random_block(seed, (k - 1) as nat))
    }
}

/// Blocks 1 to `k` of the random stream, concatenated.
pub open spec fn random_stream(seed: Seq<u8>, k: nat) -> Seq<u8>
    decreases k,
{
    if k == 0 {
        Seq::empty()
    } else {
        random_stream(seed, (k - 1) as nat) + random_block(seed, k)
    }
}

/// Number of 32-byte blocks that cover `len` bytes.
pub open spec fn blocks_for(len: nat) -> nat {
    (len + 31) / 32
}

fn hash_counter(domain: u8, tx_hash: &[u8; 32], n: u32) -> (r: [u8; 32])
    ensures
        r@ == blake256_of(counter_preimage(domain, tx_hash@, n)),
{
    let mut data: Vec<u8> = Vec::new();
    data.push(domain);
    extend_bytes(&mut data, &bytes32_to_vec(tx_hash));
    extend_bytes(&mut data, &u32_to_le_bytes(n));
    assert(data@ =~= counter_preimage(domain, tx_hash@, n));
    blake256(&data)
}

/// Hands out the ids of one transaction's outputs.
pub struct IdProvider {
    pub template_index_map: Table<TemplateAddress, u64>,
    pub transaction_hash: [u8; 32],
    pub max_ids: u32,
    pub current_id: u32,
    pub bucket_id: u32,
    pub uuid: u32,
    pub last_random: [u8; 32],
}

impl IdProvider {
    pub open spec fn wf(&self) -> bool {
        self.template_index_map.wf()
    }

    /// A provider for the transaction with hash `transaction_hash` that may
    /// hand out `max_ids` output ids. `new_components` gives, per template,
    /// the index of its first new component (a later entry for the same
    /// template wins).
    pub fn new(transaction_hash: [u8; 32], new_components: &Vec<(TemplateAddress, u64)>, max_ids: u32) -> (r:
        IdProvider)
        ensures
            r.wf(),
            r.transaction_hash == transaction_hash,
            r.max_ids == max_ids,
            r.current_id == 0,
            r.bucket_id == FIRST_BUCKET_ID,
            r.uuid == 0,
            r.last_random == transaction_hash,
            forall|t: TemplateAddress|
                #[trigger] r.template_index_map.view().contains_key(t) <==> exists|i: int|
                    0 <= i < new_components@.len() && new_components@[i].0 == t,
    {
        let mut map: Table<TemplateAddress, u64> = Table::new();
        let mut i: usize = 0;
        while i < new_components.len()
            invariant
                i <= new_components@.len(),
                map.wf(),
                forall|t: TemplateAddress|
                    #[trigger] map.view().contains_key(t) <==> exists|j: int|
                        0 <= j < i && new_components@[j].0 == t,
            decreases new_components.len() - i,
        {
            let (t, index) = new_components[i];
            map.insert(t, index);
            proof {
                assert forall|tt: TemplateAddress|
                    #[trigger] map.view().contains_key(tt) <==> exists|j: int|
                        0 <= j < i + 1 && new_components@[j].0 == tt by {
                    if tt == t {
                        assert(new_components@[i as int].0 == tt);
                    }
                }
            }
            i = i + 1;
        }
        IdProvider {
            template_index_map: map,
            transaction_hash,
            max_ids,
            current_id: 0,
            bucket_id: FIRST_BUCKET_ID,
            uuid: 0,
            last_random: transaction_hash,
        }
    }

    /// The next counter value; fails once `max_ids` values were handed out.
    fn next(&mut self) -> (r: Result<u32, IdProviderError>)
        ensures
            final(self).current_id == old(self).current_id.wrapping_add(1),
            final(self).template_index_map == old(self).template_index_map,
            final(self).transaction_hash == old(self).transaction_hash,
            final(self).max_ids == old(self).max_ids,
            final(self).bucket_id == old(self).bucket_id,
            final(self).uuid == old(self).uuid,
            final(self).last_random == old(self).last_random,
            old(self).current_id < old(self).max_ids ==> r == Ok::<u32, IdProviderError>(old(self).current_id),
            old(self).current_id >= old(self).max_ids ==> r == Err::<u32, IdProviderError>(
                IdProviderError::MaxIdsExceeded { max: old(self).max_ids },
            ),
    {
        let id = self.current_id;
        self.current_id = self.current_id.wrapping_add(1);
        if id >= self.max_ids {
            return Err(IdProviderError::MaxIdsExceeded { max: self.max_ids });
        }
        Ok(id)
    }

    pub fn transaction_hash(&self) -> (r: [u8; 32])
        ensures
            r == self.transaction_hash,
    {
        self.transaction_hash
    }

    /// A new output id, the hash of the transaction hash and the counter.
    pub fn new_id(&mut self) -> (r: Result<[u8; 32], IdProviderError>)
        ensures
            final(self).current_id == old(self).current_id.wrapping_add(1),
            final(self).template_index_map == old(self).template_index_map,
            final(self).transaction_hash == old(self).transaction_hash,
            final(self).max_ids == old(self).max_ids,
            final(self).bucket_id == old(self).bucket_id,
            final(self).uuid == old(self).uuid,
            final(self).last_random == old(self).last_random,
            old(self).current_id < old(self).max_ids ==> r is Ok && r->Ok_0@ == blake256_of(
                counter_preimage(OUTPUT_DOMAIN, old(self).transaction_hash@, old(self).current_id),
            ),
            old(self).current_id >= old(self).max_ids ==> r == Err::<[u8; 32], IdProviderError>(
                IdProviderError::MaxIdsExceeded { max: old(self).max_ids },
            ),
    {
        let n = match self.next() {
            Ok(n) => n,
            Err(e) => return Err(e),
        };
        Ok(hash_counter(OUTPUT_DOMAIN, &self.transaction_hash, n))
    }

    /// A new address hash; the same as a new output id.
    pub fn new_address_hash(&mut self) -> (r: Result<[u8; 32], IdProviderError>)
        ensures
            final(self).current_id == old(self).current_id.wrapping_add(1),
            final(self).template_index_map == old(self).template_index_map,
            final(self).transaction_hash == old(self).transaction_hash,
            final(self).max_ids == old(self).max_ids,
            final(self).bucket_id == old(self).bucket_id,
            final(self).uuid == old(self).uuid,
            final(self).last_random == old(self).last_random,
            old(self).current_id < old(self).max_ids ==> r is Ok && r->Ok_0@ == blake256_of(
                counter_preimage(OUTPUT_DOMAIN, old(self).transaction_hash@, old(self).current_id),
            ),
            old(self).current_id >= old(self).max_ids ==> r == Err::<[u8; 32], IdProviderError>(
                IdProviderError::MaxIdsExceeded { max: old(self).max_ids },
            ),
    {
        self.new_id()
    }

    /// A new vault id; the same as a new output id.
    pub fn new_vault_id(&mut self) -> (r: Result<[u8; 32], IdProviderError>)
        ensures
            final(self).current_id == old(self).current_id.wrapping_add(1),
            final(self).template_index_map == old(self).template_index_map,
            final(self).transaction_hash == old(self).transaction_hash,
            final(self).max_ids == old(self).max_ids,
            final(self).bucket_id == old(self).bucket_id,
            final(self).uuid == old(self).uuid,
            final(self).last_random == old(self).last_random,
            old(self).current_id < old(self).max_ids ==> r is Ok && r->Ok_0@ == blake256_of(
                counter_preimage(OUTPUT_DOMAIN, old(self).transaction_hash@, old(self).current_id),
            ),
            old(self).current_id >= old(self).max_ids ==> r == Err::<[u8; 32], IdProviderError>(
                IdProviderError::MaxIdsExceeded { max: old(self).max_ids },
            ),
    {
        self.new_id()
    }

    /// The next component address of `template_address`: its next index,
    /// starting at 0 for a template without one.
    pub fn new_component_address(&mut self, template_address: &TemplateAddress) -> (r: Result<
        ComponentAddress,
        IdProviderError,
    >)
        requires
            old(self).wf(),
            old(self).template_index_map.view().contains_key(*template_address)
                ==> old(self).template_index_map.view()[*template_address] < u64::MAX,
        ensures
            final(self).wf(),
            ({
                let m = old(self).template_index_map.view();
                let index = if m.contains_key(*template_address) {
                    m[*template_address]
                } else {
                    0
                };
                &&& r == Ok::<ComponentAddress, IdProviderError>(
                    ComponentAddress { template_address: *template_address, index },
                )
                &&& final(self).template_index_map.view() == m.insert(*template_address, (index + 1) as u64)
            }),
            final(self).transaction_hash == old(self).transaction_hash,
            final(self).max_ids == old(self).max_ids,
            final(self).current_id == old(self).current_id,
            final(self).bucket_id == old(self).bucket_id,
            final(self).uuid == old(self).uuid,
            final(self).last_random == old(self).last_random,
    {
        let index: u64 = match self.template_index_map.get(template_address) {
            Some(i) => *i,
            None => 0,
        };
        self.template_index_map.insert(*template_address, index + 1);
        Ok(ComponentAddress { template_address: *template_address, index })
    }

    /// The address of the resource `token_symbol` of `template_address`.
    pub fn new_resource_address(&self, template_address: &TemplateAddress, token_symbol: &str) -> (r: Result<
        [u8; 32],
        IdProviderError,
    >)
        ensures
            r is Ok,
            r->Ok_0@ == blake256_of(
                seq![RESOURCE_ADDRESS_DOMAIN] + template_address.0@ + token_symbol.spec_bytes(),
            ),
    {
        let mut data: Vec<u8> = Vec::new();
        data.push(RESOURCE_ADDRESS_DOMAIN);
        extend_bytes(&mut data, &bytes32_to_vec(&template_address.0));
        let symbol = token_symbol.as_bytes();
        let mut i: usize = 0;
        let ghost start = data@;
        while i < symbol.len()
            invariant
                i <= symbol@.len(),
                data@ == start + symbol@.subrange(0, i as int),
            decreases symbol.len() - i,
        {
            data.push(symbol[i]);
            i = i + 1;
            assert(data@ =~= start + symbol@.subrange(0, i as int));
        }
        assert(symbol@.subrange(0, symbol@.len() as int) =~= symbol@);
        Ok(blake256(&data))
    }

    /// A new bucket id. Buckets are not stored in shards, so they do not
    /// count against the id limit.
    pub fn new_bucket_id(&mut self) -> (r: u32)
        ensures
            r == old(self).bucket_id,
            final(self).bucket_id == old(self).bucket_id.wrapping_add(1),
            final(self).template_index_map == old(self).template_index_map,
            final(self).transaction_hash == old(self).transaction_hash,
            final(self).max_ids == old(self).max_ids,
            final(self).current_id == old(self).current_id,
            final(self).uuid == old(self).uuid,
            final(self).last_random == old(self).last_random,
    {
        let b = self.bucket_id;
        self.bucket_id = self.bucket_id.wrapping_add(1);
        b
    }

    /// A new uuid, the hash of the transaction hash and the uuid counter.
    pub fn new_uuid(&mut self) -> (r: Result<[u8; 32], IdProviderError>)
        ensures
            r is Ok,
            r->Ok_0@ == blake256_of(counter_preimage(UUID_DOMAIN, old(self).transaction_hash@, old(self).uuid)),
            final(self).uuid == old(self).uuid.wrapping_add(1),
            final(self).template_index_map == old(self).template_index_map,
            final(self).transaction_hash == old(self).transaction_hash,
            final(self).max_ids == old(self).max_ids,
            final(self).current_id == old(self).current_id,
            final(self).bucket_id == old(self).bucket_id,
            final(self).last_random == old(self).last_random,
    {
        let n = self.uuid;
        self.uuid = self.uuid.wrapping_add(1);
        Ok(hash_counter(UUID_DOMAIN, &self.transaction_hash, n))
    }

    /// The next `len` bytes of the transaction's random stream: blocks of
    /// 32 bytes, each the hash of the one before, starting from the last
    /// block handed out (the transaction hash at first).
    pub fn get_random_bytes(&mut self, len: u32) -> (r: Result<Vec<u8>, IdProviderError>)
        ensures
            r is Ok,
            ({
                let k = blocks_for(len as nat);
                let seed = old(self).last_random@;
                &&& random_stream(seed, k).len() == 32 * k
                &&& r->Ok_0@ == random_stream(seed, k).subrange(0, len as int)
                &&& final(self).last_random@ == random_block(seed, k)
            }),
            final(self).template_index_map == old(self).template_index_map,
            final(self).transaction_hash == old(self).transaction_hash,
            final(self).max_ids == old(self).max_ids,
            final(self).current_id == old(self).current_id,
            final(self).bucket_id == old(self).bucket_id,
            final(self).uuid == old(self).uuid,
    {
        let ghost seed = self.last_random@;
        let ghost mut k: nat = 0;
        let mut result: Vec<u8> = Vec::new();
        while result.len() < len as usize
            invariant
                random_stream(seed, k).len() == 32 * k,
                self.last_random@ == random_block(seed, k),
                result@.len() <= len,
                result@.len() == if 32 * k <= len { 32 * k } else { len as nat },
                result@ == random_stream(seed, k).subrange(0, result@.len() as int),
                result@.len() < len ==> 32 * k == result@.len(),
                k <= blocks_for(len as nat),
                len > 0 ==> k == blocks_for(result@.len() as nat) || result@.len() < len,
                self.template_index_map == old(self).template_index_map,
                self.transaction_hash == old(self).transaction_hash,
                self.max_ids == old(self).max_ids,
                self.current_id == old(self).current_id,
                self.bucket_id == old(self).bucket_id,
                self.uuid == old(self).uuid,
                result@.len() == len ==> k == blocks_for(len as nat),
            decreases len - result@.len(),
        {
            let mut data: Vec<u8> = Vec::new();
            data.push(RANDOM_BYTES_DOMAIN);
            extend_bytes(&mut data, &bytes32_to_vec(&self.last_random));
            let block = blake256(&data);
            let ghost prev = result@;
            proof {
                assert(data@ =~= seq![RANDOM_BYTES_DOMAIN] + random_block(seed, k));
                k = k + 1;
                assert(random_stream(seed, k) == random_stream(seed, (k - 1) as nat) + block@);
            }
            let mut j: usize = 0;
            while j < 32 && result.len() < len as usize
                invariant
                    j <= 32,
                    block@.len() == 32,
                    random_stream(seed, k).len() == 32 * k,
                    random_stream(seed, k) == random_stream(seed, (k - 1) as nat) + block@,
                    prev.len() == 32 * (k - 1),
                    k >= 1,
                    prev == random_stream(seed, (k - 1) as nat),
                    result@ == prev + block@.subrange(0, j as int),
                    result@.len() <= len,
                decreases 32 - j,
            {
                result.push(block[j]);
                j = j + 1;
                assert(result@ =~= prev + block@.subrange(0, j as int));
            }
            assert(result@ =~= random_stream(seed, k).subrange(0, result@.len() as int));
            self.last_random = block;
        }
        assert(k == blocks_for(len as nat));
        Ok(result)
    }
}

} // verus!
