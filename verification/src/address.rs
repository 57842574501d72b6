//! Identities and the deterministic addresses derived from them.

use vstd::prelude::*;
use vstd::bytes::spec_u64_to_le_bytes;
use vstd::bytes::u64_to_le_bytes;
use anchor_lang::prelude::Pubkey;

verus! {

/// An opaque principal or record address: thirty-two bytes.
#[derive(Clone, Copy, Debug, PartialEq, Eq)]
pub struct Key {
    pub bytes: [u8; 32],
}

impl View for Key {
    type V = Seq<u8>;

    open spec fn view(&self) -> Seq<u8> {
        self.bytes@
    }
}

/// Two keys are the same value exactly when their bytes agree.
pub proof fn lemma_key_by_bytes(a: Key, b: Key)
    ensures
        (a == b) <==> (a@ == b@),
{
    if a@ == b@ {
        assert forall|i: int| 0 <= i < 32 implies a.bytes[i] == b.bytes[i] by {
            assert(a.bytes[i] == a@[i]);
            assert(b.bytes[i] == b@[i]);
        }
        assert(a.bytes =~= b.bytes);
    }
}

impl Key {
    /// The bytes of the key, in order.
    pub fn to_vec(&self) -> (out: Vec<u8>)
        ensures
            out@ == self@,
    {
        let mut out: Vec<u8> = Vec::new();
        let mut i: usize = 0;
        while i < 32
            invariant
                i <= 32,
                out@.len() == i,
                forall|j: int| 0 <= j < i ==> out@[j] == self.bytes@[j],
            decreases 32 - i,
        {
            out.push(self.bytes[i]);
            i += 1;
        }
        assert(out@ =~= self@);
        out
    }

    /// Whether `other` is this very key.
    pub fn same_as(&self, other: &Key) -> (same: bool)
        ensures
            same == (*self == *other),
    {
        let mut i: usize = 0;
        while i < 32
            invariant
                i <= 32,
                forall|j: int| 0 <= j < i ==> self.bytes@[j] == other.bytes@[j],
            decreases 32 - i,
        {
            if self.bytes[i] != other.bytes[i] {
                return false;
            }
            i += 1;
        }
        proof {
            assert(self@ =~= other@);
            lemma_key_by_bytes(*self, *other);
        }
        true
    }
}

/// An identity together with whether the caller has proved control of it.
#[derive(Clone, Copy, Debug, PartialEq, Eq)]
pub struct Signer {
    pub key: Key,
    pub is_signer: bool,
}

impl Signer {
    /// The caller has proved control of exactly the identity `who`.
    pub open spec fn proves(&self, who: Key) -> bool {
        self.is_signer && self.key == who
    }

    /// Decides [`Signer::proves`].
    pub fn verify(&self, who: &Key) -> (ok: bool)
        ensures
            ok == self.proves(*who),
    {
        self.is_signer && self.key.same_as(who)
    }
}

/// The key whose bytes are `bytes`.
pub open spec fn key_of(bytes: Seq<u8>) -> Key {
    choose|k: Key| k@ == bytes
}

/// A key is recovered from its own bytes.
pub proof fn lemma_key_of_view(k: Key)
    ensures
        key_of(k@) == k,
{
    let c = key_of(k@);
    assert(c@ == k@);
    lemma_key_by_bytes(c, k);
}

/// The program address, with its bump seed, that the ledger runtime's search
/// yields for `seeds` under the program `program`; `None` where the search
/// finds none.
pub uninterp spec fn program_address(seeds: Seq<Seq<u8>>, program: Seq<u8>) -> Option<(Seq<u8>, u8)>;

/// The byte strings held by a list of seeds.
pub open spec fn seeds_view(seeds: Seq<Vec<u8>>) -> Seq<Seq<u8>> {
    Seq::new(seeds.len(), |i: int| seeds[i]@)
}

/// Calls `Pubkey::try_find_program_address`. The contract claims only that
/// the search is a function of the seeds and the program key: what comes back
/// is what [`program_address`] names for these bytes.
#[verifier::external_body]
fn try_find_program_address(seeds: &Vec<Vec<u8>>, program: &Key) -> (found: Option<(Key, u8)>)
    ensures
        match found {
            Some((key, bump)) => program_address(seeds_view(seeds@), program@) == Some(
                (key@, bump),
            ),
            None => program_address(seeds_view(seeds@), program@) is None,
        },
{
    let parts: Vec<&[u8]> = seeds.iter().map(|seed| seed.as_slice()).collect();
    let program_id = Pubkey::new_from_array(program.bytes);
    match Pubkey::try_find_program_address(&parts, &program_id) {
        Some((key, bump)) => Some((Key { bytes: key.to_bytes() }, bump)),
        None => None,
    }
}

/// The address that [`program_address`] names for `seeds`, as a key.
pub open spec fn derived_key(seeds: Seq<Seq<u8>>, program: Key) -> Option<Key> {
    match program_address(seeds, program@) {
        Some((bytes, _)) => Some(key_of(bytes)),
        None => None,
    }
}

/// Derives the address for `seeds` under `program`.
pub fn derive_address(seeds: &Vec<Vec<u8>>, program: &Key) -> (address: Option<Key>)
    ensures
        address == derived_key(seeds_view(seeds@), *program),
{
    match try_find_program_address(seeds, program) {
        Some((key, _)) => {
            proof {
                lemma_key_of_view(key);
            }
            Some(key)
        },
        None => None,
    }
}

/// The namespace tag of receipts: the ASCII bytes of `receipt`.
pub open spec fn receipt_namespace() -> Seq<u8> {
    seq![114u8, 101u8, 99u8, 101u8, 105u8, 112u8, 116u8]
}

/// The namespace tag of subscriptions: the ASCII bytes of `subscription`.
pub open spec fn subscription_namespace() -> Seq<u8> {
    seq![115u8, 117u8, 98u8, 115u8, 99u8, 114u8, 105u8, 112u8, 116u8, 105u8, 111u8, 110u8]
}

/// The seeds of a record: its namespace, the two identities, and its number
/// in little-endian bytes.
pub open spec fn record_seeds(namespace: Seq<u8>, merchant: Key, customer: Key, id: u64) -> Seq<
    Seq<u8>,
> {
    seq![namespace, merchant@, customer@, spec_u64_to_le_bytes(id)]
}

/// The address of the receipt `receipt_id` between `merchant` and `customer`.
pub open spec fn spec_receipt_address(
    program: Key,
    merchant: Key,
    customer: Key,
    receipt_id: u64,
) -> Option<Key> {
    derived_key(record_seeds(receipt_namespace(), merchant, customer, receipt_id), program)
}

/// The address of the subscription to plan `plan_id` between `merchant` and
/// `customer`.
pub open spec fn spec_subscription_address(
    program: Key,
    merchant: Key,
    customer: Key,
    plan_id: u64,
) -> Option<Key> {
    derived_key(record_seeds(subscription_namespace(), merchant, customer, plan_id), program)
}

fn record_address(namespace: Vec<u8>, program: &Key, merchant: &Key, customer: &Key, id: u64) -> (address:
    Option<Key>)
    ensures
        address == derived_key(record_seeds(namespace@, *merchant, *customer, id), *program),
{
    let mut seeds: Vec<Vec<u8>> = Vec::new();
    seeds.push(namespace);
    seeds.push(merchant.to_vec());
    seeds.push(customer.to_vec());
    seeds.push(u64_to_le_bytes(id));
    assert(seeds_view(seeds@) =~= record_seeds(namespace@, *merchant, *customer, id));
    derive_address(&seeds, program)
}

/// Derives the address of a receipt.
pub fn receipt_address(program: &Key, merchant: &Key, customer: &Key, receipt_id: u64) -> (address:
    Option<Key>)
    ensures
        address == spec_receipt_address(*program, *merchant, *customer, receipt_id),
{
    let namespace: Vec<u8> = vec![114u8, 101u8, 99u8, 101u8, 105u8, 112u8, 116u8];
    assert(namespace@ =~= receipt_namespace());
    record_address(namespace, program, merchant, customer, receipt_id)
}

/// Derives the address of a subscription.
pub fn subscription_address(program: &Key, merchant: &Key, customer: &Key, plan_id: u64) -> (address:
    Option<Key>)
    ensures
        address == spec_subscription_address(*program, *merchant, *customer, plan_id),
{
    let namespace: Vec<u8> = vec![
        115u8,
        117u8,
        98u8,
        115u8,
        99u8,
        114u8,
        105u8,
        112u8,
        116u8,
        105u8,
        111u8,
        110u8,
    ];
    assert(namespace@ =~= subscription_namespace());
    record_address(namespace, program, merchant, customer, plan_id)
}

} // verus!
