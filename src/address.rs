use solana_program::pubkey::Pubkey;
use vstd::prelude::*;

verus! {

/// Length in bytes of an account address.
pub const ADDRESS_LEN: usize = 32;

/// A 32-byte account address, such as a program identity, a signer, or a
/// record derived from seeds.
#[derive(Clone, Copy, Debug)]
pub struct Address {
    pub bytes: [u8; 32],
}

impl View for Address {
    type V = Seq<u8>;

    open spec fn view(&self) -> Seq<u8> {
        self.bytes@
    }
}

impl Address {
    /// The address whose bytes are `bytes`.
    pub fn new(bytes: [u8; 32]) -> (r: Address)
        ensures
            r@ == bytes@,
    {
        Address { bytes }
    }

    /// Reads an address from exactly 32 bytes.
    pub fn from_slice(s: &[u8]) -> (r: Address)
        requires
            s@.len() == ADDRESS_LEN,
        ensures
            r@ == s@,
    {
        let mut bytes: [u8; 32] = [0u8; 32];
        let mut i: usize = 0;
        while i < ADDRESS_LEN
            invariant
                s@.len() == ADDRESS_LEN,
                i <= ADDRESS_LEN,
                bytes@.len() == ADDRESS_LEN,
                forall|j: int| 0 <= j < i ==> bytes@[j] == s@[j],
            decreases ADDRESS_LEN - i,
        {
            bytes[i] = s[i];
            i = i + 1;
        }
        proof {
            assert(bytes@ =~= s@);
        }
        Address { bytes }
    }

    /// Whether two addresses hold the same bytes.
    pub fn same_as(&self, other: &Address) -> (r: bool)
        ensures
            r == (self@ == other@),
    {
        let mut i: usize = 0;
        while i < ADDRESS_LEN
            invariant
                i <= ADDRESS_LEN,
                self@.len() == ADDRESS_LEN,
                other@.len() == ADDRESS_LEN,
                forall|j: int| 0 <= j < i ==> self@[j] == other@[j],
            decreases ADDRESS_LEN - i,
        {
            if self.bytes[i] != other.bytes[i] {
                return false;
            }
            i = i + 1;
        }
        proof {
            assert(self@ =~= other@);
        }
        true
    }
}

/// Seed tag of a depositor's vault record: the bytes of "vault".
pub open spec fn vault_tag() -> Seq<u8> {
    seq![118u8, 97u8, 117u8, 108u8, 116u8]
}

/// Seed tag of a depositor's transfer ledger: the bytes of "user_transfers".
pub open spec fn transfers_tag() -> Seq<u8> {
    seq![117u8, 115u8, 101u8, 114u8, 95u8, 116u8, 114u8, 97u8, 110u8, 115u8, 102u8, 101u8, 114u8, 115u8]
}

/// The vault seed tag as bytes.
pub fn vault_seed() -> (r: Vec<u8>)
    ensures
        r@ == vault_tag(),
{
    let r = vec![118u8, 97u8, 117u8, 108u8, 116u8];
    proof {
        assert(r@ =~= vault_tag());
    }
    r
}

/// The ledger seed tag as bytes.
pub fn transfers_seed() -> (r: Vec<u8>)
    ensures
        r@ == transfers_tag(),
{
    let r = vec![117u8, 115u8, 101u8, 114u8, 95u8, 116u8, 114u8, 97u8, 110u8, 115u8, 102u8, 101u8, 114u8, 115u8];
    proof {
        assert(r@ =~= transfers_tag());
    }
    r
}

/// The program-derived address of `seeds` under `program`, with its bump
/// seed, or `None` where no bump seed gives an address off the curve.
pub uninterp spec fn program_address(seeds: Seq<Seq<u8>>, program: Seq<u8>) -> Option<(Seq<u8>, u8)>;

/// The address derived from the seed pair `[tag, key]` under `program`.
pub open spec fn derived(tag: Seq<u8>, key: Seq<u8>, program: Seq<u8>) -> Option<(Seq<u8>, u8)> {
    program_address(seq![tag, key], program)
}

/// Whether `candidate` is the address derived from `[tag, key]` under `program`.
pub open spec fn is_derived(tag: Seq<u8>, key: Seq<u8>, program: Seq<u8>, candidate: Seq<u8>) -> bool {
    &&& derived(tag, key, program) is Some
    &&& derived(tag, key, program)->Some_0.0 == candidate
}

/// The seeds that sign for the address derived from `[tag, key]`: the pair
/// followed by the one-byte bump seed.
pub open spec fn signer_seeds(tag: Seq<u8>, key: Seq<u8>, bump: u8) -> Seq<Seq<u8>> {
    seq![tag, key, seq![bump]]
}

/// Relies on solana_program's Pubkey::try_find_program_address: a
/// deterministic function of the seeds and the program identity.
#[verifier::external_body]
fn find_program_address(tag: &[u8], key: &Address, program_id: &Address) -> (r: Option<(Address, u8)>)
    ensures
        r is None <==> program_address(seq![tag@, key@], program_id@) is None,
        r matches Some(p) ==> program_address(seq![tag@, key@], program_id@) == Some((p.0@, p.1)),
{
    let program = Pubkey::new_from_array(program_id.bytes);
    Pubkey::try_find_program_address(&[tag, &key.bytes], &program).map(
        |(a, bump)| (Address { bytes: a.to_bytes() }, bump),
    )
}

/// Derives the address of `[tag, key]` under `program_id` and checks that
/// `candidate` is that address; gives the bump seed when it is.
pub fn verify_derived(tag: &[u8], key: &Address, program_id: &Address, candidate: &Address) -> (r: Option<u8>)
    ensures
        r is Some <==> is_derived(tag@, key@, program_id@, candidate@),
        r matches Some(b) ==> derived(tag@, key@, program_id@)->Some_0.1 == b,
{
    match find_program_address(tag, key, program_id) {
        Some((a, bump)) => {
            if a.same_as(candidate) {
                Some(bump)
            } else {
                None
            }
        },
        None => None,
    }
}

} // verus!
