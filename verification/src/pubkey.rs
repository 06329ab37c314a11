//! Account addresses and addresses derived from seeds.

use vstd::prelude::*;

verus! {

/// Number of bytes of an address.
pub const PUBKEY_BYTES: usize = 32;

/// Longest seed that an address can be derived from.
pub const MAX_SEED_LEN: usize = 32;

/// An address derived from seeds takes fewer seeds than this, the bump seed
/// not counted.
pub const MAX_SEEDS: usize = 16;

/// The address of an account or of a program: 32 bytes.
#[derive(Clone, Copy, Debug, Eq, Hash)]
pub struct Pubkey(pub [u8; 32]);

impl PartialEq for Pubkey {
    fn eq(&self, other: &Pubkey) -> (r: bool) {
        let mut i: usize = 0;
        while i < 32
            invariant
                i <= 32,
                forall|j: int| 0 <= j < i ==> self.0@[j] == other.0@[j],
            decreases 32 - i,
        {
            if self.0[i] != other.0[i] {
                return false;
            }
            i += 1;
        }
        assert(self.0 =~= other.0);
        true
    }
}

impl vstd::std_specs::cmp::PartialEqSpecImpl for Pubkey {
    open spec fn obeys_eq_spec() -> bool {
        true
    }

    open spec fn eq_spec(&self, other: &Pubkey) -> bool {
        *self == *other
    }
}

/// The array that begins with the first `count` of `bytes` and holds zeros
/// after them.
spec fn array_of(bytes: Seq<u8>, count: nat) -> [u8; 32]
    decreases count,
{
    if count == 0 {
        vstd::array::spec_array_fill_for_copy_type::<u8, 32>(0u8)
    } else {
        vstd::array::spec_array_update(array_of(bytes, (count - 1) as nat), count - 1, bytes[count - 1])
    }
}

proof fn lemma_array_of(bytes: Seq<u8>, count: nat)
    requires
        count <= 32,
    ensures
        forall|i: int| 0 <= i < count ==> array_of(bytes, count)@[i] == bytes[i],
    decreases count,
{
    if count > 0 {
        lemma_array_of(bytes, (count - 1) as nat);
    }
}

impl Default for Pubkey {
    /// The address of all zeros, which stands for "none".
    fn default() -> (r: Pubkey)
        ensures
            r == Pubkey::spec_default(),
    {
        Pubkey([0u8; 32])
    }
}

impl Pubkey {
    /// The bytes of the address.
    pub open spec fn bytes(self) -> Seq<u8> {
        self.0@
    }

    /// The address with the given 32 bytes.
    pub closed spec fn spec_from_bytes(bytes: Seq<u8>) -> Pubkey {
        Pubkey(array_of(bytes, 32))
    }

    /// The address of all zeros.
    pub open spec fn spec_default() -> Pubkey {
        Pubkey(vstd::array::spec_array_fill_for_copy_type::<u8, 32>(0u8))
    }

    /// An address is its 32 bytes: two addresses with the same bytes are the
    /// same address.
    pub proof fn lemma_same_bytes(a: Pubkey, b: Pubkey)
        ensures
            a.bytes() == b.bytes() <==> a == b,
            a.bytes().len() == 32,
    {
        if a.bytes() == b.bytes() {
            assert(a.0 =~= b.0);
        }
    }

    /// The address of 32 bytes has these bytes.
    pub proof fn lemma_from_bytes(bytes: Seq<u8>)
        requires
            bytes.len() == 32,
        ensures
            Pubkey::spec_from_bytes(bytes).bytes() == bytes,
    {
        lemma_array_of(bytes, 32);
        assert(Pubkey::spec_from_bytes(bytes).bytes() =~= bytes);
    }

    /// Reading an address back from its own bytes gives the address.
    pub proof fn lemma_round_trip(a: Pubkey)
        ensures
            Pubkey::spec_from_bytes(a.bytes()) == a,
    {
        Pubkey::lemma_same_bytes(a, a);
        Pubkey::lemma_from_bytes(a.bytes());
        Pubkey::lemma_same_bytes(Pubkey::spec_from_bytes(a.bytes()), a);
    }

    /// The address with the given bytes.
    pub fn new_from_array(bytes: [u8; 32]) -> (r: Pubkey)
        ensures
            r.bytes() == bytes@,
    {
        Pubkey(bytes)
    }

    /// The bytes of the address.
    pub fn to_bytes(&self) -> (r: [u8; 32])
        ensures
            r@ == self.bytes(),
    {
        self.0
    }

    /// The bytes of the address, as a vector.
    pub fn to_vec(&self) -> (r: Vec<u8>)
        ensures
            r@ == self.bytes(),
    {
        vstd::slice::slice_to_vec(self.0.as_slice())
    }

    /// The address that a slice of exactly 32 bytes holds; `None` for any
    /// other length.
    pub fn try_from_slice(data: &[u8]) -> (r: Option<Pubkey>)
        ensures
            data@.len() == 32 <==> r is Some,
            r matches Some(key) ==> key.bytes() == data@ && key == Pubkey::spec_from_bytes(data@),
    {
        if data.len() != 32 {
            return None;
        }
        let mut out = [0u8; 32];
        let mut i: usize = 0;
        while i < 32
            invariant
                i <= 32,
                data@.len() == 32,
                forall|j: int| 0 <= j < i ==> out@[j] == data@[j],
            decreases 32 - i,
        {
            out[i] = data[i];
            i += 1;
        }
        assert(out@ =~= data@);
        let key = Pubkey(out);
        proof {
            Pubkey::lemma_round_trip(key);
        }
        Some(key)
    }

    /// Whether this is the address of all zeros.
    pub fn is_default(&self) -> (r: bool)
        ensures
            r == (*self == Pubkey::spec_default()),
    {
        let zero = Pubkey([0u8; 32]);
        *self == zero
    }
}

/// The address that the seeds and the program derive, with the bump seed
/// that was found for it; `None` where no address can be derived from them.
pub uninterp spec fn derived_address(seeds: Seq<Seq<u8>>, program_id: Pubkey) -> Option<(Pubkey, u8)>;

/// Calls `Pubkey::try_find_program_address` of solana-pubkey. The result is
/// a function of the seeds and the program alone; the contract gives it the
/// name `derived_address` and says nothing more of it.
#[verifier::external_body]
fn try_find_program_address(seeds: &Vec<Vec<u8>>, program_id: &Pubkey) -> (r: Option<(Pubkey, u8)>)
    ensures
        r == derived_address(seeds.deep_view(), *program_id),
{
    let parts: Vec<&[u8]> = seeds.iter().map(|seed| seed.as_slice()).collect();
    let program = solana_pubkey::Pubkey::new_from_array(program_id.0);
    solana_pubkey::Pubkey::try_find_program_address(&parts, &program)
        .map(|(key, bump)| (Pubkey(key.to_bytes()), bump))
}

impl Pubkey {
    /// The address derived from `seeds` for `program_id`, and its bump seed.
    ///
    /// `None` where the seeds derive no address: sixteen seeds or more, a
    /// seed of more than 32 bytes, or no bump seed that leads off the curve.
    pub fn find_program_address(seeds: &Vec<Vec<u8>>, program_id: &Pubkey) -> (r: Option<(Pubkey, u8)>)
        ensures
            r == derived_address(seeds.deep_view(), *program_id),
    {
        try_find_program_address(seeds, program_id)
    }
}

} // verus!
