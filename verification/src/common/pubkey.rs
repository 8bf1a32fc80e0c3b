use vstd::prelude::*;

verus! {

/// The address of an account or a program: 32 bytes.
#[derive(Clone, Copy, Debug)]
pub struct Pubkey {
    pub bytes: [u8; 32],
}

impl View for Pubkey {
    type V = Seq<u8>;

    open spec fn view(&self) -> Seq<u8> {
        self.bytes@
    }
}

impl PartialEq for Pubkey {
    fn eq(&self, other: &Self) -> (r: bool) {
        let mut i: usize = 0;
        while i < 32
            invariant
                i <= 32,
                forall|j: int| 0 <= j < i ==> self.bytes[j] == other.bytes[j],
            decreases 32 - i,
        {
            if self.bytes[i] != other.bytes[i] {
                return false;
            }
            i = i + 1;
        }
        assert(self.bytes =~= other.bytes);
        true
    }
}

impl Eq for Pubkey {

}

impl vstd::std_specs::cmp::PartialEqSpecImpl for Pubkey {
    open spec fn obeys_eq_spec() -> bool {
        true
    }

    open spec fn eq_spec(&self, other: &Self) -> bool {
        *self == *other
    }
}

impl From<[u8; 32]> for Pubkey {
    fn from(bytes: [u8; 32]) -> (r: Pubkey) {
        Pubkey { bytes }
    }
}

impl vstd::std_specs::convert::FromSpecImpl<[u8; 32]> for Pubkey {
    open spec fn obeys_from_spec() -> bool {
        true
    }

    open spec fn from_spec(bytes: [u8; 32]) -> Pubkey {
        Pubkey { bytes }
    }
}

impl Default for Pubkey {
    fn default() -> (r: Self)
        ensures
            r == Pubkey::spec_default(),
    {
        let r = Pubkey { bytes: [0u8; 32] };
        assert(r.bytes =~= Pubkey::spec_default().bytes);
        r
    }
}

impl Pubkey {
    /// The address of all zero bytes, which stands for "no account".
    pub open spec fn spec_default() -> Pubkey {
        Pubkey {
            bytes: [
                0u8, 0u8, 0u8, 0u8, 0u8, 0u8, 0u8, 0u8, 0u8, 0u8, 0u8, 0u8, 0u8, 0u8, 0u8, 0u8,
                0u8, 0u8, 0u8, 0u8, 0u8, 0u8, 0u8, 0u8, 0u8, 0u8, 0u8, 0u8, 0u8, 0u8, 0u8, 0u8,
            ],
        }
    }

    pub fn new_from_array(bytes: [u8; 32]) -> (r: Pubkey)
        ensures
            r.bytes == bytes,
    {
        Pubkey { bytes }
    }

    pub fn to_bytes(self) -> (r: [u8; 32])
        ensures
            r == self.bytes,
    {
        self.bytes
    }

    /// Whether this is the all-zero address.
    pub fn is_default(&self) -> (r: bool)
        ensures
            r == (*self == Pubkey::spec_default()),
    {
        let zero = Pubkey::default();
        *self == zero
    }

    /// Two addresses with the same bytes are the same address.
    pub proof fn lemma_view_injective(a: Pubkey, b: Pubkey)
        requires
            a@ == b@,
        ensures
            a == b,
    {
        assert(a.bytes =~= b.bytes);
    }
}

/// The seeds of a derived address: a tag, then the bytes of each key.
pub open spec fn seeds_of(tag: Seq<u8>, keys: Seq<Pubkey>) -> Seq<Seq<u8>> {
    seq![tag] + keys.map_values(|k: Pubkey| k@)
}

/// The address that `seeds` derive for the program `program_id`, with the
/// bump seed that was found for it, or `None` where no bump seed gives one.
pub uninterp spec fn program_address(seeds: Seq<Seq<u8>>, program_id: Seq<u8>) -> Option<
    (Seq<u8>, u8),
>;

/// Derives a program address with `Pubkey::try_find_program_address` of
/// `anchor_lang`, from a tag and the bytes of `keys` as seeds. The result is
/// the derived address and its bump seed as that function computes them from
/// the seeds and the program's address alone; nothing is known of it beyond
/// its name [`program_address`].
#[verifier::external_body]
pub(crate) fn try_find_program_address(tag: &[u8], keys: &Vec<Pubkey>, program_id: &Pubkey) -> (r:
    Option<(Pubkey, u8)>)
    ensures
        (match r {
            Some(found) => Some((found.0@, found.1)),
            None => None,
        }) == program_address(seeds_of(tag@, keys@), program_id@),
{
    let mut seeds: Vec<&[u8]> = vec![tag];
    for key in keys.iter() {
        seeds.push(&key.bytes);
    }
    let id = anchor_lang::prelude::Pubkey::new_from_array(program_id.bytes);
    match anchor_lang::prelude::Pubkey::try_find_program_address(&seeds, &id) {
        Some((address, bump)) => Some((Pubkey { bytes: address.to_bytes() }, bump)),
        None => None,
    }
}

/// Whether `address` is the one that the tag and keys derive for the
/// program.
pub open spec fn spec_is_program_address(
    address: Pubkey,
    tag: Seq<u8>,
    keys: Seq<Pubkey>,
    program_id: Pubkey,
) -> bool {
    match program_address(seeds_of(tag, keys), program_id@) {
        Some(found) => found.0 == address@,
        None => false,
    }
}

/// Tests whether `address` is the one that the tag and keys derive for the
/// program.
pub fn is_program_address(address: &Pubkey, tag: &[u8], keys: &Vec<Pubkey>, program_id: &Pubkey) -> (r:
    bool)
    ensures
        r == spec_is_program_address(*address, tag@, keys@, *program_id),
{
    match try_find_program_address(tag, keys, program_id) {
        Some(found) => {
            proof {
                if found.0@ == address@ {
                    Pubkey::lemma_view_injective(found.0, *address);
                }
            }
            found.0 == *address
        },
        None => false,
    }
}

} // verus!
