use crate::common::constants::DISCRIMINATOR_BYTES;
use crate::common::pubkey::Pubkey;
use vstd::prelude::*;
use vstd::string::StringSliceAdditionalSpecFns;

verus! {

/// Where a stored record ends: its size, with the bytes that tell its kind
/// added where the size does not count them.
pub fn calculate_end_byte_to_serialize(account_size: usize, is_discriminator_included: bool) -> (r:
    usize)
    requires
        !is_discriminator_included ==> account_size + DISCRIMINATOR_BYTES <= usize::MAX,
    ensures
        r == if is_discriminator_included {
            account_size as int
        } else {
            account_size + DISCRIMINATOR_BYTES
        },
{
    if is_discriminator_included {
        account_size
    } else {
        account_size + DISCRIMINATOR_BYTES
    }
}

/// The SHA-256 digest of `bytes`.
pub uninterp spec fn sha256(bytes: Seq<u8>) -> Seq<u8>;

/// Hashes bytes with `hash` of `anchor_lang::solana_program::hash`, which
/// computes their SHA-256 digest. The digest is known here only by its name
/// [`sha256`] and by its length, which the result's type gives.
#[verifier::external_body]
fn hash(val: &Vec<u8>) -> (r: [u8; 32])
    ensures
        r@ == sha256(val@),
{
    anchor_lang::solana_program::hash::hash(val.as_slice()).to_bytes()
}

/// The text that a sighash is the digest of: namespace, a colon, name.
pub open spec fn spec_preimage(namespace: &str, name: &str) -> Seq<u8> {
    namespace.spec_bytes() + seq![58u8] + name.spec_bytes()
}

/// The eight bytes by which an instruction is known: the leading bytes of
/// the digest of `namespace:name`.
pub fn sighash(namespace: &str, name: &str) -> (r: [u8; 8])
    ensures
        r@ == sha256(spec_preimage(namespace, name)).subrange(0, 8),
{
    let mut preimage: Vec<u8> = Vec::new();
    preimage.extend_from_slice(namespace.as_bytes());
    preimage.push(58u8);
    preimage.extend_from_slice(name.as_bytes());
    assert(preimage@ =~= spec_preimage(namespace, name));
    let digest = hash(&preimage);
    let r = [
        digest[0],
        digest[1],
        digest[2],
        digest[3],
        digest[4],
        digest[5],
        digest[6],
        digest[7],
    ];
    assert(r@ =~= digest@.subrange(0, 8));
    r
}

/// An account as an instruction names it.
#[derive(Clone, Copy, Debug, PartialEq, Eq)]
pub struct AccountMeta {
    pub pubkey: Pubkey,
    /// Whether the account signs.
    pub is_signer: bool,
    /// Whether the instruction may change the account.
    pub is_writable: bool,
}

impl AccountMeta {
    /// An account that the instruction may change.
    pub fn new(pubkey: Pubkey, is_signer: bool) -> (r: AccountMeta)
        ensures
            r == (AccountMeta { pubkey, is_signer, is_writable: true }),
    {
        AccountMeta { pubkey, is_signer, is_writable: true }
    }

    /// An account that the instruction only reads.
    pub fn new_readonly(pubkey: Pubkey, is_signer: bool) -> (r: AccountMeta)
        ensures
            r == (AccountMeta { pubkey, is_signer, is_writable: false }),
    {
        AccountMeta { pubkey, is_signer, is_writable: false }
    }
}

/// A call of another program.
#[derive(Clone, Debug, PartialEq, Eq)]
pub struct Instruction {
    /// The program called.
    pub program_id: Pubkey,
    /// The accounts handed to it.
    pub accounts: Vec<AccountMeta>,
    /// What it is asked to do.
    pub data: Vec<u8>,
}

/// The arguments one after the other.
pub open spec fn concat(args: Seq<Vec<u8>>) -> Seq<u8>
    decreases args.len(),
{
    if args.len() == 0 {
        Seq::<u8>::empty()
    } else {
        concat(args.drop_last()) + args.last()@
    }
}

/// The instruction by which a program is asked to run the handler `name` of
/// the namespace on the arguments: its data are the handler's sighash and
/// then the arguments, one after the other.
pub fn build_instruction(
    namespace: &str,
    name: &str,
    args: &Vec<Vec<u8>>,
    program_id: Pubkey,
    accounts_meta: Vec<AccountMeta>,
) -> (r: Instruction)
    ensures
        r.program_id == program_id,
        r.accounts == accounts_meta,
        r.data@ == sha256(spec_preimage(namespace, name)).subrange(0, 8) + concat(args@),
{
    let head = sighash(namespace, name);
    let mut data: Vec<u8> = Vec::new();
    data.extend_from_slice(head.as_slice());
    let mut i: usize = 0;
    assert(args@.take(0) =~= Seq::<Vec<u8>>::empty());
    while i < args.len()
        invariant
            i <= args.len(),
            data@ == head@ + concat(args@.take(i as int)),
        decreases args.len() - i,
    {
        proof {
            let next = args@.take(i + 1);
            assert(next.drop_last() =~= args@.take(i as int));
            assert(next.last() == args@[i as int]);
        }
        data.extend_from_slice(args[i].as_slice());
        i = i + 1;
    }
    assert(args@.take(args.len() as int) =~= args@);
    Instruction { program_id, accounts: accounts_meta, data }
}

} // verus!
