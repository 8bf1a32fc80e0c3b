use vstd::prelude::*;

verus! {

/// What a swap of a given amount in asks for.
#[derive(Clone, Copy, Debug, Default, PartialEq, Eq, Structural)]
pub struct SwapInstructionBaseIn {
    /// Tokens of the source to give.
    pub amount_in: u64,
    /// Least tokens of the destination to take for them.
    pub minimum_amount_out: u64,
}

/// The instructions of the pool program, of which only the swap of a given
/// amount in is made here.
#[derive(Clone, Copy, Debug, PartialEq, Eq, Structural)]
pub enum AmmInstruction {
    Reserved,
    Reserved0,
    Reserved1,
    Reserved2,
    Reserved3,
    Reserved4,
    Reserved5,
    Reserved6,
    Reserved7,
    /// Swap of a given amount in.
    SwapBaseIn(SwapInstructionBaseIn),
    Reserved8,
    Reserved9,
    Reserved10,
}

/// The eight bytes of a 64-bit number, least significant first.
pub open spec fn le_bytes(x: u64) -> Seq<u8> {
    seq![
        (x % 0x100) as u8,
        ((x / 0x100) % 0x100) as u8,
        ((x / 0x1_0000) % 0x100) as u8,
        ((x / 0x100_0000) % 0x100) as u8,
        ((x / 0x1_0000_0000) % 0x100) as u8,
        ((x / 0x100_0000_0000) % 0x100) as u8,
        ((x / 0x1_0000_0000_0000) % 0x100) as u8,
        ((x / 0x100_0000_0000_0000) % 0x100) as u8,
    ]
}

fn push_le(buf: &mut Vec<u8>, x: u64)
    ensures
        final(buf)@ == old(buf)@ + le_bytes(x),
{
    let ghost before = buf@;
    buf.push((x % 0x100) as u8);
    buf.push(((x / 0x100) % 0x100) as u8);
    buf.push(((x / 0x1_0000) % 0x100) as u8);
    buf.push(((x / 0x100_0000) % 0x100) as u8);
    buf.push(((x / 0x1_0000_0000) % 0x100) as u8);
    buf.push(((x / 0x100_0000_0000) % 0x100) as u8);
    buf.push(((x / 0x1_0000_0000_0000) % 0x100) as u8);
    buf.push(((x / 0x100_0000_0000_0000) % 0x100) as u8);
    assert(buf@ =~= before + le_bytes(x));
}

impl AmmInstruction {
    /// The bytes of an instruction: for the swap of a given amount in the
    /// tag 9, then the amount in and the least amount out, each as eight
    /// bytes, least significant first; for any other none.
    pub open spec fn spec_pack(&self) -> Seq<u8> {
        match *self {
            AmmInstruction::SwapBaseIn(swap) => seq![9u8] + le_bytes(swap.amount_in) + le_bytes(
                swap.minimum_amount_out,
            ),
            _ => Seq::<u8>::empty(),
        }
    }

    /// Packs the instruction into bytes.
    pub fn pack(&self) -> (r: Vec<u8>)
        ensures
            r@ == self.spec_pack(),
    {
        let mut buf: Vec<u8> = Vec::new();
        match self {
            AmmInstruction::SwapBaseIn(swap) => {
                buf.push(9);
                push_le(&mut buf, swap.amount_in);
                push_le(&mut buf, swap.minimum_amount_out);
                assert(buf@ =~= self.spec_pack());
            },
            _ => {},
        }
        buf
    }
}

} // verus!
