use vstd::prelude::*;

verus! {

/// Bit `j` (0 = least significant) of the byte `v`.
pub open spec fn get_bit(v: u8, j: u8) -> bool {
    (v >> j) & 1 == 1
}

/// One byte of a child's trait vector: where a selector bit is 1 the bit
/// comes from the first parent, where it is 0 from the second.
pub open spec fn crossover_byte(s: u8, a: u8, b: u8) -> u8 {
    (s & a) | (!s & b)
}

/// A whole child trait vector, byte for byte.
pub open spec fn crossover_spec(sel: Seq<u8>, a: Seq<u8>, b: Seq<u8>) -> Seq<u8> {
    Seq::new(sel.len(), |i: int| crossover_byte(sel[i], a[i], b[i]))
}

/// Law: the crossover is genuinely bit-granular.  For every bit position,
/// the combined byte carries the first parent's bit where the selector bit
/// is 1 and the second parent's bit where it is 0.
pub proof fn lemma_crossover_bit(s: u8, a: u8, b: u8, j: u8)
    by (bit_vector)
    requires
        j < 8,
    ensures
        get_bit(crossover_byte(s, a, b), j) == (if get_bit(s, j) {
            get_bit(a, j)
        } else {
            get_bit(b, j)
        }),
{
}

/// Law, lifted to whole trait vectors: at every byte position `i` and bit
/// position `j`, the child's bit is the first parent's where the selector
/// bit is 1 and the second parent's where it is 0.
pub proof fn lemma_crossover_selects_bits(sel: Seq<u8>, a: Seq<u8>, b: Seq<u8>, i: int, j: u8)
    requires
        a.len() == sel.len(),
        b.len() == sel.len(),
        0 <= i < sel.len(),
        j < 8,
    ensures
        get_bit(crossover_spec(sel, a, b)[i], j) == (if get_bit(sel[i], j) {
            get_bit(a[i], j)
        } else {
            get_bit(b[i], j)
        }),
{
    lemma_crossover_bit(sel[i], a[i], b[i], j);
}

/// Combines two parent trait vectors into a child's under a selector,
/// independently per bit.  Both parents are read only.
pub fn crossover(selector: &[u8; 16], dna1: &[u8; 16], dna2: &[u8; 16]) -> (child: [u8; 16])
    ensures
        child@ == crossover_spec(selector@, dna1@, dna2@),
{
    let mut child: [u8; 16] = [0u8; 16];
    for i in 0..16usize
        invariant
            forall|k: int|
                0 <= k < i ==> child@[k] == crossover_byte(selector@[k], dna1@[k], dna2@[k]),
    {
        child[i] = (selector[i] & dna1[i]) | (!selector[i] & dna2[i]);
    }
    proof {
        assert(child@ =~= crossover_spec(selector@, dna1@, dna2@));
    }
    child
}

} // verus!
