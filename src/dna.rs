use vstd::prelude::*;

verus! {

/// Number of bytes in a kitty's DNA.
pub const DNA_LEN: usize = 16;

/// An immutable 16-byte DNA value identifying a kitty.
#[derive(Clone, Copy, Debug)]
pub struct Kitty(pub [u8; 16]);

/// The gender derived from a kitty's DNA; breeding requires two different ones.
#[derive(Clone, Copy, Debug, PartialEq, Eq, Structural)]
pub enum KittyGender {
    Male,
    Female,
}

/// The gender rule: the parity of the first DNA byte (even is male).
pub open spec fn gender_of(dna: Seq<u8>) -> KittyGender {
    if dna[0] % 2 == 0 {
        KittyGender::Male
    } else {
        KittyGender::Female
    }
}

/// One byte of crossover: each bit comes from `a` where the selector bit is 0
/// and from `b` where it is 1.
pub open spec fn combine_spec(a: u8, b: u8, selector: u8) -> u8 {
    (!selector & a) | (selector & b)
}

/// Byte-wise crossover of two DNA sequences under a selector sequence.
pub open spec fn crossover_spec(a: Seq<u8>, b: Seq<u8>, selector: Seq<u8>) -> Seq<u8> {
    Seq::new(a.len(), |i: int| combine_spec(a[i], b[i], selector[i]))
}

impl Kitty {
    pub open spec fn view(&self) -> Seq<u8> {
        self.0@
    }

    /// The kitty's derived gender.
    pub fn gender(&self) -> (r: KittyGender)
        ensures
            r == gender_of(self@),
    {
        if self.0[0] % 2 == 0 {
            KittyGender::Male
        } else {
            KittyGender::Female
        }
    }

    /// The kitty's DNA bytes.
    pub fn dna(&self) -> (r: [u8; 16])
        ensures
            r@ == self@,
    {
        self.0
    }
}

impl PartialEq for Kitty {
    fn eq(&self, other: &Kitty) -> (r: bool)
        ensures
            r == (self@ == other@),
    {
        let mut i: usize = 0;
        while i < DNA_LEN
            invariant
                i <= DNA_LEN,
                forall|j: int| 0 <= j < i ==> self@[j] == other@[j],
            decreases DNA_LEN - i,
        {
            if self.0[i] != other.0[i] {
                return false;
            }
            i = i + 1;
        }
        assert(self@ =~= other@);
        true
    }
}

impl vstd::std_specs::cmp::PartialEqSpecImpl for Kitty {
    open spec fn obeys_eq_spec() -> bool {
        true
    }

    open spec fn eq_spec(&self, other: &Kitty) -> bool {
        self@ == other@
    }
}

impl Eq for Kitty {
}

/// Crossover of a single byte.
pub fn combine_dna(dna1: u8, dna2: u8, selector: u8) -> (r: u8)
    ensures
        r == combine_spec(dna1, dna2, selector),
{
    (!selector & dna1) | (selector & dna2)
}

/// Byte-wise crossover of two parents' DNA under a selector.
pub fn crossover(first: &[u8; 16], second: &[u8; 16], selector: &[u8; 16]) -> (r: [u8; 16])
    ensures
        r@ == crossover_spec(first@, second@, selector@),
{
    let mut child: [u8; 16] = [0u8; 16];
    let mut i: usize = 0;
    while i < DNA_LEN
        invariant
            i <= DNA_LEN,
            child@.len() == DNA_LEN,
            forall|j: int|
                0 <= j < i ==> child@[j] == combine_spec(first@[j], second@[j], selector@[j]),
        decreases DNA_LEN - i,
    {
        child[i] = combine_dna(first[i], second[i], selector[i]);
        i = i + 1;
    }
    assert(child@ =~= crossover_spec(first@, second@, selector@));
    child
}

} // verus!
