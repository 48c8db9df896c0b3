use vstd::prelude::*;

verus! {

/// A 32-byte account address.
#[derive(Clone, Copy, Debug, Eq, Hash)]
pub struct Pubkey {
    pub bytes: [u8; 32],
}

impl View for Pubkey {
    type V = Seq<u8>;

    open spec fn view(&self) -> Seq<u8> {
        self.bytes@
    }
}

impl Pubkey {
    /// Wraps the given 32 bytes as an address.
    pub fn new_from_array(bytes: [u8; 32]) -> (k: Pubkey)
        ensures
            k@ == bytes@,
    {
        Pubkey { bytes }
    }

    /// Reads an address from the 32 bytes of `bytes` that begin at `start`.
    pub fn from_slice_at(bytes: &[u8], start: usize) -> (k: Pubkey)
        requires
            start + 32 <= bytes@.len(),
        ensures
            k@ == bytes@.subrange(start as int, start + 32),
    {
        let n = bytes.len();
        let mut a = [0u8; 32];
        let mut i: usize = 0;
        while i < 32
            invariant
                0 <= i <= 32,
                n == bytes@.len(),
                start + 32 <= n,
                a@.len() == 32,
                forall|j: int| 0 <= j < i ==> a@[j] == bytes@[start + j],
            decreases 32 - i,
        {
            a[i] = bytes[start + i];
            i = i + 1;
        }
        let k = Pubkey { bytes: a };
        assert(k@ =~= bytes@.subrange(start as int, start + 32));
        k
    }

    /// The address as a vector of its 32 bytes.
    pub fn to_vec(&self) -> (v: Vec<u8>)
        ensures
            v@ == self@,
    {
        vstd::slice::slice_to_vec(self.bytes.as_slice())
    }

    /// The address as a byte array.
    pub fn to_bytes(&self) -> (b: [u8; 32])
        ensures
            b@ == self@,
    {
        self.bytes
    }

}

impl PartialEq for Pubkey {
    fn eq(&self, other: &Pubkey) -> (r: bool) {
        let mut i: usize = 0;
        while i < 32
            invariant
                0 <= i <= 32,
                self@.len() == 32,
                other@.len() == 32,
                forall|j: int| 0 <= j < i ==> self@[j] == other@[j],
            decreases 32 - i,
        {
            if self.bytes[i] != other.bytes[i] {
                return false;
            }
            i = i + 1;
        }
        assert(self@ =~= other@);
        true
    }
}

impl vstd::std_specs::cmp::PartialEqSpecImpl for Pubkey {
    open spec fn obeys_eq_spec() -> bool {
        true
    }

    open spec fn eq_spec(&self, other: &Pubkey) -> bool {
        self@ == other@
    }
}

/// The bytes of this program's own address.
pub open spec fn program_id_bytes() -> Seq<u8> {
    seq![
        32u8, 146, 211, 81, 19, 203, 74, 211, 121, 32, 222, 65, 111, 64, 186, 69,
        58, 106, 82, 152, 140, 60, 119, 145, 186, 20, 2, 188, 240, 95, 184, 31,
    ]
}

/// This program's own address, under which its derived addresses are found.
pub fn program_id() -> (k: Pubkey)
    ensures
        k@ == program_id_bytes(),
{
    let k = Pubkey {
        bytes: [
            32u8, 146, 211, 81, 19, 203, 74, 211, 121, 32, 222, 65, 111, 64, 186, 69,
            58, 106, 82, 152, 140, 60, 119, 145, 186, 20, 2, 188, 240, 95, 184, 31,
        ],
    };
    assert(k@ =~= program_id_bytes());
    k
}


} // verus!
