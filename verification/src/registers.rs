//! The register bank: sixteen general-purpose 8-bit registers V0..VF.
//! Register VF doubles as the carry/borrow/collision flag.
use vstd::prelude::*;

verus! {

/// Number of general registers.
pub const REGISTER_COUNT: usize = 16;

/// The sixteen 8-bit general registers.
#[derive(Debug)]
pub struct Registers {
    data: Vec<u8>,
}

impl View for Registers {
    type V = Seq<u8>;

    closed spec fn view(&self) -> Seq<u8> {
        self.data@
    }
}

impl Registers {
    /// The bank always holds exactly sixteen registers.
    pub open spec fn wf(&self) -> bool {
        self@.len() == REGISTER_COUNT
    }

    /// All registers zero.
    pub fn new() -> (r: Registers)
        ensures
            r.wf(),
            forall|i: int| 0 <= i < REGISTER_COUNT ==> r@[i] == 0u8,
    {
        let mut data: Vec<u8> = Vec::new();
        let mut i: usize = 0;
        while i < REGISTER_COUNT
            invariant
                i <= REGISTER_COUNT,
                data@.len() == i,
                forall|k: int| 0 <= k < i ==> data@[k] == 0u8,
            decreases REGISTER_COUNT - i,
        {
            data.push(0u8);
            i = i + 1;
        }
        Registers { data }
    }

    /// A new bank equal to this one except register `index`, which holds
    /// `new_value`.
    pub fn update(&self, index: usize, new_value: u8) -> (r: Registers)
        requires
            self.wf(),
            index < REGISTER_COUNT,
        ensures
            r.wf(),
            r@ == self@.update(index as int, new_value),
    {
        let mut data: Vec<u8> = Vec::new();
        let mut i: usize = 0;
        while i < REGISTER_COUNT
            invariant
                i <= REGISTER_COUNT,
                self.wf(),
                index < REGISTER_COUNT,
                data@.len() == i,
                forall|k: int|
                    0 <= k < i ==> data@[k] == (if k == index {
                        new_value
                    } else {
                        self@[k]
                    }),
            decreases REGISTER_COUNT - i,
        {
            if i == index {
                data.push(new_value);
            } else {
                data.push(self.data[i]);
            }
            i = i + 1;
        }
        let r = Registers { data };
        proof {
            assert(r@ =~= self@.update(index as int, new_value));
        }
        r
    }

    /// The value of register `index`.
    pub fn get(&self, index: usize) -> (r: u8)
        requires
            self.wf(),
            index < REGISTER_COUNT,
        ensures
            r == self@[index as int],
    {
        self.data[index]
    }

    /// A register-for-register copy of the bank.
    pub fn duplicate(&self) -> (r: Registers)
        requires
            self.wf(),
        ensures
            r@ == self@,
            r.wf(),
    {
        let mut data: Vec<u8> = Vec::new();
        let mut i: usize = 0;
        while i < REGISTER_COUNT
            invariant
                i <= REGISTER_COUNT,
                self.wf(),
                data@.len() == i,
                forall|k: int| 0 <= k < i ==> data@[k] == self@[k],
            decreases REGISTER_COUNT - i,
        {
            data.push(self.data[i]);
            i = i + 1;
        }
        let r = Registers { data };
        proof {
            assert(r@ =~= self@);
        }
        r
    }
}

} // verus!
