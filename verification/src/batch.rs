use crate::identity::Identity;
use vstd::prelude::*;

verus! {

/// Length of the tag that opens the data of every action of this program.
pub const TAG_LEN: usize = 8;

/// Tag of a `borrow`: the first eight bytes of the SHA-256 digest of `global:borrow`.
pub const BORROW_TAG: [u8; 8] = [228, 253, 131, 202, 207, 116, 89, 18];

/// Tag of a `repay`: the first eight bytes of the SHA-256 digest of `global:repay`.
pub const REPAY_TAG: [u8; 8] = [234, 103, 67, 82, 208, 234, 219, 166];

/// What the data of an action asks for, as far as pairing is concerned.
#[derive(Clone, Copy, Debug, PartialEq, Eq, Structural)]
pub enum Operation {
    /// Borrow `amount` units from the vault.
    Borrow { amount: u64 },
    /// Return the principal and the fee.
    Repay,
    /// Anything else.
    Other,
}

/// `data` opens with the eight bytes of `tag`.
pub open spec fn has_tag(data: Seq<u8>, tag: Seq<u8>) -> bool {
    &&& data.len() >= TAG_LEN
    &&& forall|k: int| 0 <= k < TAG_LEN ==> data[k] == tag[k]
}

/// The number that eight bytes spell, least significant byte first.
pub open spec fn spec_u64_le(b: Seq<u8>) -> int {
    b[0] + b[1] * 0x100 + b[2] * 0x1_0000 + b[3] * 0x100_0000 + b[4] * 0x1_0000_0000 + b[5]
        * 0x100_0000_0000 + b[6] * 0x1_0000_0000_0000 + b[7] * 0x100_0000_0000_0000
}

/// The operation that the data of an action spells: the tag of a `repay`; or the tag of a
/// `borrow` followed by the amount in eight bytes, least significant first; anything else is
/// no operation of interest. Bytes after these are ignored.
pub open spec fn spec_decode(data: Seq<u8>) -> Operation {
    if has_tag(data, REPAY_TAG@) {
        Operation::Repay
    } else if has_tag(data, BORROW_TAG@) && data.len() >= TAG_LEN + 8 {
        Operation::Borrow { amount: spec_u64_le(data.subrange(TAG_LEN as int, TAG_LEN + 8)) as u64 }
    } else {
        Operation::Other
    }
}

fn starts_with(data: &Vec<u8>, tag: &[u8; 8]) -> (yes: bool)
    ensures
        yes == has_tag(data@, tag@),
{
    if data.len() < TAG_LEN {
        return false;
    }
    let mut k: usize = 0;
    while k < TAG_LEN
        invariant
            k <= TAG_LEN <= data.len(),
            forall|i: int| 0 <= i < k ==> data@[i] == tag@[i],
        decreases TAG_LEN - k,
    {
        if data[k] != tag[k] {
            return false;
        }
        k += 1;
    }
    true
}

/// Reads the operation out of the data of an action.
pub fn decode(data: &Vec<u8>) -> (op: Operation)
    ensures
        op == spec_decode(data@),
{
    if starts_with(data, &REPAY_TAG) {
        Operation::Repay
    } else if starts_with(data, &BORROW_TAG) && data.len() >= TAG_LEN + 8 {
        let ghost b = data@.subrange(TAG_LEN as int, TAG_LEN + 8);
        assert(forall|i: int| 0 <= i < 8 ==> b[i] == data@[TAG_LEN + i]);
        let amount: u64 = data[8] as u64 + data[9] as u64 * 0x100 + data[10] as u64 * 0x1_0000
            + data[11] as u64 * 0x100_0000 + data[12] as u64 * 0x1_0000_0000 + data[13] as u64
            * 0x100_0000_0000 + data[14] as u64 * 0x1_0000_0000_0000 + data[15] as u64
            * 0x100_0000_0000_0000;
        Operation::Borrow { amount }
    } else {
        Operation::Other
    }
}

/// The data of a `repay`: its tag and nothing else.
pub fn encode_repay() -> (data: Vec<u8>)
    ensures
        data@.len() == TAG_LEN,
        spec_decode(data@) == Operation::Repay,
{
    let mut data: Vec<u8> = Vec::new();
    let mut k: usize = 0;
    while k < TAG_LEN
        invariant
            k <= TAG_LEN,
            data@.len() == k,
            forall|i: int| 0 <= i < k ==> data@[i] == REPAY_TAG@[i],
        decreases TAG_LEN - k,
    {
        data.push(REPAY_TAG[k]);
        k += 1;
    }
    data
}

/// The data of a `borrow` of `amount`: its tag, then the amount in eight bytes, least
/// significant first.
pub fn encode_borrow(amount: u64) -> (data: Vec<u8>)
    ensures
        data@.len() == TAG_LEN + 8,
        spec_decode(data@) == (Operation::Borrow { amount }),
{
    let mut data: Vec<u8> = Vec::new();
    let mut k: usize = 0;
    while k < TAG_LEN
        invariant
            k <= TAG_LEN,
            data@.len() == k,
            forall|i: int| 0 <= i < k ==> data@[i] == BORROW_TAG@[i],
        decreases TAG_LEN - k,
    {
        data.push(BORROW_TAG[k]);
        k += 1;
    }
    let ghost tag = data@;
    let b0: u8 = (amount % 0x100) as u8;
    let r1: u64 = amount / 0x100;
    let b1: u8 = (r1 % 0x100) as u8;
    let r2: u64 = r1 / 0x100;
    let b2: u8 = (r2 % 0x100) as u8;
    let r3: u64 = r2 / 0x100;
    let b3: u8 = (r3 % 0x100) as u8;
    let r4: u64 = r3 / 0x100;
    let b4: u8 = (r4 % 0x100) as u8;
    let r5: u64 = r4 / 0x100;
    let b5: u8 = (r5 % 0x100) as u8;
    let r6: u64 = r5 / 0x100;
    let b6: u8 = (r6 % 0x100) as u8;
    let r7: u64 = r6 / 0x100;
    let b7: u8 = (r7 % 0x100) as u8;
    assert(b0 + b1 * 0x100 + b2 * 0x1_0000 + b3 * 0x100_0000 + b4 * 0x1_0000_0000 + b5
        * 0x100_0000_0000 + b6 * 0x1_0000_0000_0000 + b7 * 0x100_0000_0000_0000 == amount) by {
        assert(amount == r1 * 0x100 + b0);
        assert(r1 == r2 * 0x100 + b1);
        assert(r2 == r3 * 0x100 + b2);
        assert(r3 == r4 * 0x100 + b3);
        assert(r4 == r5 * 0x100 + b4);
        assert(r5 == r6 * 0x100 + b5);
        assert(r6 == r7 * 0x100 + b6);
        assert(r7 < 0x100);
        assert(r7 == b7);
    }
    data.push(b0);
    data.push(b1);
    data.push(b2);
    data.push(b3);
    data.push(b4);
    data.push(b5);
    data.push(b6);
    data.push(b7);
    proof {
        assert(forall|i: int| 0 <= i < TAG_LEN ==> data@[i] == tag[i]);
        assert(data@[0] == BORROW_TAG@[0]);
        assert(BORROW_TAG@[0] != REPAY_TAG@[0]);
        assert(!has_tag(data@, REPAY_TAG@));
        let b = data@.subrange(TAG_LEN as int, TAG_LEN + 8);
        assert(b[0] == b0 && b[1] == b1 && b[2] == b2 && b[3] == b3 && b[4] == b4 && b[5] == b5
            && b[6] == b6 && b[7] == b7);
    }
    data
}

/// One action of a batch as the batch declares it, before it runs: the program it is
/// addressed to, the accounts it names, in order, and its data.
#[derive(Clone, Debug)]
pub struct Action {
    pub program: Identity,
    pub accounts: Vec<Identity>,
    pub data: Vec<u8>,
}

pub struct ActionView {
    pub program: Identity,
    pub accounts: Seq<Identity>,
    pub data: Seq<u8>,
}

impl View for Action {
    type V = ActionView;

    open spec fn view(&self) -> ActionView {
        ActionView { program: self.program, accounts: self.accounts@, data: self.data@ }
    }
}

impl ActionView {
    pub open spec fn operation(self) -> Operation {
        spec_decode(self.data)
    }

    /// The action is a `repay` addressed to `program`.
    pub open spec fn is_repay_of(self, program: Identity) -> bool {
        self.program == program && self.operation() == Operation::Repay
    }

    /// The action is a `borrow` addressed to `program`.
    pub open spec fn is_borrow_of(self, program: Identity) -> bool {
        self.program == program && self.operation() is Borrow
    }
}

impl Action {
    pub fn is_repay_of(&self, program: &Identity) -> (yes: bool)
        ensures
            yes == self@.is_repay_of(*program),
    {
        self.program == *program && decode(&self.data) == Operation::Repay
    }

    /// The amount that the action borrows from `program`, if it is a `borrow` addressed to it.
    pub fn borrowed_from(&self, program: &Identity) -> (amount: Option<u64>)
        ensures
            amount is Some == self@.is_borrow_of(*program),
            amount matches Some(a) ==> self@.operation() == (Operation::Borrow { amount: a }),
    {
        if self.program == *program {
            match decode(&self.data) {
                Operation::Borrow { amount } => Some(amount),
                _ => None,
            }
        } else {
            None
        }
    }
}

/// The batch that is running, as an action sees it: all its actions in order, and the
/// position of the action that is running now.
#[derive(Clone, Debug)]
pub struct Instructions {
    pub actions: Vec<Action>,
    pub current: usize,
}

pub struct Batch {
    pub actions: Seq<ActionView>,
    pub current: int,
}

impl View for Instructions {
    type V = Batch;

    open spec fn view(&self) -> Batch {
        Batch { actions: self.actions@.map_values(|a: Action| a@), current: self.current as int }
    }
}

impl Batch {
    /// Position `j` holds the first `repay` of `program` behind the running action.
    pub open spec fn is_next_repay(self, program: Identity, j: int) -> bool {
        &&& self.current < j < self.actions.len()
        &&& self.actions[j].is_repay_of(program)
        &&& forall|k: int|
            self.current < k < j ==> !(#[trigger] self.actions[k]).is_repay_of(program)
    }

    /// Some action behind the running one is a `repay` of `program`.
    pub open spec fn has_repay_after(self, program: Identity) -> bool {
        exists|j: int|
            self.current < j < self.actions.len() && (#[trigger] self.actions[j]).is_repay_of(
                program,
            )
    }

    /// The position of the first `repay` of `program` behind the running action, where there
    /// is one.
    pub open spec fn next_repay(self, program: Identity) -> int {
        choose|j: int| self.is_next_repay(program, j)
    }

    /// Position `j` holds the last `borrow` of `program` ahead of the running action.
    pub open spec fn is_previous_borrow(self, program: Identity, j: int) -> bool {
        &&& 0 <= j < self.current
        &&& j < self.actions.len()
        &&& self.actions[j].is_borrow_of(program)
        &&& forall|k: int|
            j < k < self.current && k < self.actions.len() ==> !(
            #[trigger] self.actions[k]).is_borrow_of(program)
    }

    /// Some action ahead of the running one is a `borrow` of `program`.
    pub open spec fn has_borrow_before(self, program: Identity) -> bool {
        exists|j: int|
            0 <= j < self.current && j < self.actions.len() && (
            #[trigger] self.actions[j]).is_borrow_of(program)
    }

    /// The position of the last `borrow` of `program` ahead of the running action, where
    /// there is one.
    pub open spec fn previous_borrow(self, program: Identity) -> int {
        choose|j: int| self.is_previous_borrow(program, j)
    }

    /// At most one position holds the first `repay` behind the running action.
    pub proof fn lemma_next_repay_unique(self, program: Identity, j: int)
        requires
            self.is_next_repay(program, j),
        ensures
            self.has_repay_after(program),
            self.next_repay(program) == j,
    {
        let c = self.next_repay(program);
        assert(self.is_next_repay(program, c));
        if c < j {
            assert(!self.actions[c].is_repay_of(program));
        }
        if j < c {
            assert(!self.actions[j].is_repay_of(program));
        }
    }

    /// At most one position holds the last `borrow` ahead of the running action.
    pub proof fn lemma_previous_borrow_unique(self, program: Identity, j: int)
        requires
            self.is_previous_borrow(program, j),
        ensures
            self.has_borrow_before(program),
            self.previous_borrow(program) == j,
    {
        let c = self.previous_borrow(program);
        assert(self.is_previous_borrow(program, c));
        if c < j {
            assert(!self.actions[j].is_borrow_of(program));
        }
        if j < c {
            assert(!self.actions[c].is_borrow_of(program));
        }
    }
}

impl Instructions {
    /// Scans forward from the running action for the first `repay` of `program`.
    pub fn next_repay(&self, program: &Identity) -> (found: Option<usize>)
        ensures
            found is Some == self@.has_repay_after(*program),
            found matches Some(j) ==> self@.is_next_repay(*program, j as int),
    {
        let n = self.actions.len();
        if self.current >= n {
            return None;
        }
        let mut j = self.current + 1;
        while j < n
            invariant
                self.current < j <= n == self.actions.len(),
                forall|k: int|
                    self.current < k < j ==> !(#[trigger] self@.actions[k]).is_repay_of(*program),
            decreases n - j,
        {
            if self.actions[j].is_repay_of(program) {
                assert(self@.actions[j as int].is_repay_of(*program));
                return Some(j);
            }
            j += 1;
        }
        None
    }

    /// Scans backward from the running action for the last `borrow` of `program`, and reads
    /// the amount it borrows.
    pub fn previous_borrow(&self, program: &Identity) -> (found: Option<(usize, u64)>)
        ensures
            found is Some == self@.has_borrow_before(*program),
            found matches Some((j, amount)) ==> {
                &&& self@.is_previous_borrow(*program, j as int)
                &&& self@.actions[j as int].operation() == (Operation::Borrow { amount })
            },
    {
        let n = self.actions.len();
        let mut j = if self.current < n {
            self.current
        } else {
            n
        };
        while j > 0
            invariant
                j <= self.current,
                j <= n == self.actions.len(),
                forall|k: int|
                    j <= k < self.current && k < n ==> !(
                    #[trigger] self@.actions[k]).is_borrow_of(*program),
            decreases j,
        {
            j -= 1;
            if let Some(amount) = self.actions[j].borrowed_from(program) {
                return Some((j, amount));
            }
        }
        None
    }
}

} // verus!
