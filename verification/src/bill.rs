//! Bills and the store that keeps them in the order in which they were added.

use vstd::prelude::*;

verus! {

/// What a bill is: its label and its amount.
///
/// The amount is a binary64 number, carried as its 64-bit pattern: the store
/// keeps and returns it and never computes with it.
pub ghost struct BillView {
    pub name: Seq<char>,
    pub amount: u64,
}

/// A named amount. The name is never empty.
#[derive(Debug)]
pub struct Bill {
    name: String,
    amount: u64,
}

impl View for Bill {
    type V = BillView;

    closed spec fn view(&self) -> BillView {
        BillView { name: self.name@, amount: self.amount }
    }
}

impl Clone for Bill {
    fn clone(&self) -> (copy: Bill)
        ensures
            copy@ == self@,
    {
        proof {
            use_type_invariant(self);
        }
        Bill { name: self.name.clone(), amount: self.amount }
    }
}

impl Bill {
    #[verifier::type_invariant]
    spec fn named(&self) -> bool {
        self.name@.len() > 0
    }

    /// A bill with the given name and amount bits.
    pub fn new(name: String, amount: u64) -> (bill: Bill)
        requires
            name@.len() > 0,
        ensures
            bill@ == (BillView { name: name@, amount }),
    {
        Bill { name, amount }
    }

    /// The bill's name.
    pub fn name(&self) -> (name: &str)
        ensures
            name@ == self@.name,
            name@.len() > 0,
    {
        proof {
            use_type_invariant(self);
        }
        self.name.as_str()
    }

    /// The bit pattern of the bill's amount.
    pub fn amount(&self) -> (amount: u64)
        ensures
            amount == self@.amount,
    {
        self.amount
    }
}

/// The bills of one session, oldest first. Bills are only ever appended:
/// none is changed, removed or merged with another of the same name.
pub struct Bills {
    inner: Vec<Bill>,
}

impl View for Bills {
    type V = Seq<BillView>;

    closed spec fn view(&self) -> Seq<BillView> {
        Seq::new(self.inner@.len(), |i: int| self.inner@[i]@)
    }
}

impl Bills {
    /// An empty store.
    pub fn new() -> (bills: Bills)
        ensures
            bills@ == Seq::<BillView>::empty(),
    {
        let bills = Bills { inner: Vec::new() };
        assert(bills@ =~= Seq::<BillView>::empty());
        bills
    }

    /// Appends `bill` behind the bills already stored.
    pub fn add(&mut self, bill: Bill)
        ensures
            final(self)@ == old(self)@.push(bill@),
    {
        self.inner.push(bill);
        assert(self@ =~= old(self)@.push(bill@));
    }

    /// The number of bills stored.
    pub fn len(&self) -> (n: usize)
        ensures
            n == self@.len(),
    {
        self.inner.len()
    }

    /// Every stored bill, oldest first.
    pub fn get_all(&self) -> (all: Vec<&Bill>)
        ensures
            all@.len() == self@.len(),
            forall|i: int| 0 <= i < all@.len() ==> (#[trigger] all@[i])@ == self@[i],
            forall|i: int| 0 <= i < all@.len() ==> (#[trigger] all@[i])@.name.len() > 0,
    {
        let mut all: Vec<&Bill> = Vec::new();
        let mut i: usize = 0;
        while i < self.inner.len()
            invariant
                i <= self.inner@.len(),
                all@.len() == i,
                forall|k: int| 0 <= k < i ==> (#[trigger] all@[k])@ == self.inner@[k]@,
                forall|k: int| 0 <= k < i ==> (#[trigger] all@[k])@.name.len() > 0,
            decreases self.inner@.len() - i,
        {
            let bill: &Bill = &self.inner[i];
            proof {
                use_type_invariant(bill);
            }
            all.push(bill);
            i += 1;
        }
        all
    }
}

} // verus!
