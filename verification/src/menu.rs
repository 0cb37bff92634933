//! The main menu: its banner, the choices a typed entry selects, and what
//! the two choices do with the store.

use crate::bill::{Bill, BillView, Bills};
use crate::input::{entered, get_input};
use vstd::prelude::*;

verus! {

/// A choice of the main menu.
#[derive(Clone, Copy, Debug, PartialEq, Eq, Structural)]
pub enum MainMenu {
    AddBill,
    ViewBill,
}

/// The choice that an entry selects: `"1"` adds a bill, `"2"` lists the
/// bills, and every other entry, the empty one included, selects nothing.
pub open spec fn selector(entry: Seq<char>) -> Option<MainMenu> {
    if entry == "1"@ {
        Some(MainMenu::AddBill)
    } else if entry == "2"@ {
        Some(MainMenu::ViewBill)
    } else {
        None
    }
}

/// The banner: a blank line, the title and the two numbered choices.
pub open spec fn banner() -> Seq<Seq<char>> {
    seq![""@, " == Bill Manager =="@, "1. Add Bill"@, "2. View Bill"@]
}

impl MainMenu {
    /// Maps an entry to the choice it selects, if any.
    pub fn from_str(input: &str) -> (choice: Option<MainMenu>)
        ensures
            choice == selector(input@),
    {
        proof {
            reveal_strlit("1");
            reveal_strlit("2");
        }
        if input.unicode_len() != 1 {
            return None;
        }
        let c: char = input.get_char(0);
        if c == '1' {
            assert(input@ =~= "1"@);
            Some(MainMenu::AddBill)
        } else if c == '2' {
            assert(input@ =~= "2"@);
            Some(MainMenu::ViewBill)
        } else {
            None
        }
    }

    /// The lines of the banner, in the order in which they are shown.
    pub fn show() -> (lines: Vec<&'static str>)
        ensures
            lines@.len() == banner().len(),
            forall|i: int| 0 <= i < lines@.len() ==> (#[trigger] lines@[i])@ == banner()[i],
    {
        vec!["", " == Bill Manager ==", "1. Add Bill", "2. View Bill"]
    }
}

/// The store after an attempt to add a bill: one bill longer where the name
/// line holds an entry and an amount was given, unchanged where either was
/// cancelled.
pub open spec fn with_bill(bills: Seq<BillView>, name_line: Seq<char>, amount: Option<u64>) -> Seq<
    BillView,
> {
    match (entered(name_line), amount) {
        (Some(name), Some(amount)) => bills.push(BillView { name, amount }),
        _ => bills,
    }
}

/// Stores a bill under the entry of `name_line` with the given amount bits.
/// Nothing is stored where the line holds no entry or the amount is `None`:
/// half of a bill is never kept. Says whether a bill was stored.
pub fn add_bill(bills: &mut Bills, name_line: &str, amount: Option<u64>) -> (added: bool)
    ensures
        final(bills)@ == with_bill(old(bills)@, name_line@, amount),
        added == (entered(name_line@) is Some && amount is Some),
        !added ==> final(bills)@ == old(bills)@,
{
    let name = match get_input(name_line) {
        Some(name) => name,
        None => return false,
    };
    let amount: u64 = match amount {
        Some(amount) => amount,
        None => return false,
    };
    bills.add(Bill::new(name, amount));
    true
}

/// The bills to show, oldest first. An empty store shows nothing.
pub fn view_bills(bills: &Bills) -> (shown: Vec<&Bill>)
    ensures
        shown@.len() == bills@.len(),
        forall|i: int| 0 <= i < shown@.len() ==> (#[trigger] shown@[i])@ == bills@[i],
        bills@.len() == 0 ==> shown@.len() == 0,
{
    bills.get_all()
}

/// `"1"` selects adding and `"2"` selects viewing; no other entry selects
/// anything.
pub proof fn selector_accepts_exactly_one_and_two(entry: Seq<char>)
    ensures
        selector("1"@) == Some(MainMenu::AddBill),
        selector("2"@) == Some(MainMenu::ViewBill),
        entry != "1"@ && entry != "2"@ ==> selector(entry) is None,
        selector(Seq::<char>::empty()) is None,
{
    reveal_strlit("1");
    reveal_strlit("2");
    assert("1"@.len() == 1 && "1"@[0] == '1');
    assert("2"@.len() == 1 && "2"@[0] == '2');
}

} // verus!
