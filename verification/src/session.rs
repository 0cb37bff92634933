//! One interactive session, as a state machine.
//!
//! The caller reads and prints; the session decides. Each [`Event`] that the
//! caller reports is answered with a [`Reply`]: what to show, and what to do
//! next. A session starts at the menu and ends when an entry selects nothing.

use crate::bill::{BillView, Bills};
use crate::input::{entered, entry_has_no_outer_whitespace, get_input};
use crate::menu::{add_bill, banner, selector, MainMenu};
use vstd::prelude::*;

verus! {

/// Something to show.
#[derive(Clone, Copy, Debug, PartialEq, Eq, Structural)]
pub enum Message {
    /// The menu's banner.
    Menu,
    /// The prompt for a bill's name, `Bill Name`.
    BillName,
    /// The prompt for a bill's amount, `Amount`.
    Amount,
    /// A line could not be read: `Please enter your data again.`
    ReadAgain,
    /// The amount entered is no number: `Please enter a number`
    NotANumber,
    /// The confirmation `Bill Added`.
    BillAdded,
    /// Every stored bill, oldest first, one to a line.
    Bills,
}

/// The fixed lines of a message. The bills have none: what is shown for
/// them depends on the store.
pub open spec fn wording(message: Message) -> Seq<Seq<char>> {
    match message {
        Message::Menu => banner(),
        Message::BillName => seq!["Bill Name"@],
        Message::Amount => seq!["Amount"@],
        Message::ReadAgain => seq!["Please enter your data again."@],
        Message::NotANumber => seq!["Please enter a number"@],
        Message::BillAdded => seq!["Bill Added"@],
        Message::Bills => Seq::empty(),
    }
}

impl Message {
    /// The fixed lines of this message, in the order in which they are shown.
    pub fn lines(self) -> (lines: Vec<&'static str>)
        ensures
            lines@.len() == wording(self).len(),
            forall|i: int| 0 <= i < lines@.len() ==> (#[trigger] lines@[i])@ == wording(self)[i],
    {
        match self {
            Message::Menu => MainMenu::show(),
            Message::BillName => vec!["Bill Name"],
            Message::Amount => vec!["Amount"],
            Message::ReadAgain => vec!["Please enter your data again."],
            Message::NotANumber => vec!["Please enter a number"],
            Message::BillAdded => vec!["Bill Added"],
            Message::Bills => Vec::new(),
        }
    }
}

/// What the caller reports.
#[derive(Debug, PartialEq, Eq)]
pub enum Event {
    /// A line was read; at the end of the input, the empty line.
    Line(String),
    /// Reading a line failed.
    ReadFailed,
    /// The text handed out for parsing is this number, given by its bits,
    /// or is no number.
    Amount(Option<u64>),
}

/// What the caller does next.
#[derive(Debug, PartialEq, Eq)]
pub enum Next {
    /// Read a line and report it.
    ReadLine,
    /// Parse this text as a number and report the outcome.
    Parse(String),
    /// Leave: the session is over.
    Exit,
    /// Fail: the session had no input at all.
    Abort,
}

/// The answer to an event: what to show, in order, and what to do then.
#[derive(Debug, PartialEq, Eq)]
pub struct Reply {
    pub output: Vec<Message>,
    pub next: Next,
}

/// Where a session stands.
#[derive(Debug, PartialEq, Eq)]
pub enum Phase {
    /// At the menu, before any line was read.
    Start,
    /// At the menu.
    Menu,
    /// Asked for a bill's name.
    Name,
    /// Asked for the amount of the bill called `name`.
    Amount { name: String },
    /// Waiting to hear whether `text` is a number, for the bill called `name`.
    Parsing { name: String, text: String },
    /// Over.
    Ended,
}

/// An event, by the characters of its line.
pub ghost enum EventView {
    Line(Seq<char>),
    ReadFailed,
    Amount(Option<u64>),
}

/// What to do next, by the characters of the text to parse.
pub ghost enum NextView {
    ReadLine,
    Parse(Seq<char>),
    Exit,
    Abort,
}

/// A reply: the messages in order, and what to do then.
pub ghost struct ReplyView {
    pub output: Seq<Message>,
    pub next: NextView,
}

/// A phase, by the characters of the name and the text it holds.
pub ghost enum PhaseView {
    Start,
    Menu,
    Name,
    Amount { name: Seq<char> },
    Parsing { name: Seq<char>, text: Seq<char> },
    Ended,
}

/// A session: its bills, oldest first, and its phase.
pub ghost struct SessionView {
    pub bills: Seq<BillView>,
    pub phase: PhaseView,
}

impl View for Event {
    type V = EventView;

    open spec fn view(&self) -> EventView {
        match self {
            Event::Line(line) => EventView::Line(line@),
            Event::ReadFailed => EventView::ReadFailed,
            Event::Amount(amount) => EventView::Amount(*amount),
        }
    }
}

impl View for Next {
    type V = NextView;

    open spec fn view(&self) -> NextView {
        match self {
            Next::ReadLine => NextView::ReadLine,
            Next::Parse(text) => NextView::Parse(text@),
            Next::Exit => NextView::Exit,
            Next::Abort => NextView::Abort,
        }
    }
}

impl View for Reply {
    type V = ReplyView;

    open spec fn view(&self) -> ReplyView {
        ReplyView { output: self.output@, next: self.next@ }
    }
}

impl View for Phase {
    type V = PhaseView;

    open spec fn view(&self) -> PhaseView {
        match self {
            Phase::Start => PhaseView::Start,
            Phase::Menu => PhaseView::Menu,
            Phase::Name => PhaseView::Name,
            Phase::Amount { name } => PhaseView::Amount { name: name@ },
            Phase::Parsing { name, text } => PhaseView::Parsing { name: name@, text: text@ },
            Phase::Ended => PhaseView::Ended,
        }
    }
}

impl PhaseView {
    /// The name that a phase holds is an entry as it stands.
    pub open spec fn wf(self) -> bool {
        match self {
            PhaseView::Amount { name } => entered(name) == Some(name),
            PhaseView::Parsing { name, text } => entered(name) == Some(name),
            _ => true,
        }
    }

    /// What a session in this phase waits for.
    pub open spec fn demand(self) -> NextView {
        match self {
            PhaseView::Parsing { name, text } => NextView::Parse(text),
            PhaseView::Ended => NextView::Exit,
            _ => NextView::ReadLine,
        }
    }
}

impl SessionView {
    /// Every stored bill, and the bill in the making, is named by an entry:
    /// a text that is not empty and has no whitespace at its ends.
    pub open spec fn wf(self) -> bool {
        &&& self.phase.wf()
        &&& forall|i: int|
            0 <= i < self.bills.len() ==> entered(#[trigger] self.bills[i].name) == Some(
                self.bills[i].name,
            )
    }
}

/// The session after each of `events` in turn.
pub open spec fn run(s: SessionView, events: Seq<EventView>) -> SessionView
    decreases events.len(),
{
    if events.len() == 0 {
        s
    } else {
        after(run(s, events.drop_last()), events.last()).0
    }
}

/// A session at the menu with no bills, before any line was read.
pub open spec fn initial() -> SessionView {
    SessionView { bills: Seq::empty(), phase: PhaseView::Start }
}

/// The reply that opens a session: the menu, then a line to read.
pub open spec fn opening() -> ReplyView {
    ReplyView { output: seq![Message::Menu], next: NextView::ReadLine }
}

/// An event that the phase does not wait for changes nothing and shows
/// nothing: the reply repeats what the session waits for.
pub open spec fn ignored(s: SessionView) -> (SessionView, ReplyView) {
    (s, ReplyView { output: Seq::empty(), next: s.phase.demand() })
}

/// Back to the menu, after showing `shown`.
pub open spec fn to_menu(bills: Seq<BillView>, shown: Seq<Message>) -> (SessionView, ReplyView) {
    (
        SessionView { bills, phase: PhaseView::Menu },
        ReplyView { output: shown.push(Message::Menu), next: NextView::ReadLine },
    )
}

/// The end of the session, by `next`.
pub open spec fn to_end(bills: Seq<BillView>, next: NextView) -> (SessionView, ReplyView) {
    (SessionView { bills, phase: PhaseView::Ended }, ReplyView { output: Seq::empty(), next })
}

/// What an entry at the menu leads to.
pub open spec fn chosen(bills: Seq<BillView>, entry: Seq<char>) -> (SessionView, ReplyView) {
    match selector(entry) {
        Some(MainMenu::AddBill) => (
            SessionView { bills, phase: PhaseView::Name },
            ReplyView { output: seq![Message::BillName], next: NextView::ReadLine },
        ),
        Some(MainMenu::ViewBill) => to_menu(bills, seq![Message::Bills]),
        None => to_end(bills, NextView::Exit),
    }
}

/// The session and the reply after a line was read.
///
/// At the menu an entry is dispatched by what it selects, and a line without
/// an entry ends the session: as a failure where it is the first line of
/// all, quietly later. At the two prompts a line without an entry cancels
/// and leads back to the menu; an entry at the name prompt is the name, and
/// one at the amount prompt is handed out for parsing.
pub open spec fn after_line(s: SessionView, line: Seq<char>) -> (SessionView, ReplyView) {
    match (s.phase, entered(line)) {
        (PhaseView::Start, None) => to_end(s.bills, NextView::Abort),
        (PhaseView::Menu, None) => to_end(s.bills, NextView::Exit),
        (PhaseView::Start, Some(entry)) => chosen(s.bills, entry),
        (PhaseView::Menu, Some(entry)) => chosen(s.bills, entry),
        (PhaseView::Name, None) => to_menu(s.bills, Seq::empty()),
        (PhaseView::Name, Some(entry)) => (
            SessionView { bills: s.bills, phase: PhaseView::Amount { name: entry } },
            ReplyView { output: seq![Message::Amount], next: NextView::ReadLine },
        ),
        (PhaseView::Amount { name }, None) => to_menu(s.bills, Seq::empty()),
        (PhaseView::Amount { name }, Some(entry)) => (
            SessionView { bills: s.bills, phase: PhaseView::Parsing { name, text: entry } },
            ReplyView { output: Seq::empty(), next: NextView::Parse(entry) },
        ),
        _ => ignored(s),
    }
}

/// The session and the reply after a line could not be read: wherever a
/// line is waited for, the caller is told to ask again, as often as it takes.
pub open spec fn after_read_failure(s: SessionView) -> (SessionView, ReplyView) {
    if s.phase.demand() == NextView::ReadLine {
        (s, ReplyView { output: seq![Message::ReadAgain], next: NextView::ReadLine })
    } else {
        ignored(s)
    }
}

/// The session and the reply after the text handed out was parsed.
///
/// A number completes the bill: it is stored, confirmed, and the menu is
/// shown. Anything else is answered with a correction, and the session
/// waits at the amount prompt as before.
pub open spec fn after_amount(s: SessionView, amount: Option<u64>) -> (SessionView, ReplyView) {
    match (s.phase, amount) {
        (PhaseView::Parsing { name, text }, Some(bits)) => to_menu(
            s.bills.push(BillView { name, amount: bits }),
            seq![Message::BillAdded],
        ),
        (PhaseView::Parsing { name, text }, None) => (
            SessionView { bills: s.bills, phase: PhaseView::Amount { name } },
            ReplyView { output: seq![Message::NotANumber], next: NextView::ReadLine },
        ),
        _ => ignored(s),
    }
}

/// The session and the reply after `event`.
pub open spec fn after(s: SessionView, event: EventView) -> (SessionView, ReplyView) {
    match event {
        EventView::Line(line) => after_line(s, line),
        EventView::ReadFailed => after_read_failure(s),
        EventView::Amount(amount) => after_amount(s, amount),
    }
}

/// A session: the bills entered so far and the phase it is in.
pub struct Session {
    bills: Bills,
    phase: Phase,
}

impl View for Session {
    type V = SessionView;

    closed spec fn view(&self) -> SessionView {
        SessionView { bills: self.bills@, phase: self.phase@ }
    }
}

impl Session {
    #[verifier::type_invariant]
    spec fn inv(&self) -> bool {
        self@.wf()
    }

    /// A new session, and the reply that opens it.
    pub fn new() -> (r: (Session, Reply))
        ensures
            r.0@ == initial(),
            r.1@ =~= opening(),
            r.0@.wf(),
    {
        (
            Session { bills: Bills::new(), phase: Phase::Start },
            Reply { output: only(Message::Menu), next: Next::ReadLine },
        )
    }

    /// The bills entered so far.
    pub fn bills(&self) -> (bills: &Bills)
        ensures
            bills@ == self@.bills,
    {
        &self.bills
    }

    /// The phase the session is in.
    pub fn phase(&self) -> (phase: &Phase)
        ensures
            phase@ == self@.phase,
    {
        &self.phase
    }

    /// Whether the session is over.
    pub fn ended(&self) -> (over: bool)
        ensures
            over == (self@.phase == PhaseView::Ended),
    {
        match self.phase {
            Phase::Ended => true,
            _ => false,
        }
    }

    /// Takes the session one event further.
    pub fn step(self, event: Event) -> (r: (Session, Reply))
        ensures
            r.0@ == after(self@, event@).0,
            r.1@ =~= after(self@, event@).1,
            r.0@.wf(),
    {
        proof {
            use_type_invariant(&self);
        }
        match event {
            Event::Line(line) => self.line(line.as_str()),
            Event::ReadFailed => self.read_failure(),
            Event::Amount(amount) => self.amount(amount),
        }
    }

    /// A line was read.
    fn line(self, line: &str) -> (r: (Session, Reply))
        ensures
            r.0@ == after_line(self@, line@).0,
            r.1@ =~= after_line(self@, line@).1,
            r.0@.wf(),
    {
        proof {
            use_type_invariant(&self);
            if entered(line@) is Some {
                entry_has_no_outer_whitespace(line@);
            }
        }
        let Session { bills, phase } = self;
        let entry = get_input(line);
        match phase {
            Phase::Start => match entry {
                Some(entry) => choose_from_menu(bills, entry.as_str()),
                None => end(bills, Next::Abort),
            },
            Phase::Menu => match entry {
                Some(entry) => choose_from_menu(bills, entry.as_str()),
                None => end(bills, Next::Exit),
            },
            Phase::Name => match entry {
                Some(name) => (
                    Session { bills, phase: Phase::Amount { name } },
                    Reply { output: only(Message::Amount), next: Next::ReadLine },
                ),
                None => menu(bills, Vec::new()),
            },
            Phase::Amount { name } => match entry {
                Some(text) => {
                    let asked = text.clone();
                    (
                        Session { bills, phase: Phase::Parsing { name, text } },
                        Reply { output: Vec::new(), next: Next::Parse(asked) },
                    )
                },
                None => menu(bills, Vec::new()),
            },
            phase => wait(bills, phase),
        }
    }

    /// A line could not be read.
    fn read_failure(self) -> (r: (Session, Reply))
        ensures
            r.0@ == after_read_failure(self@).0,
            r.1@ =~= after_read_failure(self@).1,
            r.0@.wf(),
    {
        proof {
            use_type_invariant(&self);
        }
        let Session { bills, phase } = self;
        match phase {
            Phase::Parsing { name, text } => wait(bills, Phase::Parsing { name, text }),
            Phase::Ended => wait(bills, Phase::Ended),
            phase => (
                Session { bills, phase },
                Reply { output: only(Message::ReadAgain), next: Next::ReadLine },
            ),
        }
    }

    /// The text handed out was parsed.
    fn amount(self, amount: Option<u64>) -> (r: (Session, Reply))
        ensures
            r.0@ == after_amount(self@, amount).0,
            r.1@ =~= after_amount(self@, amount).1,
            r.0@.wf(),
    {
        proof {
            use_type_invariant(&self);
        }
        let Session { bills, phase } = self;
        match phase {
            Phase::Parsing { name, text } => match amount {
                Some(bits) => {
                    let mut bills = bills;
                    let added = add_bill(&mut bills, name.as_str(), Some(bits));
                    assert(added);
                    menu(bills, only(Message::BillAdded))
                },
                None => (
                    Session { bills, phase: Phase::Amount { name } },
                    Reply { output: only(Message::NotANumber), next: Next::ReadLine },
                ),
            },
            phase => wait(bills, phase),
        }
    }
}

/// Every bill of the store is named by an entry.
spec fn named(bills: &Bills) -> bool {
    forall|i: int|
        0 <= i < bills@.len() ==> entered(#[trigger] bills@[i].name) == Some(bills@[i].name)
}

/// The output that shows one message.
fn only(message: Message) -> (output: Vec<Message>)
    ensures
        output@ == seq![message],
{
    let output = vec![message];
    assert(output@ =~= seq![message]);
    output
}

/// Stays in `phase` and repeats what it waits for.
fn wait(bills: Bills, phase: Phase) -> (r: (Session, Reply))
    requires
        named(&bills),
        phase@.wf(),
    ensures
        r.0@ == ignored(SessionView { bills: bills@, phase: phase@ }).0,
        r.1@ =~= ignored(SessionView { bills: bills@, phase: phase@ }).1,
        r.0@.wf(),
{
    let next = match &phase {
        Phase::Parsing { name, text } => Next::Parse(text.clone()),
        Phase::Ended => Next::Exit,
        _ => Next::ReadLine,
    };
    (Session { bills, phase }, Reply { output: Vec::new(), next })
}

/// Goes back to the menu, showing `shown` and then the banner.
fn menu(bills: Bills, shown: Vec<Message>) -> (r: (Session, Reply))
    requires
        named(&bills),
    ensures
        r.0@ == to_menu(bills@, shown@).0,
        r.1@ =~= to_menu(bills@, shown@).1,
        r.0@.wf(),
{
    let mut output = shown;
    output.push(Message::Menu);
    (Session { bills, phase: Phase::Menu }, Reply { output, next: Next::ReadLine })
}

/// Ends the session.
fn end(bills: Bills, next: Next) -> (r: (Session, Reply))
    requires
        named(&bills),
    ensures
        r.0@ == to_end(bills@, next@).0,
        r.1@ =~= to_end(bills@, next@).1,
        r.0@.wf(),
{
    (Session { bills, phase: Phase::Ended }, Reply { output: Vec::new(), next })
}

/// Dispatches an entry made at the menu.
fn choose_from_menu(bills: Bills, entry: &str) -> (r: (Session, Reply))
    requires
        named(&bills),
    ensures
        r.0@ == chosen(bills@, entry@).0,
        r.1@ =~= chosen(bills@, entry@).1,
        r.0@.wf(),
{
    match MainMenu::from_str(entry) {
        Some(MainMenu::AddBill) => (
            Session { bills, phase: Phase::Name },
            Reply { output: only(Message::BillName), next: Next::ReadLine },
        ),
        Some(MainMenu::ViewBill) => menu(bills, only(Message::Bills)),
        None => end(bills, Next::Exit),
    }
}

/// A session starts well-formed and every event keeps it so.
pub proof fn events_keep_bills_named(s: SessionView, event: EventView)
    requires
        s.wf(),
    ensures
        initial().wf(),
        after(s, event).0.wf(),
{
    if let EventView::Line(line) = event {
        if entered(line) is Some {
            entry_has_no_outer_whitespace(line);
        }
    }
}

/// The store is append-only: an event leaves the bills as they were, or,
/// where it reports a number for the bill in the making, adds that bill at
/// the end.
pub proof fn bills_only_grow(s: SessionView, event: EventView)
    ensures
        after(s, event).0.bills == s.bills || (s.phase matches PhaseView::Parsing { name, text }
            && event matches EventView::Amount(Some(bits)) && after(s, event).0.bills
            == s.bills.push(BillView { name, amount: bits })),
{
}

/// Whatever is reported to a new session, and in whatever order, every bill
/// it holds is named by an entry.
pub proof fn sessions_keep_bills_named(events: Seq<EventView>)
    ensures
        run(initial(), events).wf(),
    decreases events.len(),
{
    if events.len() > 0 {
        sessions_keep_bills_named(events.drop_last());
        events_keep_bills_named(run(initial(), events.drop_last()), events.last());
    }
}

/// Nothing that is reported removes, changes or reorders a stored bill: the
/// bills a session held are the first of those it holds later.
pub proof fn stored_bills_stay(s: SessionView, events: Seq<EventView>)
    ensures
        s.bills.len() <= run(s, events).bills.len(),
        run(s, events).bills.subrange(0, s.bills.len() as int) == s.bills,
    decreases events.len(),
{
    if events.len() > 0 {
        let before = run(s, events.drop_last());
        stored_bills_stay(s, events.drop_last());
        bills_only_grow(before, events.last());
        assert(run(s, events).bills.subrange(0, s.bills.len() as int) =~= before.bills.subrange(
            0,
            s.bills.len() as int,
        ));
    } else {
        assert(s.bills.subrange(0, s.bills.len() as int) =~= s.bills);
    }
}

/// A line without an entry at the name prompt cancels: the bills stay as
/// they were and the menu is shown.
pub proof fn cancelled_name_stores_nothing(s: SessionView, line: Seq<char>)
    requires
        s.phase == PhaseView::Name,
        entered(line) is None,
    ensures
        after_line(s, line).0.bills == s.bills,
        after_line(s, line).0.phase == PhaseView::Menu,
        after_line(s, line).1 == (ReplyView {
            output: seq![Message::Menu],
            next: NextView::ReadLine,
        }),
{
    assert(Seq::<Message>::empty().push(Message::Menu) =~= seq![Message::Menu]);
}

/// A line without an entry at the amount prompt cancels: the name entered
/// before is dropped, the bills stay as they were and the menu is shown.
pub proof fn cancelled_amount_stores_nothing(s: SessionView, line: Seq<char>)
    requires
        s.phase is Amount,
        entered(line) is None,
    ensures
        after_line(s, line).0.bills == s.bills,
        after_line(s, line).0.phase == PhaseView::Menu,
        after_line(s, line).1 == (ReplyView {
            output: seq![Message::Menu],
            next: NextView::ReadLine,
        }),
{
    assert(Seq::<Message>::empty().push(Message::Menu) =~= seq![Message::Menu]);
}

/// An entry at the amount prompt is handed out for parsing, and where it is
/// no number the session is back where it was, with a correction shown.
pub proof fn rejected_amount_asks_again(s: SessionView, line: Seq<char>)
    requires
        s.phase is Amount,
        entered(line) is Some,
    ensures
        after_line(s, line).1 == (ReplyView {
            output: Seq::empty(),
            next: NextView::Parse(entered(line).unwrap()),
        }),
        after_amount(after_line(s, line).0, None).0 == s,
        after_amount(after_line(s, line).0, None).1 == (ReplyView {
            output: seq![Message::NotANumber],
            next: NextView::ReadLine,
        }),
{
}

/// Whether `s` is busy with the amount of the bill called `name`.
pub open spec fn at_amount_of(s: SessionView, name: Seq<char>) -> bool {
    match s.phase {
        PhaseView::Amount { name: n } => n == name,
        PhaseView::Parsing { name: n, text } => n == name,
        _ => false,
    }
}

/// Whether `event` neither gives a number nor cancels.
pub open spec fn no_answer(event: EventView) -> bool {
    match event {
        EventView::Line(line) => entered(line) is Some,
        EventView::ReadFailed => true,
        EventView::Amount(amount) => amount is None,
    }
}

/// The amount prompt holds: however many events pass, as long as none gives
/// a number or cancels, the session stays busy with the same bill and
/// stores nothing.
pub proof fn amount_prompt_holds_until_answered(
    s: SessionView,
    name: Seq<char>,
    events: Seq<EventView>,
)
    requires
        at_amount_of(s, name),
        forall|i: int| 0 <= i < events.len() ==> no_answer(#[trigger] events[i]),
    ensures
        at_amount_of(run(s, events), name),
        run(s, events).bills == s.bills,
    decreases events.len(),
{
    if events.len() > 0 {
        let earlier = events.drop_last();
        assert forall|i: int| 0 <= i < earlier.len() implies no_answer(#[trigger] earlier[i]) by {
            assert(earlier[i] == events[i]);
        }
        amount_prompt_holds_until_answered(s, name, earlier);
        assert(no_answer(events[events.len() - 1]));
    }
}

/// A number completes the bill in the making: it is stored behind the bills
/// entered before, which stay as they were, and confirmed. A line that then
/// selects viewing shows the bills and leaves them alone.
pub proof fn added_bill_is_last_in_view(s: SessionView, bits: u64, line: Seq<char>)
    requires
        s.phase is Parsing,
        entered(line) is Some,
        selector(entered(line).unwrap()) == Some(MainMenu::ViewBill),
    ensures
        ({
            let added = after_amount(s, Some(bits));
            let viewed = after_line(added.0, line);
            &&& added.0.bills.len() == s.bills.len() + 1
            &&& added.0.bills.drop_last() == s.bills
            &&& added.0.bills.last() == (BillView { name: s.phase->Parsing_name, amount: bits })
            &&& added.1 == (ReplyView {
                output: seq![Message::BillAdded, Message::Menu],
                next: NextView::ReadLine,
            })
            &&& viewed.0 == added.0
            &&& viewed.1 == (ReplyView {
                output: seq![Message::Bills, Message::Menu],
                next: NextView::ReadLine,
            })
        }),
{
    let added = after_amount(s, Some(bits));
    assert(added.0.bills.drop_last() =~= s.bills);
    assert(seq![Message::BillAdded].push(Message::Menu) =~= seq![
        Message::BillAdded,
        Message::Menu,
    ]);
    assert(seq![Message::Bills].push(Message::Menu) =~= seq![Message::Bills, Message::Menu]);
}

/// Adding a bill from the menu: a line that selects adding, a line with the
/// name, a line with the amount's text and the number it parses to store
/// exactly one bill, made of the name's entry and that number.
pub proof fn completed_add_stores_one_bill(
    s: SessionView,
    choice: Seq<char>,
    name: Seq<char>,
    text: Seq<char>,
    bits: u64,
)
    requires
        s.phase == PhaseView::Start || s.phase == PhaseView::Menu,
        entered(choice) is Some,
        selector(entered(choice).unwrap()) == Some(MainMenu::AddBill),
        entered(name) is Some,
        entered(text) is Some,
    ensures
        run(
            s,
            seq![
                EventView::Line(choice),
                EventView::Line(name),
                EventView::Line(text),
                EventView::Amount(Some(bits)),
            ],
        ) == (SessionView {
            bills: s.bills.push(BillView { name: entered(name).unwrap(), amount: bits }),
            phase: PhaseView::Menu,
        }),
{
    let events = seq![
        EventView::Line(choice),
        EventView::Line(name),
        EventView::Line(text),
        EventView::Amount(Some(bits)),
    ];
    let three = events.drop_last();
    let two = three.drop_last();
    let one = two.drop_last();
    assert(run(s, one.drop_last()) == s);
    assert(one.last() == EventView::Line(choice));
    assert(two.last() == EventView::Line(name));
    assert(three.last() == EventView::Line(text));
    assert(run(s, one) == after(s, EventView::Line(choice)).0);
    assert(run(s, two) == after(run(s, one), EventView::Line(name)).0);
    assert(run(s, three) == after(run(s, two), EventView::Line(text)).0);
    assert(run(s, events) == after(run(s, three), EventView::Amount(Some(bits))).0);
}

/// At the menu every line but one whose entry is `1` or `2` ends the
/// session: as a failure where a session's first line holds no entry,
/// quietly otherwise.
pub proof fn other_lines_end_the_session(s: SessionView, line: Seq<char>)
    requires
        s.phase == PhaseView::Start || s.phase == PhaseView::Menu,
        entered(line) != Some("1"@),
        entered(line) != Some("2"@),
    ensures
        after_line(s, line).0 == (SessionView { bills: s.bills, phase: PhaseView::Ended }),
        after_line(s, line).1.output == Seq::<Message>::empty(),
        after_line(s, line).1.next == if s.phase == PhaseView::Start && entered(line) is None {
            NextView::Abort
        } else {
            NextView::Exit
        },
{
}

/// A session that is over stays over, whatever is reported to it.
pub proof fn ended_session_stays_ended(s: SessionView, event: EventView)
    requires
        s.phase == PhaseView::Ended,
    ensures
        after(s, event).0 == s,
        after(s, event).1 == (ReplyView { output: Seq::empty(), next: NextView::Exit }),
{
}

} // verus!
