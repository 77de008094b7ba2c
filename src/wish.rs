//! The session with a wish process, as state: the counter that names new
//! widgets, the commands waiting to be written, and the reader that sorts
//! the lines coming back. The process and its pipes are kept by the caller,
//! which writes what `take_outgoing` hands out and feeds each line it reads
//! to `receive`.
use vstd::prelude::*;
use crate::protocol::{decode_line, decoded, line_tag, tag_of, trim, trim_text, Inbound, Tag};
use crate::split::views;
use crate::text::{decimal, digit_char, u64_to_decimal};
use crate::toplevel::TkTopLevel;

verus! {

/// Where the reader stands: how many requests still wait for their reply,
/// and whether wish has said `exit`.
#[derive(Clone, Copy, PartialEq, Eq, Structural)]
pub struct Reader {
    pub pending: u64,
    pub exited: bool,
}

/// The reader after `line`. After `exit` nothing changes it; an untagged
/// line answers the oldest waiting request.
pub open spec fn after_line(r: Reader, line: Seq<char>) -> Reader {
    if r.exited {
        r
    } else {
        match tag_of(line) {
            Tag::Exit => Reader { exited: true, ..r },
            Tag::Plain => if r.pending > 0 {
                Reader { pending: (r.pending - 1) as u64, ..r }
            } else {
                r
            },
            _ => r,
        }
    }
}

/// What the reader in state `r` makes of `line`: nothing after `exit`, the
/// trimmed text of an untagged line while a request waits, and otherwise the
/// decoded line.
pub open spec fn delivered(r: Reader, line: Seq<char>, m: Inbound) -> bool {
    if r.exited {
        m is Ignored
    } else if tag_of(line) is Plain && r.pending > 0 {
        m matches Inbound::Reply { text } && text@ == trim(line)
    } else {
        decoded(line, m)
    }
}

/// The reader after each of `lines` in turn.
pub open spec fn after_lines(r: Reader, lines: Seq<Seq<char>>) -> Reader
    decreases lines.len(),
{
    if lines.len() == 0 {
        r
    } else {
        after_line(after_lines(r, lines.drop_last()), lines.last())
    }
}

/// The id of a widget under `parent` that took the number `n` from the
/// counter: `<parent>.r<n>`, where the root `.` gives `.r<n>`.
pub open spec fn child_id(parent: Seq<char>, n: nat) -> Seq<char> {
    if parent == "."@ {
        ".r"@ + decimal(n)
    } else {
        parent + ".r"@ + decimal(n)
    }
}

proof fn lemma_decimal_len(n: nat)
    ensures
        decimal(n).len() >= 1,
        n >= 10 ==> decimal(n).len() >= 2,
    decreases n,
{
    if n >= 10 {
        lemma_decimal_len(n / 10);
    }
}

proof fn lemma_digit_char_injective(a: int, b: int)
    requires
        0 <= a < 10,
        0 <= b < 10,
        digit_char(a) == digit_char(b),
    ensures
        a == b,
{
}

proof fn lemma_decimal_injective(a: nat, b: nat)
    requires
        decimal(a) == decimal(b),
    ensures
        a == b,
    decreases a,
{
    lemma_decimal_len(a);
    lemma_decimal_len(b);
    if a < 10 && b < 10 {
        assert(decimal(a)[0] == digit_char(a as int));
        lemma_digit_char_injective(a as int, b as int);
    } else if a >= 10 && b >= 10 {
        let da = decimal(a);
        assert(da.last() == digit_char((a % 10) as int));
        assert(decimal(b).last() == digit_char((b % 10) as int));
        lemma_digit_char_injective((a % 10) as int, (b % 10) as int);
        assert(da.drop_last() =~= decimal(a / 10));
        assert(decimal(b).drop_last() =~= decimal(b / 10));
        lemma_decimal_injective(a / 10, b / 10);
    }
}

/// Different numbers give different ids under the same parent.
proof fn lemma_child_ids_differ(parent: Seq<char>, a: nat, b: nat)
    requires
        a != b,
    ensures
        child_id(parent, a) != child_id(parent, b),
{
    let x = if parent == "."@ { ".r"@ } else { parent + ".r"@ };
    assert(child_id(parent, a) =~= x + decimal(a));
    assert(child_id(parent, b) =~= x + decimal(b));
    if child_id(parent, a) == child_id(parent, b) {
        let n = x.len() as int;
        assert((x + decimal(a)).subrange(n, n + decimal(a).len()) =~= decimal(a));
        assert((x + decimal(b)).subrange(n, n + decimal(b).len()) =~= decimal(b));
        lemma_decimal_injective(a, b);
    }
}

/// Two ids made one after the other under the same parent, from any state
/// of the counter, differ, and the number that ends the second is larger.
pub proof fn lemma_consecutive_ids(parent: Seq<char>, first: WishView, second: WishView)
    requires
        second.last_id == first.last_id + 1,
    ensures
        child_id(parent, first.last_id) != child_id(parent, second.last_id),
        first.last_id < second.last_id,
{
    lemma_child_ids_differ(parent, first.last_id, second.last_id);
}

proof fn lemma_exited_stays(r: Reader, lines: Seq<Seq<char>>)
    requires
        r.exited,
    ensures
        after_lines(r, lines) == r,
    decreases lines.len(),
{
    if lines.len() > 0 {
        lemma_exited_stays(r, lines.drop_last());
    }
}

/// After an `exit` line the reader has stopped: whatever lines follow, it
/// stays stopped and hands none of them on.
pub proof fn lemma_exit_is_final(r: Reader, line: Seq<char>, rest: Seq<Seq<char>>)
    requires
        tag_of(line) is Exit,
    ensures
        after_line(r, line).exited,
        after_lines(after_line(r, line), rest) == after_line(r, line),
        forall|i: int, m: Inbound|
            0 <= i < rest.len() && #[trigger] delivered(
                after_lines(after_line(r, line), rest.take(i)),
                rest[i],
                m,
            ) ==> m is Ignored,
{
    let s = after_line(r, line);
    lemma_exited_stays(s, rest);
    assert forall|i: int, m: Inbound|
        0 <= i < rest.len() && #[trigger] delivered(
            after_lines(s, rest.take(i)),
            rest[i],
            m,
        ) implies m is Ignored by {
        lemma_exited_stays(s, rest.take(i));
    }
}

/// The session's state.
pub struct Wish {
    next_id: u64,
    outbox: Vec<String>,
    reader: Reader,
}

pub struct WishView {
    /// The last number given to a widget id; 0 before the first.
    pub last_id: nat,
    /// Commands waiting to be written, oldest first.
    pub outbox: Seq<Seq<char>>,
    pub reader: Reader,
}

impl View for Wish {
    type V = WishView;

    closed spec fn view(&self) -> WishView {
        WishView { last_id: self.next_id as nat, outbox: views(self.outbox@), reader: self.reader }
    }
}

/// The session after `msg` is queued.
pub open spec fn told(w: WishView, msg: Seq<char>) -> WishView {
    WishView { outbox: w.outbox.push(msg), ..w }
}

/// The session after `msg` is queued as a request, whose reply is awaited.
pub open spec fn asked(w: WishView, msg: Seq<char>) -> WishView {
    WishView {
        outbox: w.outbox.push(msg),
        reader: Reader { pending: (w.reader.pending + 1) as u64, ..w.reader },
        ..w
    }
}

/// The session after a widget is made: its id took the next number, and
/// `msg`, the command that creates it, is queued.
pub open spec fn made(w: WishView, msg: Seq<char>) -> WishView {
    told(WishView { last_id: w.last_id + 1, ..w }, msg)
}

/// The commands that set wish up before anything else: the Tcl package,
/// an `exit` line when the main window is closed, no tear-off menus, and
/// the two procedures through which font and scale callbacks report.
pub open spec fn preamble() -> Seq<Seq<char>> {
    seq![
        "package require Tcl"@,
        "wm protocol . WM_DELETE_WINDOW { puts stdout {exit} ; flush stdout }"@,
        "option add *tearOff 0"@,
        "proc font_choice {w font args} { set res {font } ; append res [font actual $font] ; puts $res ; flush stdout }"@,
        "proc scale_value {w value args} { puts cb1f-$w-$value ; flush stdout }"@,
    ]
}

/// Starts a session: the preamble waits to be written, no id is used, no
/// request waits; the root window comes with it.
pub fn start_wish() -> (r: (Wish, TkTopLevel))
    ensures
        r.0@.last_id == 0,
        r.0@.outbox == preamble(),
        r.0@.reader == (Reader { pending: 0, exited: false }),
        r.1.id@ == "."@,
{
    let mut outbox: Vec<String> = Vec::new();
    outbox.push(String::from_str("package require Tcl"));
    outbox.push(
        String::from_str("wm protocol . WM_DELETE_WINDOW { puts stdout {exit} ; flush stdout }"),
    );
    outbox.push(String::from_str("option add *tearOff 0"));
    outbox.push(
        String::from_str(
            "proc font_choice {w font args} { set res {font } ; append res [font actual $font] ; puts $res ; flush stdout }",
        ),
    );
    outbox.push(
        String::from_str("proc scale_value {w value args} { puts cb1f-$w-$value ; flush stdout }"),
    );
    let wish = Wish { next_id: 0, outbox, reader: Reader { pending: 0, exited: false } };
    assert(wish@.outbox =~= preamble());
    (wish, TkTopLevel { id: String::from_str(".") })
}

/// Queues `msg` to be written to wish, after everything queued before.
pub fn tell_wish(wish: &mut Wish, msg: &str)
    ensures
        final(wish)@ == told(old(wish)@, msg@),
{
    let ghost before = views(wish.outbox@);
    wish.outbox.push(msg.to_string());
    assert(views(wish.outbox@) =~= before.push(msg@));
}

/// Returns a new id for a widget under `parent`: the counter goes up by one
/// and its new value ends the id.
pub fn next_wid(wish: &mut Wish, parent: &str) -> (r: String)
    requires
        old(wish)@.last_id < u64::MAX,
    ensures
        final(wish)@ == (WishView { last_id: old(wish)@.last_id + 1, ..old(wish)@ }),
        r@ == child_id(parent@, final(wish)@.last_id),
{
    wish.next_id = wish.next_id + 1;
    let digits = u64_to_decimal(wish.next_id);
    if parent.to_string() == String::from_str(".") {
        let mut id = String::from_str(".r");
        id.append(digits.as_str());
        id
    } else {
        let mut id = parent.to_string();
        id.append(".r");
        id.append(digits.as_str());
        id
    }
}

/// The last number given to a widget id.
pub fn current_id(wish: &Wish) -> (r: u64)
    ensures
        r == wish@.last_id,
{
    wish.next_id
}

impl Wish {
    /// Whether another widget id can be made.
    pub open spec fn can_allocate(&self) -> bool {
        self@.last_id < u64::MAX
    }

    /// Whether another request can wait for its reply.
    pub open spec fn can_request(&self) -> bool {
        self@.reader.pending < u64::MAX
    }

    /// Queues `msg`, a command whose result wish writes back: the next
    /// untagged line then answers it.
    pub fn request(&mut self, msg: &str)
        requires
            old(self).can_request(),
        ensures
            final(self)@ == asked(old(self)@, msg@),
    {
        tell_wish(self, msg);
        self.reader.pending = self.reader.pending + 1;
    }

    /// Hands out the queued commands, oldest first, and empties the queue.
    pub fn take_outgoing(&mut self) -> (r: Vec<String>)
        ensures
            views(r@) == old(self)@.outbox,
            final(self)@ == (WishView { outbox: seq![], ..old(self)@ }),
    {
        let mut out: Vec<String> = Vec::new();
        std::mem::swap(&mut out, &mut self.outbox);
        assert(views(self.outbox@) =~= seq![]);
        out
    }

    /// How many requests still wait for their reply.
    pub fn pending_replies(&self) -> (r: u64)
        ensures
            r == self@.reader.pending,
    {
        self.reader.pending
    }

    /// Whether wish is still taken to run: false once it has said `exit`.
    pub fn is_running(&self) -> (r: bool)
        ensures
            r == !self@.reader.exited,
    {
        !self.reader.exited
    }

    /// Takes one line that wish wrote, without its line break, and says what
    /// to do with it.
    pub fn receive(&mut self, line: &str) -> (r: Inbound)
        ensures
            final(self)@ == (WishView { reader: after_line(old(self)@.reader, line@), ..old(self)@ }),
            delivered(old(self)@.reader, line@, r),
    {
        if self.reader.exited {
            return Inbound::Ignored;
        }
        let m = decode_line(line);
        match m {
            Inbound::Exit => {
                self.reader.exited = true;
                m
            },
            Inbound::Unrecognized { line: l } => {
                if self.reader.pending > 0 && line_tag(line) == Tag::Plain {
                    self.reader.pending = self.reader.pending - 1;
                    Inbound::Reply { text: trim_text(line) }
                } else {
                    Inbound::Unrecognized { line: l }
                }
            },
            _ => m,
        }
    }
}

} // verus!
