//! The lines that wish writes back: replies to requests, and the tagged
//! notices of bound events, which are decoded here into `Inbound` values.
use vstd::prelude::*;
use crate::split::{split_char, split_items, split_on, tcl_items, views};
use crate::text::{chars_of, i32_or, is_ws, is_whitespace, parse_i32_or, parse_u32_or, substring, u32_or};
use crate::widget::TkEvent;

verus! {

/// The first position of `s` at or after `i` that holds no white space.
pub open spec fn lead(s: Seq<char>, i: int) -> int
    decreases s.len() - i,
{
    if i >= s.len() || !is_ws(s[i]) {
        i
    } else {
        lead(s, i + 1)
    }
}

/// The position just after the last character of `s` before `j` that is no
/// white space; 0 where there is none.
pub open spec fn trail(s: Seq<char>, j: int) -> int
    decreases j,
{
    if j <= 0 || !is_ws(s[j - 1]) {
        j
    } else {
        trail(s, j - 1)
    }
}

/// `s` without leading and trailing white space, as `str::trim` gives it.
pub open spec fn trim(s: Seq<char>) -> Seq<char> {
    let a = lead(s, 0);
    let b = trail(s, s.len() as int);
    if a < b {
        s.subrange(a, b)
    } else {
        seq![]
    }
}

proof fn lemma_lead(s: Seq<char>, i: int)
    requires
        0 <= i <= s.len(),
    ensures
        i <= lead(s, i) <= s.len(),
    decreases s.len() - i,
{
    if i < s.len() && is_ws(s[i]) {
        lemma_lead(s, i + 1);
    }
}

proof fn lemma_trail(s: Seq<char>, j: int)
    requires
        0 <= j <= s.len(),
    ensures
        0 <= trail(s, j) <= j,
    decreases j,
{
    if j > 0 && is_ws(s[j - 1]) {
        lemma_trail(s, j - 1);
    }
}

/// `text` without leading and trailing white space.
pub fn trim_text(text: &str) -> (r: String)
    ensures
        r@ == trim(text@),
{
    let s = chars_of(text);
    let n = s.len();
    let mut a: usize = 0;
    while a < n && is_whitespace(s[a])
        invariant
            n == s@.len(),
            a <= n,
            lead(s@, 0) == lead(s@, a as int),
        decreases n - a,
    {
        a = a + 1;
    }
    let mut b: usize = n;
    while b > 0 && is_whitespace(s[b - 1])
        invariant
            n == s@.len(),
            b <= n,
            trail(s@, n as int) == trail(s@, b as int),
        decreases b,
    {
        b = b - 1;
    }
    if a < b {
        substring(text, a, b)
    } else {
        String::new()
    }
}

/// Whether `s` begins with `p`.
pub open spec fn has_prefix(s: Seq<char>, p: Seq<char>) -> bool {
    p.len() <= s.len() && s.subrange(0, p.len() as int) == p
}

fn starts_with(s: &Vec<char>, p: &str) -> (r: bool)
    ensures
        r == has_prefix(s@, p@),
{
    let n = p.unicode_len();
    if n > s.len() {
        return false;
    }
    let mut i: usize = 0;
    while i < n
        invariant
            n == p@.len() <= s@.len(),
            i <= n,
            forall|k: int| 0 <= k < i ==> s@[k] == p@[k],
        decreases n - i,
    {
        if s[i] != p.get_char(i) {
            assert(s@.subrange(0, n as int)[i as int] != p@[i as int]);
            return false;
        }
        i = i + 1;
    }
    assert(s@.subrange(0, n as int) =~= p@);
    true
}

/// The shape of a line from wish, told by its first characters.
#[derive(Clone, Copy, PartialEq, Eq, Structural)]
pub enum Tag {
    Clicked,
    Toggle,
    Event,
    Scale,
    Font,
    Exit,
    Plain,
}

pub open spec fn tag_of(line: Seq<char>) -> Tag {
    if has_prefix(line, "clicked"@) {
        Tag::Clicked
    } else if has_prefix(line, "cb1b"@) {
        Tag::Toggle
    } else if has_prefix(line, "cb1e"@) {
        Tag::Event
    } else if has_prefix(line, "cb1f"@) {
        Tag::Scale
    } else if has_prefix(line, "font"@) {
        Tag::Font
    } else if has_prefix(line, "exit"@) {
        Tag::Exit
    } else {
        Tag::Plain
    }
}

/// The tag of `line`.
pub fn line_tag(line: &str) -> (r: Tag)
    ensures
        r == tag_of(line@),
{
    let s = chars_of(line);
    if starts_with(&s, "clicked") {
        Tag::Clicked
    } else if starts_with(&s, "cb1b") {
        Tag::Toggle
    } else if starts_with(&s, "cb1e") {
        Tag::Event
    } else if starts_with(&s, "cb1f") {
        Tag::Scale
    } else if starts_with(&s, "font") {
        Tag::Font
    } else if starts_with(&s, "exit") {
        Tag::Exit
    } else {
        Tag::Plain
    }
}

/// A line from wish, decoded.
pub enum Inbound {
    /// `clicked<id>`: the command of widget `id` ran.
    Clicked { id: String },
    /// `cb1b-<id>-<value>`: a boolean for the callback of `id`; `1` is true.
    Toggle { id: String, on: bool },
    /// `cb1e:<key>:<x>:<y>:<rootx>:<rooty>:<h>:<w>:<keycode>:<keysym>:<button>`:
    /// a bound event for the callback stored under `key`.
    Event { key: String, event: TkEvent },
    /// `cb1f-<id>-<value>`: a number, still as text, for the callback of `id`.
    Scale { id: String, value: String },
    /// `font<description>`: a font, as the items of its description.
    Font { items: Vec<String> },
    /// `exit`: the window was closed.
    Exit,
    /// An untagged line that answers a request.
    Reply { text: String },
    /// A line that no rule above reads, kept whole.
    Unrecognized { line: String },
    /// A line that came after `exit`: nothing is done with it.
    Ignored,
}

/// The event that the fields of a `cb1e` line describe; a number that does
/// not read is 0.
pub open spec fn event_of(e: TkEvent, p: Seq<Seq<char>>) -> bool {
    &&& e.x == i32_or(p[2], 0)
    &&& e.y == i32_or(p[3], 0)
    &&& e.root_x == i32_or(p[4], 0)
    &&& e.root_y == i32_or(p[5], 0)
    &&& e.height == i32_or(p[6], 0)
    &&& e.width == i32_or(p[7], 0)
    &&& e.key_code == u32_or(p[8], 0)
    &&& e.key_symbol@ == p[9]
    &&& e.mouse_button == u32_or(p[10], 0)
}

/// What `line` decodes to, leaving replies aside: tagged lines give their
/// notices, a tagged line with too few fields and an untagged line are
/// unrecognized.
pub open spec fn decoded(line: Seq<char>, m: Inbound) -> bool {
    match tag_of(line) {
        Tag::Clicked => m matches Inbound::Clicked { id } && id@ == trim(line.subrange(7, line.len() as int)),
        Tag::Toggle => {
            let p = split_on(line, '-');
            if p.len() >= 3 {
                m matches Inbound::Toggle { id, on } && id@ == trim(p[1]) && on == (trim(p[2]) == "1"@)
            } else {
                m matches Inbound::Unrecognized { line: l } && l@ == line
            }
        },
        Tag::Event => {
            let p = split_on(line, ':');
            if p.len() >= 11 {
                m matches Inbound::Event { key, event } && key@ == trim(p[1]) && event_of(event, p)
            } else {
                m matches Inbound::Unrecognized { line: l } && l@ == line
            }
        },
        Tag::Scale => {
            let p = split_on(line, '-');
            if p.len() >= 3 {
                m matches Inbound::Scale { id, value } && id@ == trim(p[1]) && value@ == trim(p[2])
            } else {
                m matches Inbound::Unrecognized { line: l } && l@ == line
            }
        },
        Tag::Font => m matches Inbound::Font { items } && views(items@) == tcl_items(
            trim(line.subrange(4, line.len() as int)),
        ),
        Tag::Exit => m is Exit,
        Tag::Plain => m matches Inbound::Unrecognized { line: l } && l@ == line,
    }
}

/// Decodes one line from wish, without its line break.
pub fn decode_line(line: &str) -> (r: Inbound)
    ensures
        decoded(line@, r),
{
    let s = chars_of(line);
    let n = s.len();
    if starts_with(&s, "clicked") {
        let k = "clicked".unicode_len();
        let id = trim_text(substring(line, k, n).as_str());
        proof {
            reveal_strlit("clicked");
        }
        Inbound::Clicked { id }
    } else if starts_with(&s, "cb1b") {
        let parts = split_char(line, '-');
        if parts.len() >= 3 {
            let id = trim_text(parts[1].as_str());
            let v = trim_text(parts[2].as_str());
            let on = v == String::from_str("1");
            Inbound::Toggle { id, on }
        } else {
            Inbound::Unrecognized { line: line.to_string() }
        }
    } else if starts_with(&s, "cb1e") {
        let parts = split_char(line, ':');
        if parts.len() >= 11 {
            let key = trim_text(parts[1].as_str());
            let event = TkEvent {
                x: parse_i32_or(parts[2].as_str(), 0),
                y: parse_i32_or(parts[3].as_str(), 0),
                root_x: parse_i32_or(parts[4].as_str(), 0),
                root_y: parse_i32_or(parts[5].as_str(), 0),
                height: parse_i32_or(parts[6].as_str(), 0),
                width: parse_i32_or(parts[7].as_str(), 0),
                key_code: parse_u32_or(parts[8].as_str(), 0),
                key_symbol: parts[9].clone(),
                mouse_button: parse_u32_or(parts[10].as_str(), 0),
            };
            Inbound::Event { key, event }
        } else {
            Inbound::Unrecognized { line: line.to_string() }
        }
    } else if starts_with(&s, "cb1f") {
        let parts = split_char(line, '-');
        if parts.len() >= 3 {
            let id = trim_text(parts[1].as_str());
            let value = trim_text(parts[2].as_str());
            Inbound::Scale { id, value }
        } else {
            Inbound::Unrecognized { line: line.to_string() }
        }
    } else if starts_with(&s, "font") {
        let k = "font".unicode_len();
        let description = trim_text(substring(line, k, n).as_str());
        proof {
            reveal_strlit("font");
        }
        Inbound::Font { items: split_items(description.as_str()) }
    } else if starts_with(&s, "exit") {
        Inbound::Exit
    } else {
        Inbound::Unrecognized { line: line.to_string() }
    }
}

} // verus!
