//! Paned windows: containers of panes, with a sizer between each two.
use vstd::prelude::*;
use crate::text::{decimal, u64_to_decimal};
use crate::widget::{configure, configure_command, TkWidget};
use crate::wish::{child_id, made, next_wid, tell_wish, told, Wish};

verus! {

/// Refers to a paned-window widget
#[derive(Clone)]
pub struct TkPanedWindow {
    pub id: String,
}

/// Makes a paned window in `parent` with the given orientation.
fn make_paned_window<W: TkWidget>(wish: &mut Wish, parent: &W, orient: &str) -> (r: TkPanedWindow)
    requires
        old(wish).can_allocate(),
    ensures
        r.id@ == child_id(parent.widget_id(), old(wish)@.last_id + 1),
        final(wish)@ == made(old(wish)@, "ttk::panedwindow "@ + r.id@ + " -orient "@ + orient@),
{
    let id = next_wid(wish, parent.id());
    let mut msg = String::from_str("ttk::panedwindow ");
    msg.append(id.as_str());
    msg.append(" -orient ");
    msg.append(orient);
    tell_wish(wish, msg.as_str());
    TkPanedWindow { id }
}

/// Creates a horizontal paned window in `parent`: panes stack left to right.
pub fn make_horizontal_paned_window<W: TkWidget>(wish: &mut Wish, parent: &W) -> (r: TkPanedWindow)
    requires
        old(wish).can_allocate(),
    ensures
        r.id@ == child_id(parent.widget_id(), old(wish)@.last_id + 1),
        final(wish)@ == made(old(wish)@, "ttk::panedwindow "@ + r.id@ + " -orient "@ + "horizontal"@),
{
    make_paned_window(wish, parent, "horizontal")
}

/// Creates a vertical paned window in `parent`: panes stack top to bottom.
pub fn make_vertical_paned_window<W: TkWidget>(wish: &mut Wish, parent: &W) -> (r: TkPanedWindow)
    requires
        old(wish).can_allocate(),
    ensures
        r.id@ == child_id(parent.widget_id(), old(wish)@.last_id + 1),
        final(wish)@ == made(old(wish)@, "ttk::panedwindow "@ + r.id@ + " -orient "@ + "vertical"@),
{
    make_paned_window(wish, parent, "vertical")
}

impl TkWidget for TkPanedWindow {
    open spec fn widget_id(&self) -> Seq<char> {
        self.id@
    }

    fn id(&self) -> (r: &str) {
        self.id.as_str()
    }
}

/// `<id> <verb> <rest>`
fn pane_command(id: &str, verb: &str, rest: &str) -> (r: String)
    ensures
        r@ == id@ + " "@ + verb@ + " "@ + rest@,
{
    let mut msg = id.to_string();
    msg.append(" ");
    msg.append(verb);
    msg.append(" ");
    msg.append(rest);
    msg
}

/// `-weight <weight>`
pub open spec fn weight_part(weight: u32) -> Seq<char> {
    " -weight "@ + decimal(weight as nat)
}

fn with_weight(s: &str, weight: u32) -> (r: String)
    ensures
        r@ == s@ + weight_part(weight),
{
    let mut out = s.to_string();
    out.append(" -weight ");
    out.append(u64_to_decimal(weight as u64).as_str());
    out
}

/// `<index> <pane>`
fn at_index(index: u32, pane: &str) -> (r: String)
    ensures
        r@ == decimal(index as nat) + " "@ + pane@,
{
    let mut out = u64_to_decimal(index as u64);
    out.append(" ");
    out.append(pane);
    out
}

impl TkPanedWindow {
    /// Adds the given widget as a pane.
    pub fn add<W: TkWidget>(&self, wish: &mut Wish, pane: &W)
        ensures
            final(wish)@ == told(old(wish)@, self.id@ + " "@ + "add"@ + " "@ + pane.widget_id()),
    {
        let msg = pane_command(self.id.as_str(), "add", pane.id());
        tell_wish(wish, msg.as_str());
    }

    /// Adds the given widget as a pane with the given weight.
    pub fn add_weighted<W: TkWidget>(&self, wish: &mut Wish, pane: &W, weight: u32)
        ensures
            final(wish)@ == told(
                old(wish)@,
                self.id@ + " "@ + "add"@ + " "@ + pane.widget_id() + weight_part(weight),
            ),
    {
        let rest = with_weight(pane.id(), weight);
        let msg = pane_command(self.id.as_str(), "add", rest.as_str());
        assert(msg@ =~= self.id@ + " "@ + "add"@ + " "@ + pane.widget_id() + weight_part(weight));
        tell_wish(wish, msg.as_str());
    }

    /// Removes the given widget from the panes.
    pub fn forget<W: TkWidget>(&self, wish: &mut Wish, pane: &W)
        ensures
            final(wish)@ == told(old(wish)@, self.id@ + " "@ + "forget"@ + " "@ + pane.widget_id()),
    {
        let msg = pane_command(self.id.as_str(), "forget", pane.id());
        tell_wish(wish, msg.as_str());
    }

    /// Height of paned window, in rows
    pub fn height(&self, wish: &mut Wish, height: u32)
        ensures
            final(wish)@ == told(
                old(wish)@,
                configure_command(self.id@, "height"@, decimal(height as nat)),
            ),
    {
        let text = u64_to_decimal(height as u64);
        configure(wish, self.id.as_str(), "height", text.as_str());
    }

    /// Inserts the given widget as a pane at the given position.
    pub fn insert<W: TkWidget>(&self, wish: &mut Wish, index: u32, pane: &W)
        ensures
            final(wish)@ == told(
                old(wish)@,
                self.id@ + " "@ + "insert"@ + " "@ + decimal(index as nat) + " "@ + pane.widget_id(),
            ),
    {
        let rest = at_index(index, pane.id());
        let msg = pane_command(self.id.as_str(), "insert", rest.as_str());
        assert(msg@ =~= self.id@ + " "@ + "insert"@ + " "@ + decimal(index as nat) + " "@
            + pane.widget_id());
        tell_wish(wish, msg.as_str());
    }

    /// Inserts the given widget as a pane at the given position, with the
    /// given weight.
    pub fn insert_weighted<W: TkWidget>(&self, wish: &mut Wish, index: u32, pane: &W, weight: u32)
        ensures
            final(wish)@ == told(
                old(wish)@,
                self.id@ + " "@ + "insert"@ + " "@ + decimal(index as nat) + " "@ + pane.widget_id()
                    + weight_part(weight),
            ),
    {
        let placed = at_index(index, pane.id());
        let rest = with_weight(placed.as_str(), weight);
        let msg = pane_command(self.id.as_str(), "insert", rest.as_str());
        assert(msg@ =~= self.id@ + " "@ + "insert"@ + " "@ + decimal(index as nat) + " "@
            + pane.widget_id() + weight_part(weight));
        tell_wish(wish, msg.as_str());
    }

    /// Width of paned window, in columns
    pub fn width(&self, wish: &mut Wish, width: u32)
        ensures
            final(wish)@ == told(
                old(wish)@,
                configure_command(self.id@, "width"@, decimal(width as nat)),
            ),
    {
        let text = u64_to_decimal(width as u64);
        configure(wish, self.id.as_str(), "width", text.as_str());
    }
}

} // verus!
