//! Label widgets, for displaying some text and/or an image.
use vstd::prelude::*;
use crate::widget::{
    anchor_word, configure, configure_command, justify, justify_word, relief, relief_word, Anchor,
    Justify, Relief, TkLabelOptions, TkWidget,
};
use crate::text::{decimal, u64_to_decimal};
use crate::wish::{child_id, made, next_wid, tell_wish, told, Wish};

verus! {

/// Refers to a label widget
#[derive(Clone, Debug)]
pub struct TkLabel {
    pub id: String,
}

/// Creates a label widget in `parent`, with a new id under the parent's.
pub fn make_label<W: TkWidget>(wish: &mut Wish, parent: &W) -> (r: TkLabel)
    requires
        old(wish).can_allocate(),
    ensures
        r.id@ == child_id(parent.widget_id(), old(wish)@.last_id + 1),
        final(wish)@ == made(old(wish)@, "ttk::label "@ + r.id@),
{
    let id = next_wid(wish, parent.id());
    let mut msg = String::from_str("ttk::label ");
    msg.append(id.as_str());
    tell_wish(wish, msg.as_str());
    TkLabel { id }
}

impl TkWidget for TkLabel {
    open spec fn widget_id(&self) -> Seq<char> {
        self.id@
    }

    fn id(&self) -> (r: &str) {
        self.id.as_str()
    }
}

impl TkLabelOptions for TkLabel {

}

impl TkLabel {
    /// Positioning of information with respect to internal margins.
    pub fn anchor(&self, wish: &mut Wish, value: Anchor)
        ensures
            final(wish)@ == told(old(wish)@, configure_command(self.id@, "anchor"@, anchor_word(value))),
    {
        let word = match value {
            Anchor::N => "n",
            Anchor::NE => "ne",
            Anchor::E => "e",
            Anchor::SE => "se",
            Anchor::S => "s",
            Anchor::SW => "sw",
            Anchor::W => "w",
            Anchor::NW => "nw",
            Anchor::Center | Anchor::Centre => "center",
        };
        configure(wish, self.id.as_str(), "anchor", word);
    }

    /// Specifies the background colour.
    pub fn background(&self, wish: &mut Wish, colour: &str)
        ensures
            final(wish)@ == told(old(wish)@, configure_command(self.id@, "background"@, colour@)),
    {
        configure(wish, self.id.as_str(), "background", colour);
    }

    /// Alignment of text within widget
    pub fn justify(&self, wish: &mut Wish, value: Justify)
        ensures
            final(wish)@ == told(old(wish)@, configure_command(self.id@, "justify"@, justify_word(value))),
    {
        justify(wish, self.id.as_str(), value);
    }

    /// Style of border around label.
    pub fn relief(&self, wish: &mut Wish, value: Relief)
        ensures
            final(wish)@ == told(old(wish)@, configure_command(self.id@, "relief"@, relief_word(value))),
    {
        relief(wish, self.id.as_str(), value);
    }

    /// Sets the maximum line length, in pixels: displayed text is broken
    /// into lines no longer than that.
    pub fn wrap_length(&self, wish: &mut Wish, length: u32)
        ensures
            final(wish)@ == told(
                old(wish)@,
                configure_command(self.id@, "wraplength"@, decimal(length as nat)),
            ),
    {
        let text = u64_to_decimal(length as u64);
        configure(wish, self.id.as_str(), "wraplength", text.as_str());
    }
}

} // verus!
