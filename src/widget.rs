//! What all widgets share: the event record handed to bound closures, the
//! widget traits, the option enums, and the commands that set options.
use vstd::prelude::*;
use crate::callbacks::Callbacks;
use crate::text::{decimal, i32_to_decimal, int_text, u64_to_decimal};
use crate::wish::{asked, tell_wish, told, Wish};

verus! {

/// What wish reports of a bound event, handed to the bound closure.
pub struct TkEvent {
    /// x-coordinate relative to current widget
    pub x: i32,
    /// y-coordinate relative to current widget
    pub y: i32,
    /// x-coordinate relative to screen
    pub root_x: i32,
    /// y-coordinate relative to screen
    pub root_y: i32,
    /// vertical screen distance, e.g. for a drag event
    pub height: i32,
    /// horizontal screen distance, e.g. for a drag event
    pub width: i32,
    /// Numeric code representing key for current event
    pub key_code: u32,
    /// Symbol representing key for current event, e.g. "space", "e".
    pub key_symbol: String,
    /// Number of mouse button in current event: 1 for left, 3 for right, etc.
    pub mouse_button: u32,
}


/// `<wid> configure -<option> {<value>}`
pub open spec fn configure_command(wid: Seq<char>, option: Seq<char>, value: Seq<char>) -> Seq<char> {
    wid + " configure -"@ + option + " {"@ + value + "}"@
}

/// `bind <tag> <pattern> { puts cb1e:<tag><pattern>:%x:...:%b ; flush stdout }`:
/// wish then reports each such event under the key `<tag><pattern>`.
pub open spec fn bind_command(tag: Seq<char>, pattern: Seq<char>) -> Seq<char> {
    "bind "@ + tag + " "@ + pattern + " { puts cb1e:"@ + tag + pattern
        + ":%x:%y:%X:%Y:%h:%w:%k:%K:%b ; flush stdout }"@
}

/// `grid <kind> <wid> <index> -<option> {<value>}`
pub open spec fn grid_command(
    kind: Seq<char>,
    wid: Seq<char>,
    index: u32,
    option: Seq<char>,
    value: Seq<char>,
) -> Seq<char> {
    "grid "@ + kind + " "@ + wid + " "@ + decimal(index as nat) + " -"@ + option + " {"@ + value
        + "}"@
}

/// The padding values, each followed by a space.
pub open spec fn padding_text(values: Seq<u32>) -> Seq<char>
    decreases values.len(),
{
    if values.len() == 0 {
        seq![]
    } else {
        padding_text(values.drop_last()) + decimal(values.last() as nat) + " "@
    }
}

/// Common trait for widgets. Each widget gives its id; the other methods
/// queue the Tk commands that act on the widget with that id.
pub trait TkWidget {
    /// The widget's id, as Tk knows it.
    spec fn widget_id(&self) -> Seq<char>;

    /// Returns the widget's id reference - used within tk
    fn id(&self) -> (r: &str)
        ensures
            r@ == self.widget_id(),
    ;

    /// Binds `command` to the event `pattern` on this widget.
    fn bind<C>(&self, wish: &mut Wish, events: &mut Callbacks<C>, pattern: &str, command: C)
        requires
            old(events).wf(),
        ensures
            final(events).wf(),
            final(events)@ == old(events)@.insert(self.widget_id() + pattern@, command),
            final(wish)@ == told(old(wish)@, bind_command(self.widget_id(), pattern@)),
    {
        bind_to(wish, events, self.id(), pattern, command);
    }

    /// Asks for the value of a configuration option; the reply holds it.
    fn cget(&self, wish: &mut Wish, option: &str)
        requires
            old(wish).can_request(),
        ensures
            final(wish)@ == asked(old(wish)@, self.widget_id() + " cget "@ + option@),
    {
        let mut msg = self.id().to_string();
        msg.append(" cget ");
        msg.append(option);
        wish.request(msg.as_str());
    }

    /// Sets a configuration option of the widget to `value`.
    fn configure(&self, wish: &mut Wish, option: &str, value: &str)
        ensures
            final(wish)@ == told(old(wish)@, configure_command(self.widget_id(), option@, value@)),
    {
        configure(wish, self.id(), option, value);
    }

    /// Destroys a widget and its children.
    fn destroy(&self, wish: &mut Wish)
        ensures
            final(wish)@ == told(old(wish)@, "destroy "@ + self.widget_id()),
    {
        let mut msg = String::from_str("destroy ");
        msg.append(self.id());
        tell_wish(wish, msg.as_str());
    }

    /// Asks `winfo <option>` of the widget; the reply holds the answer.
    fn winfo(&self, wish: &mut Wish, option: &str)
        requires
            old(wish).can_request(),
        ensures
            final(wish)@ == asked(old(wish)@, "winfo "@ + option@ + " "@ + self.widget_id()),
    {
        let mut msg = String::from_str("winfo ");
        msg.append(option);
        msg.append(" ");
        msg.append(self.id());
        wish.request(msg.as_str());
    }

    /// Makes this widget the focus window (e.g. for key presses)
    fn focus(&self, wish: &mut Wish)
        ensures
            final(wish)@ == told(old(wish)@, "focus "@ + self.widget_id()),
    {
        let mut msg = String::from_str("focus ");
        msg.append(self.id());
        tell_wish(wish, msg.as_str());
    }

    /// Asks for the widget's x position in pixels, within its parent; the
    /// reply reads with `parse_u32_or(reply, 0)`.
    fn position_x(&self, wish: &mut Wish)
        requires
            old(wish).can_request(),
        ensures
            final(wish)@ == asked(old(wish)@, "winfo x "@ + self.widget_id()),
    {
        ask_about(wish, "winfo x ", self.id());
    }

    /// Asks for the widget's y position in pixels, within its parent; the
    /// reply reads with `parse_u32_or(reply, 0)`.
    fn position_y(&self, wish: &mut Wish)
        requires
            old(wish).can_request(),
        ensures
            final(wish)@ == asked(old(wish)@, "winfo y "@ + self.widget_id()),
    {
        ask_about(wish, "winfo y ", self.id());
    }

    /// Asks for the widget's height in pixels; the reply reads with
    /// `parse_u32_or(reply, 0)`.
    fn widget_height(&self, wish: &mut Wish)
        requires
            old(wish).can_request(),
        ensures
            final(wish)@ == asked(old(wish)@, "winfo height "@ + self.widget_id()),
    {
        ask_about(wish, "winfo height ", self.id());
    }

    /// Asks for the widget's width in pixels; the reply reads with
    /// `parse_u32_or(reply, 0)`.
    fn widget_width(&self, wish: &mut Wish)
        requires
            old(wish).can_request(),
        ensures
            final(wish)@ == asked(old(wish)@, "winfo width "@ + self.widget_id()),
    {
        ask_about(wish, "winfo width ", self.id());
    }

    /// Asks for the mouse's x position on the widget's screen; the reply
    /// reads with `parse_i32_or(reply, -1)`.
    fn mouse_x(&self, wish: &mut Wish)
        requires
            old(wish).can_request(),
        ensures
            final(wish)@ == asked(old(wish)@, "winfo pointerx "@ + self.widget_id()),
    {
        ask_about(wish, "winfo pointerx ", self.id());
    }

    /// Asks for the mouse's y position on the widget's screen; the reply
    /// reads with `parse_i32_or(reply, -1)`.
    fn mouse_y(&self, wish: &mut Wish)
        requires
            old(wish).can_request(),
        ensures
            final(wish)@ == asked(old(wish)@, "winfo pointery "@ + self.widget_id()),
    {
        ask_about(wish, "winfo pointery ", self.id());
    }

    /// Asks for the mouse's position, x then y: two replies follow.
    fn mouse_position(&self, wish: &mut Wish)
        requires
            old(wish)@.reader.pending + 2 <= u64::MAX,
        ensures
            final(wish)@ == asked(
                asked(old(wish)@, "winfo pointerx "@ + self.widget_id()),
                "winfo pointery "@ + self.widget_id(),
            ),
    {
        self.mouse_x(wish);
        self.mouse_y(wish);
    }

    /// Asks for the height of the widget's screen in pixels.
    fn screen_height(&self, wish: &mut Wish)
        requires
            old(wish).can_request(),
        ensures
            final(wish)@ == asked(old(wish)@, "winfo screenheight "@ + self.widget_id()),
    {
        ask_about(wish, "winfo screenheight ", self.id());
    }

    /// Asks for the height of the widget's screen in millimetres.
    fn screen_height_mm(&self, wish: &mut Wish)
        requires
            old(wish).can_request(),
        ensures
            final(wish)@ == asked(old(wish)@, "winfo screenmmheight "@ + self.widget_id()),
    {
        ask_about(wish, "winfo screenmmheight ", self.id());
    }

    /// Asks for the width of the widget's screen in pixels.
    fn screen_width(&self, wish: &mut Wish)
        requires
            old(wish).can_request(),
        ensures
            final(wish)@ == asked(old(wish)@, "winfo screenwidth "@ + self.widget_id()),
    {
        ask_about(wish, "winfo screenwidth ", self.id());
    }

    /// Asks for the width of the widget's screen in millimetres.
    fn screen_width_mm(&self, wish: &mut Wish)
        requires
            old(wish).can_request(),
        ensures
            final(wish)@ == asked(old(wish)@, "winfo screenmmwidth "@ + self.widget_id()),
    {
        ask_about(wish, "winfo screenmmwidth ", self.id());
    }

    /// Lowers the widget in stacking order.
    fn lower(&self, wish: &mut Wish)
        ensures
            final(wish)@ == told(old(wish)@, "lower "@ + self.widget_id()),
    {
        let mut msg = String::from_str("lower ");
        msg.append(self.id());
        tell_wish(wish, msg.as_str());
    }

    /// Raises the widget in stacking order.
    fn raise(&self, wish: &mut Wish)
        ensures
            final(wish)@ == told(old(wish)@, "raise "@ + self.widget_id()),
    {
        let mut msg = String::from_str("raise ");
        msg.append(self.id());
        tell_wish(wish, msg.as_str());
    }

    /// Sets an option of one column of the grid inside this widget.
    fn grid_configure_column(&self, wish: &mut Wish, index: u32, option: &str, value: &str)
        ensures
            final(wish)@ == told(
                old(wish)@,
                grid_command("columnconfigure"@, self.widget_id(), index, option@, value@),
            ),
    {
        let msg = grid_configure(self.id(), "columnconfigure", index, option, value);
        tell_wish(wish, msg.as_str());
    }

    /// Sets an option of one row of the grid inside this widget.
    fn grid_configure_row(&self, wish: &mut Wish, index: u32, option: &str, value: &str)
        ensures
            final(wish)@ == told(
                old(wish)@,
                grid_command("rowconfigure"@, self.widget_id(), index, option@, value@),
            ),
    {
        let msg = grid_configure(self.id(), "rowconfigure", index, option, value);
        tell_wish(wish, msg.as_str());
    }
}

/// Queues the request `<query><wid>`.
fn ask_about(wish: &mut Wish, query: &str, wid: &str)
    requires
        old(wish).can_request(),
    ensures
        final(wish)@ == asked(old(wish)@, query@ + wid@),
{
    let mut msg = query.to_string();
    msg.append(wid);
    wish.request(msg.as_str());
}

fn grid_configure(wid: &str, kind: &str, index: u32, option: &str, value: &str) -> (r: String)
    ensures
        r@ == grid_command(kind@, wid@, index, option@, value@),
{
    let mut msg = String::from_str("grid ");
    msg.append(kind);
    msg.append(" ");
    msg.append(wid);
    msg.append(" ");
    msg.append(u64_to_decimal(index as u64).as_str());
    msg.append(" -");
    msg.append(option);
    msg.append(" {");
    msg.append(value);
    msg.append("}");
    msg
}

/// Options shared by labels, buttons and similar widgets.
pub trait TkLabelOptions: TkWidget {
    /// Specifies how to arrange the text relative to the image.
    fn compound(&self, wish: &mut Wish, value: Compound)
        ensures
            final(wish)@ == told(
                old(wish)@,
                configure_command(self.widget_id(), "compound"@, compound_word(value)),
            ),
    {
        compound(wish, self.id(), value);
    }

    /// Specifies the font to use for text.
    fn font(&self, wish: &mut Wish, definition: &str)
        ensures
            final(wish)@ == told(old(wish)@, configure_command(self.widget_id(), "font"@, definition@)),
    {
        configure(wish, self.id(), "font", definition);
    }

    /// Specifies the foreground (text) colour.
    fn foreground(&self, wish: &mut Wish, colour: &str)
        ensures
            final(wish)@ == told(
                old(wish)@,
                configure_command(self.widget_id(), "foreground"@, colour@),
            ),
    {
        configure(wish, self.id(), "foreground", colour);
    }

    /// Shows the image named `image` on the widget.
    fn image(&self, wish: &mut Wish, image: &str)
        ensures
            final(wish)@ == told(old(wish)@, configure_command(self.widget_id(), "image"@, image@)),
    {
        configure(wish, self.id(), "image", image);
    }

    /// Sets space around the widget. Takes up to four values, specifying:
    /// all; left-right top-bottom; left top-bottom right; or left top right
    /// bottom.
    fn padding(&self, wish: &mut Wish, values: &[u32])
        ensures
            final(wish)@ == told(
                old(wish)@,
                configure_command(self.widget_id(), "padding"@, padding_text(values@)),
            ),
    {
        padding(wish, self.id(), values);
    }

    /// Sets the text label for the widget.
    fn text(&self, wish: &mut Wish, value: &str)
        ensures
            final(wish)@ == told(old(wish)@, configure_command(self.widget_id(), "text"@, value@)),
    {
        configure(wish, self.id(), "text", value);
    }

    /// Underlines the character at the given index position.
    fn underline(&self, wish: &mut Wish, index: u32)
        ensures
            final(wish)@ == told(
                old(wish)@,
                configure_command(self.widget_id(), "underline"@, decimal(index as nat)),
            ),
    {
        let text = u64_to_decimal(index as u64);
        configure(wish, self.id(), "underline", text.as_str());
    }

    /// Sets the width of the widget, in characters
    fn width(&self, wish: &mut Wish, value: i32)
        ensures
            final(wish)@ == told(
                old(wish)@,
                configure_command(self.widget_id(), "width"@, int_text(value as int)),
            ),
    {
        let text = i32_to_decimal(value);
        configure(wish, self.id(), "width", text.as_str());
    }
}

pub enum Anchor {
    N,
    NE,
    E,
    SE,
    S,
    SW,
    W,
    NW,
    Center,
    Centre,
}

pub enum Compound {
    Bottom,
    Center,
    Centre,
    Image,
    Left,
    /// Tk's `none`: the image where there is one, else the text.
    Plain,
    Right,
    Text,
    Top,
}

#[derive(Clone, Copy)]
pub enum DialogType {
    AbortRetryIgnore,
    /// A single OK button.
    OkOnly,
    OkCancel,
    RetryCancel,
    YesNo,
    YesNoCancel,
}

#[derive(Clone, Copy)]
pub enum IconImage {
    Error,
    Information,
    Question,
    Warning,
}

pub enum Justify {
    Center,
    Centre,
    Left,
    Right,
}

pub enum Relief {
    Flat,
    Groove,
    Raised,
    Ridge,
    Solid,
    Sunken,
}

/// The kinds of activity state for a widget, e.g. if it is currently
/// available to use or disabled.
pub enum State {
    /// Used, e.g., for buttons, to highlight when a mouse pointer is over them.
    Active,
    /// Used to prevent user-interaction with a widget.
    Disabled,
    /// The usual state of a widget, permitting user interactions.
    Normal,
    /// State cannot be changed, for those widgets with editable state.
    Readonly,
}

/// Tk's name for an anchor.
pub open spec fn anchor_word(a: Anchor) -> Seq<char> {
    match a {
        Anchor::N => "n"@,
        Anchor::NE => "ne"@,
        Anchor::E => "e"@,
        Anchor::SE => "se"@,
        Anchor::S => "s"@,
        Anchor::SW => "sw"@,
        Anchor::W => "w"@,
        Anchor::NW => "nw"@,
        Anchor::Center | Anchor::Centre => "center"@,
    }
}

/// Tk's name for a compound arrangement.
pub open spec fn compound_word(c: Compound) -> Seq<char> {
    match c {
        Compound::Bottom => "bottom"@,
        Compound::Center | Compound::Centre => "center"@,
        Compound::Image => "image"@,
        Compound::Left => "left"@,
        Compound::Plain => "none"@,
        Compound::Right => "right"@,
        Compound::Text => "text"@,
        Compound::Top => "top"@,
    }
}

/// Tk's name for a justification.
pub open spec fn justify_word(j: Justify) -> Seq<char> {
    match j {
        Justify::Left => "left"@,
        Justify::Center | Justify::Centre => "center"@,
        Justify::Right => "right"@,
    }
}

/// Tk's name for a relief.
pub open spec fn relief_word(r: Relief) -> Seq<char> {
    match r {
        Relief::Flat => "flat"@,
        Relief::Groove => "groove"@,
        Relief::Raised => "raised"@,
        Relief::Ridge => "ridge"@,
        Relief::Solid => "solid"@,
        Relief::Sunken => "sunken"@,
    }
}

/// Tk's name for a state.
pub open spec fn state_word(s: State) -> Seq<char> {
    match s {
        State::Active => "active"@,
        State::Disabled => "disabled"@,
        State::Normal => "normal"@,
        State::Readonly => "readonly"@,
    }
}

/// Binds `command` to the event `pattern` on `tag` (a widget id, or `all`):
/// the callback is stored under `<tag><pattern>`, the key under which wish
/// will report the event.
pub fn bind_to<C>(wish: &mut Wish, events: &mut Callbacks<C>, tag: &str, pattern: &str, command: C)
    requires
        old(events).wf(),
    ensures
        final(events).wf(),
        final(events)@ == old(events)@.insert(tag@ + pattern@, command),
        final(wish)@ == told(old(wish)@, bind_command(tag@, pattern@)),
{
    let mut key = tag.to_string();
    key.append(pattern);
    events.register(key.as_str(), command);
    let mut msg = String::from_str("bind ");
    msg.append(tag);
    msg.append(" ");
    msg.append(pattern);
    msg.append(" { puts cb1e:");
    msg.append(key.as_str());
    msg.append(":%x:%y:%X:%Y:%h:%w:%k:%K:%b ; flush stdout }");
    assert(msg@ =~= bind_command(tag@, pattern@));
    tell_wish(wish, msg.as_str());
}

/// Binds `command` to the event `pattern` on all widgets.
pub fn bind<C>(wish: &mut Wish, events: &mut Callbacks<C>, pattern: &str, command: C)
    requires
        old(events).wf(),
    ensures
        final(events).wf(),
        final(events)@ == old(events)@.insert("all"@ + pattern@, command),
        final(wish)@ == told(old(wish)@, bind_command("all"@, pattern@)),
{
    bind_to(wish, events, "all", pattern, command);
}

/// Sets option `option` of widget `wid` to `value`.
pub fn configure(wish: &mut Wish, wid: &str, option: &str, value: &str)
    ensures
        final(wish)@ == told(old(wish)@, configure_command(wid@, option@, value@)),
{
    let mut msg = wid.to_string();
    msg.append(" configure -");
    msg.append(option);
    msg.append(" {");
    msg.append(value);
    msg.append("}");
    tell_wish(wish, msg.as_str());
}

pub fn compound(wish: &mut Wish, wid: &str, value: Compound)
    ensures
        final(wish)@ == told(old(wish)@, configure_command(wid@, "compound"@, compound_word(value))),
{
    let word = match value {
        Compound::Bottom => "bottom",
        Compound::Center | Compound::Centre => "center",
        Compound::Image => "image",
        Compound::Left => "left",
        Compound::Plain => "none",
        Compound::Right => "right",
        Compound::Text => "text",
        Compound::Top => "top",
    };
    configure(wish, wid, "compound", word);
}

pub fn justify(wish: &mut Wish, wid: &str, value: Justify)
    ensures
        final(wish)@ == told(old(wish)@, configure_command(wid@, "justify"@, justify_word(value))),
{
    let word = match value {
        Justify::Left => "left",
        Justify::Center | Justify::Centre => "center",
        Justify::Right => "right",
    };
    configure(wish, wid, "justify", word);
}

pub fn padding(wish: &mut Wish, wid: &str, values: &[u32])
    ensures
        final(wish)@ == told(old(wish)@, configure_command(wid@, "padding"@, padding_text(values@))),
{
    let mut text = String::new();
    let mut i: usize = 0;
    while i < values.len()
        invariant
            i <= values@.len(),
            text@ == padding_text(values@.subrange(0, i as int)),
        decreases values@.len() - i,
    {
        let ghost before = text@;
        text.append(u64_to_decimal(values[i] as u64).as_str());
        text.append(" ");
        assert(values@.subrange(0, i + 1 as int).drop_last() =~= values@.subrange(0, i as int));
        i = i + 1;
    }
    assert(values@.subrange(0, i as int) =~= values@);
    configure(wish, wid, "padding", text.as_str());
}

pub fn relief(wish: &mut Wish, wid: &str, value: Relief)
    ensures
        final(wish)@ == told(old(wish)@, configure_command(wid@, "relief"@, relief_word(value))),
{
    let word = match value {
        Relief::Flat => "flat",
        Relief::Groove => "groove",
        Relief::Raised => "raised",
        Relief::Ridge => "ridge",
        Relief::Solid => "solid",
        Relief::Sunken => "sunken",
    };
    configure(wish, wid, "relief", word);
}

pub fn state(wish: &mut Wish, wid: &str, value: State)
    ensures
        final(wish)@ == told(old(wish)@, configure_command(wid@, "state"@, state_word(value))),
{
    let word = match value {
        State::Active => "active",
        State::Disabled => "disabled",
        State::Normal => "normal",
        State::Readonly => "readonly",
    };
    configure(wish, wid, "state", word);
}

} // verus!
