//! Dialogs, built in builder style: a function makes the settings, methods
//! change them, and `show` queues the request that displays the dialog.
//! The reply to that request is the dialog's answer.
use vstd::prelude::*;
use crate::toplevel::TkTopLevel;
use crate::widget::{DialogType, IconImage};
use crate::wish::{asked, Wish};

verus! {

/// The text of an optional string.
pub open spec fn opt_view(o: Option<String>) -> Option<Seq<char>> {
    match o {
        Some(s) => Some(s@),
        None => None,
    }
}

/// `<flag> {<value>} ` where there is a value; nothing where there is none.
pub open spec fn braced_part(flag: Seq<char>, value: Option<Seq<char>>) -> Seq<char> {
    match value {
        Some(v) => flag + " {"@ + v + "} "@,
        None => seq![],
    }
}

/// `<flag> <value> ` where there is a value; nothing where there is none.
pub open spec fn bare_part(flag: Seq<char>, value: Option<Seq<char>>) -> Seq<char> {
    match value {
        Some(v) => flag + " "@ + v + " "@,
        None => seq![],
    }
}

fn push_braced(msg: &mut String, flag: &str, value: &Option<String>)
    ensures
        final(msg)@ == old(msg)@ + braced_part(flag@, opt_view(*value)),
{
    match value {
        Some(v) => {
            msg.append(flag);
            msg.append(" {");
            msg.append(v.as_str());
            msg.append("} ");
        },
        None => {
            assert(msg@ =~= msg@ + braced_part(flag@, opt_view(*value)));
        },
    }
}

fn push_bare(msg: &mut String, flag: &str, value: &Option<String>)
    ensures
        final(msg)@ == old(msg)@ + bare_part(flag@, opt_view(*value)),
{
    match value {
        Some(v) => {
            msg.append(flag);
            msg.append(" ");
            msg.append(v.as_str());
            msg.append(" ");
        },
        None => {
            assert(msg@ =~= msg@ + bare_part(flag@, opt_view(*value)));
        },
    }
}

/// Refers to the settings for TkMessageBox.
#[derive(Clone)]
pub struct TkMessageBox {
    default: Option<String>,
    detail: Option<String>,
    icon: IconImage,
    message: Option<String>,
    parent: Option<String>,
    title: Option<String>,
    type_buttons: DialogType,
}

pub struct MessageBoxView {
    pub default: Option<Seq<char>>,
    pub detail: Option<Seq<char>>,
    pub icon: IconImage,
    pub message: Option<Seq<char>>,
    pub parent: Option<Seq<char>>,
    pub title: Option<Seq<char>>,
    pub type_buttons: DialogType,
}

impl View for TkMessageBox {
    type V = MessageBoxView;

    closed spec fn view(&self) -> MessageBoxView {
        MessageBoxView {
            default: opt_view(self.default),
            detail: opt_view(self.detail),
            icon: self.icon,
            message: opt_view(self.message),
            parent: opt_view(self.parent),
            title: opt_view(self.title),
            type_buttons: self.type_buttons,
        }
    }
}

/// Creates a message box to complete in builder style: an error icon and
/// an OK button, nothing else set.
pub fn message_box() -> (r: TkMessageBox)
    ensures
        r@ == (MessageBoxView {
            default: None,
            detail: None,
            icon: IconImage::Error,
            message: None,
            parent: None,
            title: None,
            type_buttons: DialogType::OkOnly,
        }),
{
    TkMessageBox {
        default: None,
        detail: None,
        icon: IconImage::Error,
        message: None,
        parent: None,
        title: None,
        type_buttons: DialogType::OkOnly,
    }
}

impl TkMessageBox {
    /// Sets name used for default button.
    pub fn default(&mut self, name: &str) -> (r: &mut Self)
        ensures
            r@ == (MessageBoxView { default: Some(name@), ..old(self)@ }),
            final(self)@ == final(r)@,
    {
        self.default = Some(name.to_string());
        self
    }

    /// Sets submessage to display, below message.
    pub fn detail(&mut self, text: &str) -> (r: &mut Self)
        ensures
            r@ == (MessageBoxView { detail: Some(text@), ..old(self)@ }),
            final(self)@ == final(r)@,
    {
        self.detail = Some(text.to_string());
        self
    }

    /// Sets icon type.
    pub fn icon(&mut self, value: IconImage) -> (r: &mut Self)
        ensures
            r@ == (MessageBoxView { icon: value, ..old(self)@ }),
            final(self)@ == final(r)@,
    {
        self.icon = value;
        self
    }

    /// Sets message to display.
    pub fn message(&mut self, text: &str) -> (r: &mut Self)
        ensures
            r@ == (MessageBoxView { message: Some(text@), ..old(self)@ }),
            final(self)@ == final(r)@,
    {
        self.message = Some(text.to_string());
        self
    }

    /// Sets parent widget - dialog is usually shown relative to parent.
    pub fn parent(&mut self, value: &TkTopLevel) -> (r: &mut Self)
        ensures
            r@ == (MessageBoxView { parent: Some(value.id@), ..old(self)@ }),
            final(self)@ == final(r)@,
    {
        self.parent = Some(value.id.clone());
        self
    }

    /// Sets title of the dialog window.
    pub fn title(&mut self, text: &str) -> (r: &mut Self)
        ensures
            r@ == (MessageBoxView { title: Some(text@), ..old(self)@ }),
            final(self)@ == final(r)@,
    {
        self.title = Some(text.to_string());
        self
    }

    /// Sets type of dialog, which specifies its buttons.
    pub fn type_buttons(&mut self, value: DialogType) -> (r: &mut Self)
        ensures
            r@ == (MessageBoxView { type_buttons: value, ..old(self)@ }),
            final(self)@ == final(r)@,
    {
        self.type_buttons = value;
        self
    }

    /// Queues the request that shows the message box; the reply names the
    /// button pressed.
    pub fn show(&self, wish: &mut Wish)
        requires
            old(wish).can_request(),
        ensures
            final(wish)@ == asked(old(wish)@, message_box_command(self@)),
    {
        let mut msg = String::from_str("puts [tk_messageBox ");
        push_braced(&mut msg, "-default", &self.default);
        push_braced(&mut msg, "-detail", &self.detail);
        let icon = match self.icon {
            IconImage::Error => "error",
            IconImage::Information => "info",
            IconImage::Question => "question",
            IconImage::Warning => "warning",
        };
        msg.append("-icon ");
        msg.append(icon);
        msg.append(" ");
        push_braced(&mut msg, "-message", &self.message);
        push_bare(&mut msg, "-parent", &self.parent);
        push_braced(&mut msg, "-title", &self.title);
        let buttons = match self.type_buttons {
            DialogType::AbortRetryIgnore => "abortretryignore",
            DialogType::OkOnly => "ok",
            DialogType::OkCancel => "okcancel",
            DialogType::RetryCancel => "retrycancel",
            DialogType::YesNo => "yesno",
            DialogType::YesNoCancel => "yesnocancel",
        };
        msg.append("-type ");
        msg.append(buttons);
        msg.append(" ");
        msg.append("] ; flush stdout");
        assert(msg@ =~= message_box_command(self@));
        wish.request(msg.as_str());
    }
}

/// Tk's name for an icon.
pub open spec fn icon_word(i: IconImage) -> Seq<char> {
    match i {
        IconImage::Error => "error"@,
        IconImage::Information => "info"@,
        IconImage::Question => "question"@,
        IconImage::Warning => "warning"@,
    }
}

/// Tk's name for a set of buttons.
pub open spec fn buttons_word(d: DialogType) -> Seq<char> {
    match d {
        DialogType::AbortRetryIgnore => "abortretryignore"@,
        DialogType::OkOnly => "ok"@,
        DialogType::OkCancel => "okcancel"@,
        DialogType::RetryCancel => "retrycancel"@,
        DialogType::YesNo => "yesno"@,
        DialogType::YesNoCancel => "yesnocancel"@,
    }
}

/// The command that shows a message box with the settings `v` and writes
/// back the name of the button pressed.
pub open spec fn message_box_command(v: MessageBoxView) -> Seq<char> {
    "puts [tk_messageBox "@ + braced_part("-default"@, v.default) + braced_part("-detail"@, v.detail)
        + "-icon "@ + icon_word(v.icon) + " "@ + braced_part("-message"@, v.message) + bare_part(
        "-parent"@,
        v.parent,
    ) + braced_part("-title"@, v.title) + "-type "@ + buttons_word(v.type_buttons) + " "@
        + "] ; flush stdout"@
}

/// What a chooser's reply means: an empty reply is a cancel, anything else
/// the choice.
pub fn chosen(reply: String) -> (r: Option<String>)
    ensures
        reply@.len() == 0 ==> r is None,
        reply@.len() > 0 ==> r == Some(reply),
{
    if reply.as_str().unicode_len() == 0 {
        None
    } else {
        Some(reply)
    }
}

/// Refers to the settings for TkColourChooser.
#[derive(Clone)]
pub struct TkColourChooser {
    parent: Option<String>,
    title: Option<String>,
    initial: Option<String>,
}

pub struct ChooserView {
    pub parent: Option<Seq<char>>,
    pub title: Option<Seq<char>>,
    pub initial: Option<Seq<char>>,
}

impl View for TkColourChooser {
    type V = ChooserView;

    closed spec fn view(&self) -> ChooserView {
        ChooserView {
            parent: opt_view(self.parent),
            title: opt_view(self.title),
            initial: opt_view(self.initial),
        }
    }
}

/// Creates a colour-chooser to complete in builder style.
pub fn colour_chooser() -> (r: TkColourChooser)
    ensures
        r@ == (ChooserView { parent: None, title: None, initial: None }),
{
    TkColourChooser { parent: None, title: None, initial: None }
}

/// Creates a colour-chooser to complete in builder style.
pub fn color_chooser() -> (r: TkColourChooser)
    ensures
        r@ == (ChooserView { parent: None, title: None, initial: None }),
{
    colour_chooser()
}

/// The command that shows a colour chooser with the settings `v` and
/// writes back the colour chosen, or nothing on cancel.
pub open spec fn colour_chooser_command(v: ChooserView) -> Seq<char> {
    "puts [tk_chooseColor "@ + bare_part("-parent"@, v.parent) + braced_part("-title"@, v.title)
        + braced_part("-initialcolor"@, v.initial) + "] ; flush stdout"@
}

impl TkColourChooser {
    /// Sets parent widget - dialog is usually shown relative to parent.
    pub fn parent(&mut self, value: &TkTopLevel) -> (r: &mut Self)
        ensures
            r@ == (ChooserView { parent: Some(value.id@), ..old(self)@ }),
            final(self)@ == final(r)@,
    {
        self.parent = Some(value.id.clone());
        self
    }

    /// Sets title of the dialog window.
    pub fn title(&mut self, text: &str) -> (r: &mut Self)
        ensures
            r@ == (ChooserView { title: Some(text@), ..old(self)@ }),
            final(self)@ == final(r)@,
    {
        self.title = Some(text.to_string());
        self
    }

    /// Sets initial color of chooser.
    pub fn initial_color(&mut self, value: &str) -> (r: &mut Self)
        ensures
            r@ == (ChooserView { initial: Some(value@), ..old(self)@ }),
            final(self)@ == final(r)@,
    {
        self.initial_colour(value)
    }

    /// Sets initial colour of chooser.
    pub fn initial_colour(&mut self, value: &str) -> (r: &mut Self)
        ensures
            r@ == (ChooserView { initial: Some(value@), ..old(self)@ }),
            final(self)@ == final(r)@,
    {
        self.initial = Some(value.to_string());
        self
    }

    /// Queues the request that shows the chooser; `chosen` reads the reply.
    pub fn show(&self, wish: &mut Wish)
        requires
            old(wish).can_request(),
        ensures
            final(wish)@ == asked(old(wish)@, colour_chooser_command(self@)),
    {
        let mut msg = String::from_str("puts [tk_chooseColor ");
        push_bare(&mut msg, "-parent", &self.parent);
        push_braced(&mut msg, "-title", &self.title);
        push_braced(&mut msg, "-initialcolor", &self.initial);
        msg.append("] ; flush stdout");
        assert(msg@ =~= colour_chooser_command(self@));
        wish.request(msg.as_str());
    }
}

/// Refers to the settings for TkDirectoryChooser.
#[derive(Clone)]
pub struct TkDirectoryChooser {
    parent: Option<String>,
    title: Option<String>,
    initial: Option<String>,
    must_exist: bool,
}

pub struct DirectoryChooserView {
    pub parent: Option<Seq<char>>,
    pub title: Option<Seq<char>>,
    pub initial: Option<Seq<char>>,
    pub must_exist: bool,
}

impl View for TkDirectoryChooser {
    type V = DirectoryChooserView;

    closed spec fn view(&self) -> DirectoryChooserView {
        DirectoryChooserView {
            parent: opt_view(self.parent),
            title: opt_view(self.title),
            initial: opt_view(self.initial),
            must_exist: self.must_exist,
        }
    }
}

/// Creates a directory-chooser to complete in builder style.
pub fn directory_chooser() -> (r: TkDirectoryChooser)
    ensures
        r@ == (DirectoryChooserView { parent: None, title: None, initial: None, must_exist: false }),
{
    TkDirectoryChooser { parent: None, title: None, initial: None, must_exist: false }
}

/// The command that shows a directory chooser with the settings `v` and
/// writes back the directory chosen, or nothing on cancel.
pub open spec fn directory_chooser_command(v: DirectoryChooserView) -> Seq<char> {
    "puts [tk_chooseDirectory "@ + bare_part("-parent"@, v.parent) + braced_part("-title"@, v.title)
        + braced_part("-initialdir"@, v.initial) + (if v.must_exist {
        "-mustexist 1 "@
    } else {
        seq![]
    }) + "] ; flush stdout"@
}

impl TkDirectoryChooser {
    /// Sets parent widget - dialog is usually shown relative to parent.
    pub fn parent(&mut self, value: &TkTopLevel) -> (r: &mut Self)
        ensures
            r@ == (DirectoryChooserView { parent: Some(value.id@), ..old(self)@ }),
            final(self)@ == final(r)@,
    {
        self.parent = Some(value.id.clone());
        self
    }

    /// Sets title of the dialog window.
    pub fn title(&mut self, text: &str) -> (r: &mut Self)
        ensures
            r@ == (DirectoryChooserView { title: Some(text@), ..old(self)@ }),
            final(self)@ == final(r)@,
    {
        self.title = Some(text.to_string());
        self
    }

    /// Sets initial directory of chooser.
    pub fn initial_directory(&mut self, value: &str) -> (r: &mut Self)
        ensures
            r@ == (DirectoryChooserView { initial: Some(value@), ..old(self)@ }),
            final(self)@ == final(r)@,
    {
        self.initial = Some(value.to_string());
        self
    }

    /// Specify if directory must exist.
    pub fn must_exist(&mut self, value: bool) -> (r: &mut Self)
        ensures
            r@ == (DirectoryChooserView { must_exist: value, ..old(self)@ }),
            final(self)@ == final(r)@,
    {
        self.must_exist = value;
        self
    }

    /// Queues the request that shows the chooser; `chosen` reads the reply.
    pub fn show(&self, wish: &mut Wish)
        requires
            old(wish).can_request(),
        ensures
            final(wish)@ == asked(old(wish)@, directory_chooser_command(self@)),
    {
        let mut msg = String::from_str("puts [tk_chooseDirectory ");
        push_bare(&mut msg, "-parent", &self.parent);
        push_braced(&mut msg, "-title", &self.title);
        push_braced(&mut msg, "-initialdir", &self.initial);
        if self.must_exist {
            msg.append("-mustexist 1 ");
        }
        msg.append("] ; flush stdout");
        assert(msg@ =~= directory_chooser_command(self@));
        wish.request(msg.as_str());
    }
}

} // verus!
