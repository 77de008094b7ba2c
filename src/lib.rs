//! A binding to Tk through a `wish` process, driven by Tcl commands written
//! to its standard input; what wish writes back answers requests or reports
//! bound events.
//!
//! The library keeps the session as a value: `Wish` holds the counter that
//! names widgets, the commands waiting to be written and the state of the
//! reader. Widgets and dialogs queue their commands on it; `receive` sorts
//! each line that comes back; `Callbacks` stores the closures that events
//! are dispatched to. Moving the bytes to and from the process is left to
//! the caller.
pub mod callbacks;
pub mod dialog;
pub mod label;
pub mod paned_window;
pub mod protocol;
pub mod split;
pub mod text;
pub mod toplevel;
pub mod widget;
pub mod wish;

pub use callbacks::Callbacks;
pub use dialog::{
    chosen, color_chooser, colour_chooser, directory_chooser, message_box, TkColourChooser,
    TkDirectoryChooser, TkMessageBox,
};
pub use label::{make_label, TkLabel};
pub use paned_window::{make_horizontal_paned_window, make_vertical_paned_window, TkPanedWindow};
pub use protocol::{decode_line, Inbound};
pub use split::split_items;
pub use toplevel::TkTopLevel;
pub use widget::{
    bind, Anchor, Compound, DialogType, IconImage, Justify, Relief, State, TkEvent,
    TkLabelOptions, TkWidget,
};
pub use wish::{current_id, next_wid, start_wish, tell_wish, Wish};
