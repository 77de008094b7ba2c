use rstk::callbacks::Callbacks;
use rstk::dialog::{chosen, colour_chooser, directory_chooser, message_box};
use rstk::label::make_label;
use rstk::paned_window::make_horizontal_paned_window;
use rstk::protocol::{decode_line, Inbound};
use rstk::text::{parse_i32_or, parse_u32_or};
use rstk::widget::{Anchor, DialogType, IconImage, TkLabelOptions, TkWidget};
use rstk::wish::{current_id, next_wid, start_wish, tell_wish};
use std::cell::Cell;
use std::rc::Rc;

fn fresh() -> (rstk::wish::Wish, rstk::toplevel::TkTopLevel) {
    let (mut wish, root) = start_wish();
    wish.take_outgoing();
    (wish, root)
}

#[test]
fn start_queues_preamble_and_gives_root() {
    let (mut wish, root) = start_wish();
    assert_eq!(".", root.id);
    let out = wish.take_outgoing();
    assert_eq!(5, out.len());
    assert_eq!("package require Tcl", out[0]);
    assert_eq!("option add *tearOff 0", out[2]);
    assert!(out[4].starts_with("proc scale_value"));
    assert!(wish.take_outgoing().is_empty());
    assert!(wish.is_running());
    assert_eq!(0, current_id(&wish));
}

#[test]
fn ids_under_root_and_under_widget() {
    let (mut wish, _) = fresh();
    assert_eq!(".r1", next_wid(&mut wish, "."));
    assert_eq!(".r3.r2", next_wid(&mut wish, ".r3"));
    assert_eq!(2, current_id(&wish));
}

#[test]
fn consecutive_ids_differ_and_grow() {
    let (mut wish, _) = fresh();
    let mut last = String::new();
    for n in 1..=12u64 {
        let id = next_wid(&mut wish, ".f");
        assert_eq!(format!(".f.r{}", n), id);
        assert_ne!(last, id);
        last = id;
    }
    assert_eq!(12, current_id(&wish));
}

#[test]
fn commands_leave_in_order() {
    let (mut wish, _) = fresh();
    tell_wish(&mut wish, "first");
    tell_wish(&mut wish, "second");
    assert_eq!(vec!["first".to_string(), "second".to_string()], wish.take_outgoing());
}

#[test]
fn event_line_decodes_all_fields() {
    match decode_line("cb1e:tagX:10:20:110:120:5:6:64:space:1") {
        Inbound::Event { key, event } => {
            assert_eq!("tagX", key);
            assert_eq!(10, event.x);
            assert_eq!(20, event.y);
            assert_eq!(110, event.root_x);
            assert_eq!(120, event.root_y);
            assert_eq!(5, event.height);
            assert_eq!(6, event.width);
            assert_eq!(64, event.key_code);
            assert_eq!("space", event.key_symbol);
            assert_eq!(1, event.mouse_button);
        }
        _ => panic!("not an event"),
    }
}

#[test]
fn event_line_with_bad_numbers_reads_zero() {
    match decode_line("cb1e:.r1<Motion>:x:-3:??:4:5:6:-1:a:") {
        Inbound::Event { key, event } => {
            assert_eq!(".r1<Motion>", key);
            assert_eq!(0, event.x);
            assert_eq!(-3, event.y);
            assert_eq!(0, event.root_x);
            assert_eq!(0, event.key_code);
            assert_eq!("a", event.key_symbol);
            assert_eq!(0, event.mouse_button);
        }
        _ => panic!("not an event"),
    }
}

#[test]
fn event_line_with_too_few_fields_is_unrecognized() {
    match decode_line("cb1e:tag:1:2") {
        Inbound::Unrecognized { line } => assert_eq!("cb1e:tag:1:2", line),
        _ => panic!("decoded a short event"),
    }
}

#[test]
fn bool_line_decodes() {
    match decode_line("cb1b-.r1-1") {
        Inbound::Toggle { id, on } => {
            assert_eq!(".r1", id);
            assert!(on);
        }
        _ => panic!("not a toggle"),
    }
    match decode_line("cb1b-.r1-0") {
        Inbound::Toggle { id, on } => {
            assert_eq!(".r1", id);
            assert!(!on);
        }
        _ => panic!("not a toggle"),
    }
}

#[test]
fn clicked_scale_and_font_lines_decode() {
    match decode_line("clicked .r4") {
        Inbound::Clicked { id } => assert_eq!(".r4", id),
        _ => panic!("not a click"),
    }
    match decode_line("clicked.r4") {
        Inbound::Clicked { id } => assert_eq!(".r4", id),
        _ => panic!("not a click"),
    }
    match decode_line("cb1f-.r2-3.5") {
        Inbound::Scale { id, value } => {
            assert_eq!(".r2", id);
            assert_eq!("3.5", value);
        }
        _ => panic!("not a scale"),
    }
    match decode_line("font -family {Noto Serif} -size 12") {
        Inbound::Font { items } => {
            assert_eq!(vec!["-family", "Noto Serif", "-size", "12"], items)
        }
        _ => panic!("not a font"),
    }
}

#[test]
fn exit_stops_the_reader() {
    let (mut wish, _) = fresh();
    assert!(matches!(wish.receive("exit"), Inbound::Exit));
    assert!(!wish.is_running());
    assert!(matches!(wish.receive("cb1b-.r1-1"), Inbound::Ignored));
    assert!(matches!(wish.receive("clicked .r1"), Inbound::Ignored));
    assert!(matches!(wish.receive("exit"), Inbound::Ignored));
    assert!(!wish.is_running());
}

#[test]
fn untagged_line_answers_a_waiting_request() {
    let (mut wish, _) = fresh();
    assert!(matches!(wish.receive("42"), Inbound::Unrecognized { .. }));
    wish.request("winfo x .");
    assert!(matches!(wish.receive("cb1b-.r1-1"), Inbound::Toggle { .. }));
    match wish.receive("  42 \r") {
        Inbound::Reply { text } => assert_eq!("42", text),
        _ => panic!("no reply"),
    }
    assert!(matches!(wish.receive("43"), Inbound::Unrecognized { .. }));
    assert_eq!(vec!["winfo x .".to_string()], wish.take_outgoing());
}

#[test]
fn second_registration_replaces_the_first() {
    let seen = Rc::new(Cell::new(0u32));
    let mut store: Callbacks<Box<dyn Fn()>> = Callbacks::new();
    let a = seen.clone();
    store.register("K", Box::new(move || a.set(a.get() + 1)));
    let b = seen.clone();
    store.register("K", Box::new(move || b.set(b.get() + 100)));
    (store.lookup("K").expect("registered"))();
    assert_eq!(100, seen.get());
    assert!(store.lookup("L").is_none());
}

#[test]
fn dispatch_of_decoded_toggle() {
    let seen = Rc::new(Cell::new(None));
    let mut store: Callbacks<Box<dyn Fn(bool)>> = Callbacks::new();
    let s = seen.clone();
    store.register(".r1", Box::new(move |v| s.set(Some(v))));
    let (mut wish, _) = fresh();
    for (line, expected) in [("cb1b-.r1-1", true), ("cb1b-.r1-0", false)] {
        match wish.receive(line) {
            Inbound::Toggle { id, on } => (store.lookup(&id).expect("bound"))(on),
            _ => panic!("not a toggle"),
        }
        assert_eq!(Some(expected), seen.get());
    }
}

#[test]
fn integers_read_as_std_reads_them() {
    assert_eq!(-12, parse_i32_or("-12", 0));
    assert_eq!(7, parse_i32_or("+7", 0));
    assert_eq!(i32::MIN, parse_i32_or("-2147483648", 0));
    assert_eq!(i32::MAX, parse_i32_or("2147483647", 0));
    assert_eq!(-1, parse_i32_or("2147483648", -1));
    assert_eq!(-1, parse_i32_or("", -1));
    assert_eq!(-1, parse_i32_or("-", -1));
    assert_eq!(-1, parse_i32_or(" 3", -1));
    assert_eq!(-1, parse_i32_or("12a", -1));
    assert_eq!(u32::MAX, parse_u32_or("4294967295", 0));
    assert_eq!(5, parse_u32_or("4294967296", 5));
    assert_eq!(5, parse_u32_or("-0", 5));
    assert_eq!(0, parse_u32_or("+0", 5));
}

#[test]
fn label_commands() {
    let (mut wish, root) = fresh();
    let label = make_label(&mut wish, &root);
    assert_eq!(".r1", label.id);
    label.background(&mut wish, "red");
    label.anchor(&mut wish, Anchor::Centre);
    label.wrap_length(&mut wish, 250);
    label.padding(&mut wish, &[1, 20]);
    label.width(&mut wish, -5);
    label.text(&mut wish, "hello world");
    label.underline(&mut wish, 3);
    assert_eq!(
        vec![
            "ttk::label .r1",
            ".r1 configure -background {red}",
            ".r1 configure -anchor {center}",
            ".r1 configure -wraplength {250}",
            ".r1 configure -padding {1 20 }",
            ".r1 configure -width {-5}",
            ".r1 configure -text {hello world}",
            ".r1 configure -underline {3}",
        ],
        wish.take_outgoing()
    );
}

#[test]
fn widget_queries_wait_for_replies() {
    let (mut wish, root) = fresh();
    let label = make_label(&mut wish, &root);
    wish.take_outgoing();
    label.position_x(&mut wish);
    label.mouse_position(&mut wish);
    label.cget(&mut wish, "text");
    assert_eq!(
        vec!["winfo x .r1", "winfo pointerx .r1", "winfo pointery .r1", ".r1 cget text"],
        wish.take_outgoing()
    );
    for expected in ["17", "300", "-1", "hello"] {
        match wish.receive(expected) {
            Inbound::Reply { text } => assert_eq!(expected, text),
            _ => panic!("no reply"),
        }
    }
    assert!(matches!(wish.receive("more"), Inbound::Unrecognized { .. }));
}

#[test]
fn binding_stores_callback_under_tag_and_pattern() {
    let (mut wish, root) = fresh();
    let mut events: Callbacks<u32> = Callbacks::new();
    root.bind(&mut wish, &mut events, "<Button-1>", 7);
    rstk::widget::bind(&mut wish, &mut events, "<Key>", 9);
    assert_eq!(Some(&7), events.lookup(".<Button-1>"));
    assert_eq!(Some(&9), events.lookup("all<Key>"));
    assert_eq!(
        vec![
            "bind . <Button-1> { puts cb1e:.<Button-1>:%x:%y:%X:%Y:%h:%w:%k:%K:%b ; flush stdout }",
            "bind all <Key> { puts cb1e:all<Key>:%x:%y:%X:%Y:%h:%w:%k:%K:%b ; flush stdout }",
        ],
        wish.take_outgoing()
    );
}

#[test]
fn grid_and_stacking_commands() {
    let (mut wish, root) = fresh();
    root.grid_configure_column(&mut wish, 0, "weight", "1");
    root.grid_configure_row(&mut wish, 12, "minsize", "30");
    root.raise(&mut wish);
    root.configure(&mut wish, "menu", ".m");
    assert_eq!(
        vec![
            "grid columnconfigure . 0 -weight {1}",
            "grid rowconfigure . 12 -minsize {30}",
            "raise .",
            ". configure -menu {.m}",
        ],
        wish.take_outgoing()
    );
}

#[test]
fn paned_window_commands() {
    let (mut wish, root) = fresh();
    let pane = make_horizontal_paned_window(&mut wish, &root);
    let left = make_label(&mut wish, &pane);
    pane.add_weighted(&mut wish, &left, 2);
    pane.insert(&mut wish, 0, &left);
    pane.insert_weighted(&mut wish, 1, &left, 3);
    pane.forget(&mut wish, &left);
    pane.height(&mut wish, 40);
    assert_eq!(
        vec![
            "ttk::panedwindow .r1 -orient horizontal",
            "ttk::label .r1.r2",
            ".r1 add .r1.r2 -weight 2",
            ".r1 insert 0 .r1.r2",
            ".r1 insert 1 .r1.r2 -weight 3",
            ".r1 forget .r1.r2",
            ".r1 configure -height {40}",
        ],
        wish.take_outgoing()
    );
}

#[test]
fn message_box_command_holds_the_settings() {
    let (mut wish, root) = fresh();
    let plain = message_box();
    plain.show(&mut wish);
    let mut full = message_box();
    full.title("T")
        .message("M")
        .detail("D")
        .default("no")
        .icon(IconImage::Question)
        .type_buttons(DialogType::YesNo)
        .parent(&root);
    full.show(&mut wish);
    assert_eq!(
        vec![
            "puts [tk_messageBox -icon error -type ok ] ; flush stdout",
            "puts [tk_messageBox -default {no} -detail {D} -icon question -message {M} -parent . -title {T} -type yesno ] ; flush stdout",
        ],
        wish.take_outgoing()
    );
}

#[test]
fn chooser_commands_and_answers() {
    let (mut wish, _) = fresh();
    let mut colour = colour_chooser();
    colour.initial_color("#ff0000").title("Pick");
    colour.show(&mut wish);
    let mut dir = directory_chooser();
    dir.initial_directory("/tmp").must_exist(true);
    dir.show(&mut wish);
    assert_eq!(
        vec![
            "puts [tk_chooseColor -title {Pick} -initialcolor {#ff0000} ] ; flush stdout",
            "puts [tk_chooseDirectory -initialdir {/tmp} -mustexist 1 ] ; flush stdout",
        ],
        wish.take_outgoing()
    );
    assert_eq!(None, chosen(String::new()));
    assert_eq!(Some("#00ff00".to_string()), chosen("#00ff00".to_string()));
}
