//! What the frame declares, in order: the menu bar of the top panel, the
//! widgets of the central panel, and the attribution footer.

use vstd::prelude::*;

use crate::frame::{step_action, FrameAction, UiConfig, UiEvent, SLIDER_MAX, SLIDER_MIN};

verus! {

/// A link: its visible text and its destination.
pub struct Link {
    pub text: String,
    pub url: String,
}

/// One widget of the central panel, in the terms the application decides:
/// texts, ranges and spacings. How the host draws it is the host's business.
pub enum Widget {
    /// A heading label.
    Heading(String),
    /// A static label.
    Label(String),
    /// The single-line text input bound to `label`, its glyphs spread by
    /// this extra spacing, in tenths of a unit.
    TextInput { letter_spacing: u32 },
    /// The slider bound to `value`, over this range in tenths.
    Slider { min: u32, max: u32 },
    /// The button that increments `value` by a whole unit.
    Button(String),
    /// A horizontal separator.
    Separator,
    /// A static hyperlink to this application's source.
    Hyperlink(Link),
    /// The bottom-anchored attribution footer of [`footer_fragments`].
    Footer,
}

/// One entry of the menu bar.
#[derive(Clone, Copy, Debug, PartialEq, Eq, Structural)]
pub enum MenuItem {
    /// The "File" menu with its "Quit" action.
    FileQuit,
    /// The theme-preference toggle.
    ThemeToggle,
}

/// One piece of the attribution footer.
pub enum Fragment {
    Text(String),
    Link(Link),
}

/// The menu bar's entries: the quit action is suppressed entirely inside a
/// web embedding, where there is no window to close; the theme toggle is
/// always present.
pub open spec fn spec_menu_items(cfg: UiConfig) -> Seq<MenuItem> {
    if cfg.is_web {
        seq![MenuItem::ThemeToggle]
    } else {
        seq![MenuItem::FileQuit, MenuItem::ThemeToggle]
    }
}

/// The menu bar of the top panel, in order.
pub fn menu_bar_items(cfg: &UiConfig) -> (items: Vec<MenuItem>)
    ensures
        items@ == spec_menu_items(*cfg),
{
    let mut items: Vec<MenuItem> = Vec::new();
    if !cfg.is_web {
        items.push(MenuItem::FileQuit);
    }
    items.push(MenuItem::ThemeToggle);
    proof {
        assert(items@ =~= spec_menu_items(*cfg));
    }
    items
}

/// Inside a web embedding the quit action is absent from the menu and a stray
/// quit event requests nothing; outside one it is present and its click
/// requests the close.
pub proof fn lemma_quit_only_outside_web(cfg: UiConfig)
    ensures
        cfg.is_web ==> !spec_menu_items(cfg).contains(MenuItem::FileQuit),
        !cfg.is_web ==> spec_menu_items(cfg).contains(MenuItem::FileQuit),
        cfg.is_web ==> step_action(cfg, UiEvent::QuitClicked) == FrameAction::Continue,
        !cfg.is_web ==> step_action(cfg, UiEvent::QuitClicked) == FrameAction::RequestClose,
{
    if cfg.is_web {
        assert(forall|i: int|
            0 <= i < spec_menu_items(cfg).len() ==> spec_menu_items(cfg)[i]
                != MenuItem::FileQuit);
    } else {
        assert(spec_menu_items(cfg)[0] == MenuItem::FileQuit);
    }
}

/// The widgets of the central panel, in the order the frame declares them:
/// the heading, the prompt with the text input, the slider over its range,
/// the increment button, a separator, the source link, and the footer.
pub fn central_widgets() -> (w: Vec<Widget>)
    ensures
        w@.len() == 8,
        w@[0] matches Widget::Heading(t) && t@ == "EGUI Tour"@,
        w@[1] matches Widget::Label(t) && t@ == "Write something: "@,
        w@[2] matches Widget::TextInput { letter_spacing } && letter_spacing == 20,
        w@[3] matches Widget::Slider { min, max } && min == SLIDER_MIN && max == SLIDER_MAX,
        w@[4] matches Widget::Button(t) && t@ == "Increment"@,
        w@[5] is Separator,
        w@[6] matches Widget::Hyperlink(l) && l.text@ == "Source code."@ && l.url@
            == "https://github.com/emilk/eframe_template/blob/main/"@,
        w@[7] is Footer,
{
    let mut w: Vec<Widget> = Vec::new();
    w.push(Widget::Heading(String::from_str("EGUI Tour")));
    w.push(Widget::Label(String::from_str("Write something: ")));
    w.push(Widget::TextInput { letter_spacing: 20 });
    w.push(Widget::Slider { min: SLIDER_MIN, max: SLIDER_MAX });
    w.push(Widget::Button(String::from_str("Increment")));
    w.push(Widget::Separator);
    w.push(
        Widget::Hyperlink(
            Link {
                text: String::from_str("Source code."),
                url: String::from_str("https://github.com/emilk/eframe_template/blob/main/"),
            },
        ),
    );
    w.push(Widget::Footer);
    w
}

/// The attribution footer, in order: a thank-you to the two frameworks the
/// host is built on, each named by a link.
pub fn footer_fragments() -> (f: Vec<Fragment>)
    ensures
        f@.len() == 5,
        f@[0] matches Fragment::Text(t) && t@ == "Powered by "@,
        f@[1] matches Fragment::Link(l) && l.text@ == "egui"@ && l.url@
            == "https://github.com/emilk/egui"@,
        f@[2] matches Fragment::Text(t) && t@ == " and "@,
        f@[3] matches Fragment::Link(l) && l.text@ == "eframe"@ && l.url@
            == "https://github.com/emilk/egui/tree/master/crates/eframe"@,
        f@[4] matches Fragment::Text(t) && t@ == "."@,
{
    let mut f: Vec<Fragment> = Vec::new();
    f.push(Fragment::Text(String::from_str("Powered by ")));
    f.push(
        Fragment::Link(
            Link {
                text: String::from_str("egui"),
                url: String::from_str("https://github.com/emilk/egui"),
            },
        ),
    );
    f.push(Fragment::Text(String::from_str(" and ")));
    f.push(
        Fragment::Link(
            Link {
                text: String::from_str("eframe"),
                url: String::from_str("https://github.com/emilk/egui/tree/master/crates/eframe"),
            },
        ),
    );
    f.push(Fragment::Text(String::from_str(".")));
    f
}

} // verus!
