//! The application shell: its logger, greeting, menus, menu commands,
//! update notices and window focus rule.
use vstd::prelude::*;
use vstd::utf8::*;
use crate::outside::utf8_str;
use crate::text::{concat2, concat3, debug_option_text, debug_option_u64, decimal_text, decimal_usize, str_eq};

verus! {

/// The logger of the application: its messages go to the window's
/// `vvlogger` event and to standard output.
pub struct VVLogger;

impl VVLogger {
    /// The window event that carries log messages.
    pub fn event_name() -> (r: &'static str)
        ensures
            r@ == "vvlogger"@,
    {
        "vvlogger"
    }
}

/// The greeting returned to the front end: `Hello, {name}! Thanks for downloading my program!`.
pub fn greeting(name: &str) -> (r: String)
    ensures
        r@ == "Hello, "@ + name@ + "! Thanks for downloading my program!"@,
{
    concat3("Hello, ", name, "! Thanks for downloading my program!")
}

/// The encoder library's version text: its bytes read as UTF-8, or
/// `Unknown Version` when they are not UTF-8.
pub fn vvenc_version_text(raw: &[u8]) -> (r: String)
    ensures
        valid_utf8(raw@) ==> r@ == decode_utf8(raw@),
        !valid_utf8(raw@) ==> r@ == "Unknown Version"@,
{
    match utf8_str(raw) {
        Some(s) => String::from_str(s),
        None => String::from_str("Unknown Version"),
    }
}

/// What is logged about the encoder library: `VVenC version: {version}`.
pub fn vvenc_version_message(version: &str) -> (r: String)
    ensures
        r@ == "VVenC version: "@ + version@,
{
    concat2("VVenC version: ", version)
}

/// A menu item of the application's own: its identifier and its label.
pub struct MenuItemSpec {
    pub id: String,
    pub label: String,
}

impl MenuItemSpec {
    /// An item with the given identifier and label.
    pub fn new(id: &str, label: &str) -> (r: MenuItemSpec)
        ensures
            r.id@ == id@,
            r.label@ == label@,
    {
        MenuItemSpec { id: String::from_str(id), label: String::from_str(label) }
    }
}

/// An entry of a menu.
pub enum MenuEntry {
    /// An item of the application's own.
    Custom(MenuItemSpec),
    /// The system's About item, with the application's name and copyright line.
    About { app_name: String, copyright: String },
    Separator,
    Services,
    Hide,
    HideOthers,
    ShowAll,
    Quit,
}

/// A menu entry as text.
pub enum EntryModel {
    Custom(Seq<char>, Seq<char>),
    About(Seq<char>, Seq<char>),
    Separator,
    Services,
    Hide,
    HideOthers,
    ShowAll,
    Quit,
}

impl View for MenuEntry {
    type V = EntryModel;

    open spec fn view(&self) -> EntryModel {
        match self {
            MenuEntry::Custom(item) => EntryModel::Custom(item.id@, item.label@),
            MenuEntry::About { app_name, copyright } => EntryModel::About(app_name@, copyright@),
            MenuEntry::Separator => EntryModel::Separator,
            MenuEntry::Services => EntryModel::Services,
            MenuEntry::Hide => EntryModel::Hide,
            MenuEntry::HideOthers => EntryModel::HideOthers,
            MenuEntry::ShowAll => EntryModel::ShowAll,
            MenuEntry::Quit => EntryModel::Quit,
        }
    }
}

/// A titled submenu of the menu bar.
pub struct MenuSection {
    pub title: String,
    pub entries: Vec<MenuEntry>,
}

impl View for MenuSection {
    type V = (Seq<char>, Seq<EntryModel>);

    open spec fn view(&self) -> (Seq<char>, Seq<EntryModel>) {
        (self.title@, self.entries@.map_values(|e: MenuEntry| e@))
    }
}

/// The views of a menu bar's submenus.
pub open spec fn sections_view(v: Seq<MenuSection>) -> Seq<(Seq<char>, Seq<EntryModel>)> {
    v.map_values(|s: MenuSection| s@)
}

/// A submenu titled `title` holding the given items, in their order.
pub fn create_submenu(title: &str, items: Vec<MenuItemSpec>) -> (r: MenuSection)
    ensures
        r.title@ == title@,
        r.entries.len() == items.len(),
        forall|i: int|
            0 <= i < items.len() ==> #[trigger] r.entries@[i]@ == EntryModel::Custom(
                items@[i].id@,
                items@[i].label@,
            ),
{
    let mut entries: Vec<MenuEntry> = Vec::new();
    let mut items = items;
    let ghost original = items@;
    let n = items.len();
    let mut rest: Vec<MenuItemSpec> = Vec::new();
    // Take the items from the back, then put them in place in order.
    while items.len() > 0
        invariant
            items.len() + rest.len() == n,
            n == original.len(),
            forall|i: int| 0 <= i < items.len() ==> #[trigger] items@[i] == original[i],
            forall|j: int|
                0 <= j < rest.len() ==> #[trigger] rest@[j] == original[n - 1 - j],
        decreases items.len(),
    {
        let item = items.pop().unwrap();
        rest.push(item);
    }
    while rest.len() > 0
        invariant
            entries.len() + rest.len() == n,
            n == original.len(),
            forall|j: int|
                0 <= j < rest.len() ==> #[trigger] rest@[j] == original[n - 1 - j],
            forall|i: int|
                0 <= i < entries.len() ==> #[trigger] entries@[i]@ == EntryModel::Custom(
                    original[i].id@,
                    original[i].label@,
                ),
        decreases rest.len(),
    {
        let item = rest.pop().unwrap();
        entries.push(MenuEntry::Custom(item));
    }
    MenuSection { title: String::from_str(title), entries }
}

/// The entries of the application menu that macOS shows first.
pub open spec fn mac_app_entries() -> Seq<EntryModel> {
    seq![
        EntryModel::About("VVConvert"@, "Alec Carter 2023"@),
        EntryModel::Separator,
        EntryModel::Services,
        EntryModel::Separator,
        EntryModel::Hide,
        EntryModel::HideOthers,
        EntryModel::ShowAll,
        EntryModel::Separator,
        EntryModel::Quit,
    ]
}

/// The File, Tools and Help submenus, with their items' identifiers and labels.
pub open spec fn custom_sections() -> Seq<(Seq<char>, Seq<EntryModel>)> {
    seq![
        ("File"@, seq![
            EntryModel::Custom("new"@, "New"@),
            EntryModel::Custom("open"@, "Open"@),
            EntryModel::Custom("exit"@, "Exit"@),
        ]),
        ("Tools"@, seq![
            EntryModel::Custom("check_ffmpeg"@, "Check FFmpeg"@),
            EntryModel::Custom("check_vvc"@, "Check VVC"@),
        ]),
        ("Help"@, seq![
            EntryModel::Custom("about"@, "About"@),
            EntryModel::Custom("website"@, "Official Website"@),
            EntryModel::Custom("check_updates"@, "Check for Updates"@),
        ]),
    ]
}

/// The menu bar: on macOS the VVConvert application menu first, then File, Tools and Help.
pub open spec fn main_menu_spec(macos: bool) -> Seq<(Seq<char>, Seq<EntryModel>)> {
    if macos {
        seq![("VVConvert"@, mac_app_entries())] + custom_sections()
    } else {
        custom_sections()
    }
}

fn mac_app_menu() -> (r: MenuSection)
    ensures
        r@ == ("VVConvert"@, mac_app_entries()),
{
    let mut entries: Vec<MenuEntry> = Vec::new();
    entries.push(
        MenuEntry::About {
            app_name: String::from_str("VVConvert"),
            copyright: String::from_str("Alec Carter 2023"),
        },
    );
    entries.push(MenuEntry::Separator);
    entries.push(MenuEntry::Services);
    entries.push(MenuEntry::Separator);
    entries.push(MenuEntry::Hide);
    entries.push(MenuEntry::HideOthers);
    entries.push(MenuEntry::ShowAll);
    entries.push(MenuEntry::Separator);
    entries.push(MenuEntry::Quit);
    let r = MenuSection { title: String::from_str("VVConvert"), entries };
    assert(r@.1 =~= mac_app_entries());
    r
}

/// The menu bar of the main window.
pub fn create_main_menu(macos: bool) -> (r: Vec<MenuSection>)
    ensures
        sections_view(r@) == main_menu_spec(macos),
{
    let mut r: Vec<MenuSection> = Vec::new();
    if macos {
        r.push(mac_app_menu());
    }
    let mut file_items: Vec<MenuItemSpec> = Vec::new();
    file_items.push(MenuItemSpec::new("new", "New"));
    file_items.push(MenuItemSpec::new("open", "Open"));
    file_items.push(MenuItemSpec::new("exit", "Exit"));
    let file = create_submenu("File", file_items);
    assert(file@.1 =~= custom_sections()[0].1);
    r.push(file);
    let mut tool_items: Vec<MenuItemSpec> = Vec::new();
    tool_items.push(MenuItemSpec::new("check_ffmpeg", "Check FFmpeg"));
    tool_items.push(MenuItemSpec::new("check_vvc", "Check VVC"));
    let tools = create_submenu("Tools", tool_items);
    assert(tools@.1 =~= custom_sections()[1].1);
    r.push(tools);
    let mut help_items: Vec<MenuItemSpec> = Vec::new();
    help_items.push(MenuItemSpec::new("about", "About"));
    help_items.push(MenuItemSpec::new("website", "Official Website"));
    help_items.push(MenuItemSpec::new("check_updates", "Check for Updates"));
    let help = create_submenu("Help", help_items);
    assert(help@.1 =~= custom_sections()[2].1);
    r.push(help);
    assert(sections_view(r@) =~= main_menu_spec(macos));
    r
}

/// What a click on a menu item asks for.
#[derive(Clone, Copy, Debug, PartialEq, Eq, Structural)]
pub enum MenuCommand {
    /// Open another main window.
    NewWindow,
    /// Ask the front end for a file.
    OpenFile,
    /// Open the project's website.
    OpenWebsite,
    /// Show the FFmpeg resolver.
    CheckFfmpeg,
    /// Report the encoder library's version.
    CheckVvc,
    /// Open the About window.
    ShowAbout,
    /// Look for an update.
    CheckUpdates,
    /// Quit the application.
    Exit,
    /// Nothing.
    Ignore,
}

/// The command of a menu item identifier.
pub open spec fn menu_command_spec(id: Seq<char>) -> MenuCommand {
    if id == "new"@ {
        MenuCommand::NewWindow
    } else if id == "open"@ {
        MenuCommand::OpenFile
    } else if id == "website"@ {
        MenuCommand::OpenWebsite
    } else if id == "check_ffmpeg"@ {
        MenuCommand::CheckFfmpeg
    } else if id == "check_vvc"@ {
        MenuCommand::CheckVvc
    } else if id == "about"@ {
        MenuCommand::ShowAbout
    } else if id == "check_updates"@ {
        MenuCommand::CheckUpdates
    } else if id == "exit"@ {
        MenuCommand::Exit
    } else {
        MenuCommand::Ignore
    }
}

/// The command of a clicked menu item.
pub fn menu_command(id: &str) -> (r: MenuCommand)
    ensures
        r == menu_command_spec(id@),
{
    if str_eq(id, "new") {
        MenuCommand::NewWindow
    } else if str_eq(id, "open") {
        MenuCommand::OpenFile
    } else if str_eq(id, "website") {
        MenuCommand::OpenWebsite
    } else if str_eq(id, "check_ffmpeg") {
        MenuCommand::CheckFfmpeg
    } else if str_eq(id, "check_vvc") {
        MenuCommand::CheckVvc
    } else if str_eq(id, "about") {
        MenuCommand::ShowAbout
    } else if str_eq(id, "check_updates") {
        MenuCommand::CheckUpdates
    } else if str_eq(id, "exit") {
        MenuCommand::Exit
    } else {
        MenuCommand::Ignore
    }
}

/// Every item of the menu bar does something when clicked.
pub proof fn lemma_menu_items_have_commands(macos: bool, s: int, e: int)
    requires
        0 <= s < main_menu_spec(macos).len(),
        0 <= e < main_menu_spec(macos)[s].1.len(),
    ensures
        main_menu_spec(macos)[s].1[e] matches EntryModel::Custom(id, _) ==> menu_command_spec(id)
            != MenuCommand::Ignore,
{
    reveal_strlit("new");
    reveal_strlit("open");
    reveal_strlit("website");
    reveal_strlit("check_ffmpeg");
    reveal_strlit("check_vvc");
    reveal_strlit("about");
    reveal_strlit("check_updates");
    reveal_strlit("exit");
    let c = custom_sections();
    let k = if macos { s - 1 } else { s };
    if macos && s == 0 {
    } else {
        assert(main_menu_spec(macos)[s] == c[k]);
    }
}

/// The label that names what a command does.
pub open spec fn command_label(c: MenuCommand) -> Seq<char> {
    match c {
        MenuCommand::NewWindow => "New"@,
        MenuCommand::OpenFile => "Open"@,
        MenuCommand::OpenWebsite => "Official Website"@,
        MenuCommand::CheckFfmpeg => "Check FFmpeg"@,
        MenuCommand::CheckVvc => "Check VVC"@,
        MenuCommand::ShowAbout => "About"@,
        MenuCommand::CheckUpdates => "Check for Updates"@,
        MenuCommand::Exit => "Exit"@,
        MenuCommand::Ignore => Seq::empty(),
    }
}

/// Every item of the menu bar is labelled with what clicking it does: the
/// command its identifier triggers is the one its label names.
pub proof fn lemma_menu_labels_name_commands(macos: bool, s: int, e: int)
    requires
        0 <= s < main_menu_spec(macos).len(),
        0 <= e < main_menu_spec(macos)[s].1.len(),
    ensures
        main_menu_spec(macos)[s].1[e] matches EntryModel::Custom(id, label) ==> (menu_command_spec(id)
            != MenuCommand::Ignore && command_label(menu_command_spec(id)) == label),
{
    reveal_strlit("new");
    reveal_strlit("open");
    reveal_strlit("website");
    reveal_strlit("check_ffmpeg");
    reveal_strlit("check_vvc");
    reveal_strlit("about");
    reveal_strlit("check_updates");
    reveal_strlit("exit");
    assert("new"@.len() == 3);
    assert("open"@.len() == 4 && "open"@[0] == 'o');
    assert("exit"@.len() == 4 && "exit"@[0] == 'e');
    assert("website"@.len() == 7);
    assert("check_ffmpeg"@.len() == 12);
    assert("check_vvc"@.len() == 9);
    assert("about"@.len() == 5);
    assert("check_updates"@.len() == 13);
    let c = custom_sections();
    let k = if macos { s - 1 } else { s };
    if macos && s == 0 {
    } else {
        assert(main_menu_spec(macos)[s] == c[k]);
    }
}

/// The update notices of the updater, as plain values. `date` is the
/// debug text of the release date when there is one; `Error` carries the
/// error's text.
pub enum UpdaterNotice {
    UpdateAvailable { body: String, date: Option<String>, version: String },
    Pending,
    DownloadProgress { chunk_length: usize, content_length: Option<u64> },
    Downloaded,
    Updated,
    AlreadyUpToDate,
    Error(String),
    /// Any other notice.
    Other,
}

/// What `{:?}` prints for an optional value whose own debug text is given.
pub open spec fn debug_option_of(v: Option<Seq<char>>) -> Seq<char> {
    match v {
        Some(t) => "Some("@ + t + ")"@,
        None => "None"@,
    }
}

/// The line logged for an update notice, if any.
pub open spec fn updater_message_spec(n: UpdaterNotice) -> Option<Seq<char>> {
    match n {
        UpdaterNotice::UpdateAvailable { body, date, version } => Some(
            "Update available "@ + body@ + " "@ + debug_option_of(
                match date {
                    Some(d) => Some(d@),
                    None => None,
                },
            ) + " "@ + version@,
        ),
        UpdaterNotice::Pending => Some("Update is pending!"@),
        UpdaterNotice::DownloadProgress { chunk_length, content_length } => Some(
            "Downloaded "@ + decimal_text(chunk_length as nat) + " of "@ + debug_option_text(
                match content_length {
                    Some(c) => Some(c as nat),
                    None => None,
                },
            ),
        ),
        UpdaterNotice::Downloaded => Some("Update has been downloaded!"@),
        UpdaterNotice::Updated => Some("VVConvert has been updated"@),
        UpdaterNotice::AlreadyUpToDate => Some("Up to date!"@),
        UpdaterNotice::Error(e) => Some("Failed to update: "@ + e@),
        UpdaterNotice::Other => None,
    }
}

/// The line to log for an update notice; other notices are not logged.
pub fn handle_updater_event(notice: UpdaterNotice) -> (r: Option<String>)
    ensures
        match r {
            Some(m) => updater_message_spec(notice) == Some(m@),
            None => updater_message_spec(notice) is None,
        },
{
    match notice {
        UpdaterNotice::UpdateAvailable { body, date, version } => {
            let mut m = String::from_str("Update available ");
            m.append(body.as_str());
            m.append(" ");
            match date {
                Some(d) => {
                    m.append("Some(");
                    m.append(d.as_str());
                    m.append(")");
                },
                None => {
                    m.append("None");
                },
            }
            m.append(" ");
            m.append(version.as_str());
            Some(m)
        },
        UpdaterNotice::Pending => Some(String::from_str("Update is pending!")),
        UpdaterNotice::DownloadProgress { chunk_length, content_length } => {
            let mut m = String::from_str("Downloaded ");
            let c = decimal_usize(chunk_length);
            m.append(c.as_str());
            m.append(" of ");
            let t = debug_option_u64(content_length);
            m.append(t.as_str());
            Some(m)
        },
        UpdaterNotice::Downloaded => Some(String::from_str("Update has been downloaded!")),
        UpdaterNotice::Updated => Some(String::from_str("VVConvert has been updated")),
        UpdaterNotice::AlreadyUpToDate => Some(String::from_str("Up to date!")),
        UpdaterNotice::Error(e) => Some(concat2("Failed to update: ", e.as_str())),
        UpdaterNotice::Other => None,
    }
}

/// Whether focusing the main window hands the focus on to the open FFmpeg resolver window.
pub fn refocus_ffmpeg_window(focused: bool, resolver_open: bool) -> (r: bool)
    ensures
        r == (focused && resolver_open),
{
    focused && resolver_open
}

} // verus!
