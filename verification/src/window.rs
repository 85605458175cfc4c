//! The one window, which the tray icon shows and hides.
//!
//! The window has two states, visible and hidden. A click on the tray
//! icon toggles between them and, on the way to visible, places the
//! window next to the click. A request to close the window and the loss
//! of focus both hide it; the window is never closed.

use vstd::prelude::*;
use crate::platform::Platform;
use crate::text::str_equal;

verus! {

/// Label under which the host knows the window.
pub const WINDOW_LABEL: &'static str = "main";

/// Width of the window, in physical pixels.
pub const WINDOW_WIDTH: i32 = 302;

/// Height of the window, in physical pixels.
pub const WINDOW_HEIGHT: i32 = 540;

/// Status with which the application exits on request.
pub const EXIT_STATUS: i32 = 0;

/// A point on the screen, in physical pixels.
#[derive(Clone, Copy, Debug, PartialEq, Eq, Structural)]
pub struct Position {
    pub x: i32,
    pub y: i32,
}

/// Left edge of a window centred on a click at `click_x`.
pub open spec fn anchor_x(click_x: int) -> int {
    click_x - WINDOW_WIDTH / 2
}

/// Top edge of a window opened by a click at `click_y`: just below the
/// menu bar where the tray sits at the top of the screen, and a window's
/// height above the click where it sits at the bottom.
pub open spec fn anchor_y(platform: Platform, click_y: int) -> int {
    match platform {
        Platform::MacOs => click_y + 1,
        Platform::Windows | Platform::Linux => click_y - WINDOW_HEIGHT,
    }
}

/// Whether the window placed for `click` still has coordinates on the
/// screen's grid.
pub open spec fn anchors(platform: Platform, click: Position) -> bool {
    &&& i32::MIN <= anchor_x(click.x as int)
    &&& i32::MIN <= anchor_y(platform, click.y as int) <= i32::MAX
}

/// Where the window goes for a click.
pub open spec fn origin_for(platform: Platform, click: Position) -> Position {
    Position {
        x: anchor_x(click.x as int) as i32,
        y: anchor_y(platform, click.y as int) as i32,
    }
}

/// Tests whether a click is one for which the window can be placed.
pub fn can_anchor(platform: Platform, click: Position) -> (fits: bool)
    ensures
        fits == anchors(platform, click),
{
    let x_fits = click.x >= i32::MIN + WINDOW_WIDTH / 2;
    let y_fits = match platform {
        Platform::MacOs => click.y < i32::MAX,
        _ => click.y >= i32::MIN + WINDOW_HEIGHT,
    };
    x_fits && y_fits
}

/// Places the window for a click on the tray icon.
pub fn window_origin(platform: Platform, click: Position) -> (origin: Position)
    requires
        anchors(platform, click),
    ensures
        origin == origin_for(platform, click),
        origin.x == anchor_x(click.x as int),
        origin.y == anchor_y(platform, click.y as int),
{
    let x: i32 = click.x - WINDOW_WIDTH / 2;
    let y: i32 = match platform {
        Platform::MacOs => click.y + 1,
        _ => click.y - WINDOW_HEIGHT,
    };
    Position { x, y }
}

/// A button of the pointer.
#[derive(Clone, Copy, Debug, PartialEq, Eq, Structural)]
pub enum MouseButton {
    Left,
    Right,
    Middle,
}

/// Whether a button went down or came up.
#[derive(Clone, Copy, Debug, PartialEq, Eq, Structural)]
pub enum ButtonState {
    Up,
    Down,
}

/// Something that happened at the tray icon.
#[derive(Clone, Copy, Debug, PartialEq, Eq, Structural)]
pub enum TrayEvent {
    /// A button changed state over the icon, with the pointer at `position`.
    Click { button: MouseButton, state: ButtonState, position: Position },
    /// Anything else: the pointer entered, moved or left, or a double click.
    Other,
}

/// The click position of an event that toggles the window, which is the
/// release of the left button; nothing for any other event.
pub open spec fn toggle_position(event: TrayEvent) -> Option<Position> {
    match event {
        TrayEvent::Click { button: MouseButton::Left, state: ButtonState::Up, position } => {
            Some(position)
        },
        _ => None,
    }
}

/// Tells whether a tray event toggles the window, and where it clicked.
pub fn toggle_click(event: TrayEvent) -> (click: Option<Position>)
    ensures
        click == toggle_position(event),
{
    match event {
        TrayEvent::Click { button: MouseButton::Left, state: ButtonState::Up, position } => {
            Some(position)
        },
        _ => None,
    }
}

/// What the host does to the window.
#[derive(Clone, Copy, Debug, PartialEq, Eq, Structural)]
pub enum WindowAction {
    /// Hide the window.
    Hide,
    /// Move the window to the position, if one is given; then show it and
    /// give it the focus.
    Show(Option<Position>),
}

impl WindowAction {
    /// Whether the window is visible once the action is done.
    pub open spec fn leaves_visible(self) -> bool {
        self is Show
    }
}

/// Whether the window counts as visible, given the host's answer to the
/// question. No answer counts as hidden.
pub open spec fn is_shown(visible: Option<bool>) -> bool {
    visible == Some(true)
}

/// The action of a toggling click on the tray icon.
pub open spec fn click_action(
    platform: Platform,
    visible: Option<bool>,
    click: Position,
) -> WindowAction {
    if is_shown(visible) {
        WindowAction::Hide
    } else {
        WindowAction::Show(Some(origin_for(platform, click)))
    }
}

/// The action of the tray menu's toggle item, which leaves the window
/// where it is.
pub open spec fn menu_toggle_action(visible: Option<bool>) -> WindowAction {
    if is_shown(visible) {
        WindowAction::Hide
    } else {
        WindowAction::Show(None)
    }
}

/// Toggles the window on a click at the tray icon: a visible window is
/// hidden, a hidden one is placed next to the click and shown.
pub fn toggle_at_click(
    platform: Platform,
    visible: Option<bool>,
    click: Position,
) -> (action: WindowAction)
    requires
        !is_shown(visible) ==> anchors(platform, click),
    ensures
        action == click_action(platform, visible, click),
        is_shown(visible) ==> action == WindowAction::Hide,
        !is_shown(visible) ==> (action matches WindowAction::Show(Some(origin))
            && origin.x == anchor_x(click.x as int)
            && origin.y == anchor_y(platform, click.y as int)),
        action.leaves_visible() == !is_shown(visible),
{
    match visible {
        Some(true) => WindowAction::Hide,
        _ => WindowAction::Show(Some(window_origin(platform, click))),
    }
}

/// Toggles the window from the tray menu.
pub fn toggle_from_menu(visible: Option<bool>) -> (action: WindowAction)
    ensures
        action == menu_toggle_action(visible),
        action.leaves_visible() == !is_shown(visible),
{
    match visible {
        Some(true) => WindowAction::Hide,
        _ => WindowAction::Show(None),
    }
}

/// Two clicks in a row bring the window back to the state it was in,
/// wherever they land.
pub proof fn lemma_toggle_twice(
    platform: Platform,
    visible: Option<bool>,
    first: Position,
    second: Position,
)
    ensures
        click_action(platform, visible, first).leaves_visible() != is_shown(visible),
        click_action(
            platform,
            Some(click_action(platform, visible, first).leaves_visible()),
            second,
        ).leaves_visible() == is_shown(visible),
{
}

/// Something that happened to the window.
#[derive(Clone, Copy, Debug, PartialEq, Eq, Structural)]
pub enum WindowEvent {
    /// The user asked to close the window.
    CloseRequested,
    /// The window gained (`true`) or lost (`false`) the focus.
    Focused(bool),
    /// Anything else.
    Other,
}

/// How the host answers a window event.
#[derive(Clone, Copy, Debug, PartialEq, Eq, Structural)]
pub struct WindowReaction {
    /// Refuse the close request, so that the window and the process live on.
    pub prevent_close: bool,
    /// Hide the window.
    pub hide: bool,
}

/// The answer to a window event.
pub open spec fn reaction_to(event: WindowEvent) -> WindowReaction {
    match event {
        WindowEvent::CloseRequested => WindowReaction { prevent_close: true, hide: true },
        WindowEvent::Focused(false) => WindowReaction { prevent_close: false, hide: true },
        _ => WindowReaction { prevent_close: false, hide: false },
    }
}

/// Answers a window event: a close request is refused and hides the
/// window instead, losing the focus hides it, and nothing else matters.
pub fn on_window_event(event: WindowEvent) -> (reaction: WindowReaction)
    ensures
        reaction == reaction_to(event),
        reaction.prevent_close == (event == WindowEvent::CloseRequested),
        reaction.hide == (event == WindowEvent::CloseRequested
            || event == WindowEvent::Focused(false)),
{
    match event {
        WindowEvent::CloseRequested => WindowReaction { prevent_close: true, hide: true },
        WindowEvent::Focused(false) => WindowReaction { prevent_close: false, hide: true },
        _ => WindowReaction { prevent_close: false, hide: false },
    }
}

/// An item of the tray menu.
#[derive(Clone, Copy, Debug, PartialEq, Eq, Structural)]
pub enum MenuCommand {
    /// Show the window, or hide it.
    Toggle,
    /// Leave the application.
    Quit,
}

impl MenuCommand {
    /// The identifier under which the host reports a choice of the item.
    pub open spec fn spec_id(self) -> Seq<char> {
        match self {
            MenuCommand::Toggle => "toggle"@,
            MenuCommand::Quit => "quit"@,
        }
    }

    /// The text of the item.
    pub open spec fn spec_label(self) -> Seq<char> {
        match self {
            MenuCommand::Toggle => "Show/Hide"@,
            MenuCommand::Quit => "Quit"@,
        }
    }

    /// The identifier under which the host reports a choice of the item.
    pub fn id(self) -> (id: &'static str)
        ensures
            id@ == self.spec_id(),
    {
        match self {
            MenuCommand::Toggle => "toggle",
            MenuCommand::Quit => "quit",
        }
    }

    /// The text of the item.
    pub fn label(self) -> (label: &'static str)
        ensures
            label@ == self.spec_label(),
    {
        match self {
            MenuCommand::Toggle => "Show/Hide",
            MenuCommand::Quit => "Quit",
        }
    }
}

/// The items of the tray menu, from the top.
pub open spec fn menu_items() -> Seq<MenuCommand> {
    seq![MenuCommand::Toggle, MenuCommand::Quit]
}

/// Lists the items of the tray menu, from the top.
pub fn tray_menu() -> (items: Vec<MenuCommand>)
    ensures
        items@ == menu_items(),
{
    let mut items: Vec<MenuCommand> = Vec::new();
    items.push(MenuCommand::Toggle);
    items.push(MenuCommand::Quit);
    assert(items@ =~= menu_items());
    items
}

/// The item that an identifier names, if any.
pub open spec fn command_of(id: Seq<char>) -> Option<MenuCommand> {
    if id == MenuCommand::Toggle.spec_id() {
        Some(MenuCommand::Toggle)
    } else if id == MenuCommand::Quit.spec_id() {
        Some(MenuCommand::Quit)
    } else {
        None
    }
}

/// Finds the menu item that the host reports by its identifier. A choice
/// with any other identifier is ignored.
pub fn menu_command(id: &str) -> (command: Option<MenuCommand>)
    ensures
        command == command_of(id@),
{
    if str_equal(id, "toggle") {
        Some(MenuCommand::Toggle)
    } else if str_equal(id, "quit") {
        Some(MenuCommand::Quit)
    } else {
        None
    }
}

/// Every item is found again by its own identifier, and by no other.
pub proof fn lemma_menu_ids(command: MenuCommand, id: Seq<char>)
    ensures
        command_of(command.spec_id()) == Some(command),
        command_of(id) == Some(command) <==> id == command.spec_id(),
{
    reveal_strlit("toggle");
    reveal_strlit("quit");
    assert("toggle"@[0] != "quit"@[0]);
}

} // verus!
