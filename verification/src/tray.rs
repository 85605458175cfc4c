//! What the tray icon presents: one of three bundled icons or a drawn
//! bitmap, a title and a tooltip.

use vstd::prelude::*;
use crate::text::str_equal;

verus! {

/// Identifier under which the host registers the tray icon.
pub const TRAY_ID: &'static str = "main";

/// The icons that ship with the application.
#[derive(Clone, Copy, Debug, PartialEq, Eq, Structural)]
pub enum TrayIcon {
    Idle,
    Active,
    OnHold,
}

/// The icon that stands for a state name: `active` and `onhold` have their
/// own, every other name has the idle icon.
pub open spec fn icon_of(name: Seq<char>) -> TrayIcon {
    if name == "active"@ {
        TrayIcon::Active
    } else if name == "onhold"@ {
        TrayIcon::OnHold
    } else {
        TrayIcon::Idle
    }
}

/// Selects the bundled icon for a state name.
pub fn icon_for_state(state: &str) -> (icon: TrayIcon)
    ensures
        icon == icon_of(state@),
{
    if str_equal(state, "active") {
        TrayIcon::Active
    } else if str_equal(state, "onhold") {
        TrayIcon::OnHold
    } else {
        TrayIcon::Idle
    }
}

/// `active` selects the active icon and `onhold` the on-hold icon; every
/// other name selects the idle icon, and no other name selects one of the
/// first two.
pub proof fn lemma_icon_selection()
    ensures
        icon_of("active"@) == TrayIcon::Active,
        icon_of("onhold"@) == TrayIcon::OnHold,
        forall|name: Seq<char>|
            name != "active"@ && name != "onhold"@ ==> #[trigger] icon_of(name) == TrayIcon::Idle,
        forall|name: Seq<char>| #[trigger]
            icon_of(name) == TrayIcon::Active ==> name == "active"@,
        forall|name: Seq<char>| #[trigger]
            icon_of(name) == TrayIcon::OnHold ==> name == "onhold"@,
{
    reveal_strlit("active");
    reveal_strlit("onhold");
    assert("active"@[0] != "onhold"@[0]);
}

/// A picture drawn by the caller: raw pixels with their dimensions.
#[derive(Debug)]
pub struct Bitmap {
    pub rgba: Vec<u8>,
    pub width: u32,
    pub height: u32,
}

/// Mathematical content of a [`Bitmap`].
pub struct BitmapView {
    pub rgba: Seq<u8>,
    pub width: u32,
    pub height: u32,
}

impl View for Bitmap {
    type V = BitmapView;

    open spec fn view(&self) -> BitmapView {
        BitmapView { rgba: self.rgba@, width: self.width, height: self.height }
    }
}

/// A request of the user interface to change the tray's presentation.
#[derive(Debug)]
pub enum TrayCommand {
    /// Show a drawn bitmap as the icon.
    Bitmap(Bitmap),
    /// Show this text when the pointer rests on the icon.
    Tooltip(String),
    /// Show the bundled icon of the named state.
    IconState(String),
    /// Show this text beside the icon.
    Title(String),
}

/// Mathematical content of a [`TrayCommand`].
pub enum TrayCommandView {
    Bitmap(BitmapView),
    Tooltip(Seq<char>),
    IconState(Seq<char>),
    Title(Seq<char>),
}

impl View for TrayCommand {
    type V = TrayCommandView;

    open spec fn view(&self) -> TrayCommandView {
        match *self {
            TrayCommand::Bitmap(bitmap) => TrayCommandView::Bitmap(bitmap@),
            TrayCommand::Tooltip(text) => TrayCommandView::Tooltip(text@),
            TrayCommand::IconState(name) => TrayCommandView::IconState(name@),
            TrayCommand::Title(text) => TrayCommandView::Title(text@),
        }
    }
}

/// One change that the host applies to the tray icon. The host applies
/// each on a best-effort basis: a change that fails is dropped.
#[derive(Debug)]
pub enum TrayOp {
    SetTitle(String),
    SetTooltip(String),
    SetIcon(TrayIcon),
    SetBitmap(Bitmap),
}

/// Mathematical content of a [`TrayOp`].
pub enum TrayOpView {
    SetTitle(Seq<char>),
    SetTooltip(Seq<char>),
    SetIcon(TrayIcon),
    SetBitmap(BitmapView),
}

impl View for TrayOp {
    type V = TrayOpView;

    open spec fn view(&self) -> TrayOpView {
        match *self {
            TrayOp::SetTitle(text) => TrayOpView::SetTitle(text@),
            TrayOp::SetTooltip(text) => TrayOpView::SetTooltip(text@),
            TrayOp::SetIcon(icon) => TrayOpView::SetIcon(icon),
            TrayOp::SetBitmap(bitmap) => TrayOpView::SetBitmap(bitmap@),
        }
    }
}

/// The contents of a list of changes, in order.
pub open spec fn op_views(ops: Seq<TrayOp>) -> Seq<TrayOpView> {
    ops.map_values(|op: TrayOp| op@)
}

/// The changes that a command stands for, in the order in which they are
/// applied. A bitmap carries its own text, so it first clears the title.
pub open spec fn ops_of(command: TrayCommandView) -> Seq<TrayOpView> {
    match command {
        TrayCommandView::Bitmap(bitmap) => seq![
            TrayOpView::SetTitle(Seq::empty()),
            TrayOpView::SetBitmap(bitmap),
        ],
        TrayCommandView::Tooltip(text) => seq![TrayOpView::SetTooltip(text)],
        TrayCommandView::IconState(name) => seq![TrayOpView::SetIcon(icon_of(name))],
        TrayCommandView::Title(text) => seq![TrayOpView::SetTitle(text)],
    }
}

/// Turns a command into the changes to apply to the tray icon.
pub fn tray_ops(command: TrayCommand) -> (ops: Vec<TrayOp>)
    ensures
        op_views(ops@) == ops_of(command@),
{
    let mut ops: Vec<TrayOp> = Vec::new();
    match command {
        TrayCommand::Bitmap(bitmap) => {
            ops.push(TrayOp::SetTitle(String::new()));
            ops.push(TrayOp::SetBitmap(bitmap));
        },
        TrayCommand::Tooltip(text) => {
            ops.push(TrayOp::SetTooltip(text));
        },
        TrayCommand::IconState(name) => {
            ops.push(TrayOp::SetIcon(icon_for_state(name.as_str())));
        },
        TrayCommand::Title(text) => {
            ops.push(TrayOp::SetTitle(text));
        },
    }
    assert(op_views(ops@) =~= ops_of(command@));
    ops
}

} // verus!
