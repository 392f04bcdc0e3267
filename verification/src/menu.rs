//! Menu navigation: buttons, per-screen cursor state and the screen carousel.
//!
//! A screen shows a list of items.  Up/down move the cursor, skipping
//! separators; Fire activates the item under the cursor: an action is
//! reported to the caller, a submenu is entered (cursor on its first item),
//! Back returns to the root list.  Left/right switch between screens.
use vstd::prelude::*;
use crate::text::string_push;

verus! {

/// A physical button (joystick directions, joystick press, and the two
/// side buttons).
#[derive(Clone, Copy, PartialEq, Eq, Structural, Debug)]
pub enum ButtonId {
    Up,
    Down,
    Left,
    Right,
    Fire,
    Execute,
    Cancel,
}

/// What an action item does when fired.
#[derive(Clone, Copy, PartialEq, Eq, Structural, Debug)]
pub enum MenuAction {
    /// Nothing (placeholder entries).
    Nothing,
    /// Play melody `n` on the buzzer.
    Melody(u8),
    /// Toggle the boosted LoRa RX gain.
    BoostRx,
    /// Reset the mesh channels.
    ResetChannels,
    /// Reset the mesh contacts.
    ResetContacts,
}

/// How an item's label is obtained.
#[derive(Clone, Copy, Debug)]
pub enum MenuLabel {
    /// A fixed text.
    Text(&'static str),
    /// "Boost RX: ON" / "Boost RX: OFF", following the RX gain setting.
    BoostRx,
}

/// The kind of a menu item.
#[derive(Clone, Copy, Debug)]
pub enum MenuItemKind {
    Action(MenuAction),
    Submenu(&'static [MenuItem]),
    Back,
    /// Visual divider — not selectable; navigation skips over it.
    Separator,
}

/// One menu entry.
#[derive(Clone, Copy, Debug)]
pub struct MenuItem {
    pub label: MenuLabel,
    pub kind: MenuItemKind,
}

/// The item is a separator.
pub open spec fn is_separator(item: MenuItem) -> bool {
    item.kind is Separator
}

/// `q` is the nearest selectable item above `p`.
pub open spec fn spec_up_stop(items: Seq<MenuItem>, p: int, q: int) -> bool {
    &&& 0 <= q < p
    &&& !is_separator(items[q])
    &&& forall|k: int| q < k < p ==> is_separator(#[trigger] items[k])
}

/// `q` is the nearest selectable item below `p`.
pub open spec fn spec_down_stop(items: Seq<MenuItem>, p: int, q: int) -> bool {
    &&& p < q < items.len()
    &&& !is_separator(items[q])
    &&& forall|k: int| p < k < q ==> is_separator(#[trigger] items[k])
}

/// Some item above `p` is selectable.
pub open spec fn spec_can_go_up(items: Seq<MenuItem>, p: int) -> bool {
    exists|j: int| 0 <= j < p && !is_separator(#[trigger] items[j])
}

/// Some item below `p` is selectable.
pub open spec fn spec_can_go_down(items: Seq<MenuItem>, p: int) -> bool {
    exists|j: int| p < j < items.len() && !is_separator(#[trigger] items[j])
}

/// The text of a label, given the RX gain setting.
pub open spec fn spec_label_text(label: MenuLabel, boost_rx: bool) -> &'static str {
    match label {
        MenuLabel::Text(t) => t,
        MenuLabel::BoostRx => if boost_rx {
            "Boost RX: ON"
        } else {
            "Boost RX: OFF"
        },
    }
}

/// Label of the Boost RX setting item.
pub fn label_boost_rx(on: bool) -> (t: &'static str)
    ensures
        t == spec_label_text(MenuLabel::BoostRx, on),
{
    if on {
        "Boost RX: ON"
    } else {
        "Boost RX: OFF"
    }
}

/// The text of a label, given the RX gain setting.
pub fn label_text(label: MenuLabel, boost_rx: bool) -> (t: &'static str)
    ensures
        t == spec_label_text(label, boost_rx),
{
    match label {
        MenuLabel::Text(t) => t,
        MenuLabel::BoostRx => label_boost_rx(boost_rx),
    }
}

/// Cursor position and optional active submenu for one screen.
#[derive(Clone, Copy, Debug)]
pub struct ScreenState {
    root_items: &'static [MenuItem],
    root_pos: u8,
    /// `Some` while inside a submenu; `None` at the root level.
    sub_items: Option<&'static [MenuItem]>,
    sub_pos: u8,
}

impl ScreenState {
    /// The screen's root item list.
    pub closed spec fn root(&self) -> &'static [MenuItem] {
        self.root_items
    }

    /// The cursor in the root list.
    pub closed spec fn root_cursor(&self) -> u8 {
        self.root_pos
    }

    /// The open submenu, if any.
    pub closed spec fn submenu(&self) -> Option<&'static [MenuItem]> {
        self.sub_items
    }

    /// The cursor in the submenu.
    pub closed spec fn sub_cursor(&self) -> u8 {
        self.sub_pos
    }

    /// The list shown now: the open submenu, else the root list.
    pub open spec fn items(&self) -> Seq<MenuItem> {
        match self.submenu() {
            Some(items) => items@,
            None => self.root()@,
        }
    }

    /// The cursor in the list shown now.
    pub open spec fn pos(&self) -> int {
        match self.submenu() {
            Some(_) => self.sub_cursor() as int,
            None => self.root_cursor() as int,
        }
    }

    /// `new` is `self` with the cursor of the list shown now moved to `q`.
    pub open spec fn with_pos(&self, new: ScreenState, q: int) -> bool {
        &&& new.root() == self.root()
        &&& new.submenu() == self.submenu()
        &&& match self.submenu() {
            Some(_) => new.sub_cursor() == q && new.root_cursor() == self.root_cursor(),
            None => new.root_cursor() == q && new.sub_cursor() == self.sub_cursor(),
        }
    }

    /// `new` is `self` after an Up press.
    pub open spec fn spec_menu_up(&self, new: ScreenState) -> bool {
        if spec_can_go_up(self.items(), self.pos()) {
            exists|q: int| spec_up_stop(self.items(), self.pos(), q) && self.with_pos(new, q)
        } else {
            new == *self
        }
    }

    /// `new` is `self` after a Down press.
    pub open spec fn spec_menu_down(&self, new: ScreenState) -> bool {
        if spec_can_go_down(self.items(), self.pos()) {
            exists|q: int| spec_down_stop(self.items(), self.pos(), q) && self.with_pos(new, q)
        } else {
            new == *self
        }
    }

    /// `new` is `self` after a Fire press, reporting `action`.
    pub open spec fn spec_fire(&self, new: ScreenState, action: Option<MenuAction>) -> bool {
        match self.items()[self.pos()].kind {
            MenuItemKind::Action(a) => action == Some(a) && new == *self,
            MenuItemKind::Submenu(items) => {
                &&& action is None
                &&& new.submenu() == Some(items)
                &&& new.sub_cursor() == 0
                &&& new.root() == self.root()
                &&& new.root_cursor() == self.root_cursor()
            },
            MenuItemKind::Back => {
                &&& action is None
                &&& new.submenu() is None
                &&& new.root() == self.root()
                &&& new.root_cursor() == self.root_cursor()
                &&& new.sub_cursor() == self.sub_cursor()
            },
            MenuItemKind::Separator => action is None && new == *self,
        }
    }

    /// The cursor of the list shown now sits on an item.
    pub open spec fn wf(&self) -> bool {
        0 <= self.pos() < self.items().len()
    }

    /// A screen at the root of `items`, cursor on the first item.
    pub fn new(items: &'static [MenuItem]) -> (s: ScreenState)
        ensures
            s.root() == items,
            s.root_cursor() == 0,
            s.submenu() is None,
            s.sub_cursor() == 0,
    {
        ScreenState { root_items: items, root_pos: 0, sub_items: None, sub_pos: 0 }
    }

    /// The list shown now.
    pub fn current_items(&self) -> (items: &'static [MenuItem])
        ensures
            items@ == self.items(),
    {
        match self.sub_items {
            Some(items) => items,
            None => self.root_items,
        }
    }

    /// The cursor in the list shown now.
    pub fn current_pos(&self) -> (p: usize)
        ensures
            p == self.pos(),
    {
        if self.sub_items.is_some() {
            self.sub_pos as usize
        } else {
            self.root_pos as usize
        }
    }

    /// Set the cursor of the list shown now.
    fn set_current_pos(&mut self, q: u8)
        ensures
            old(self).with_pos(*final(self), q as int),
    {
        if self.sub_items.is_some() {
            self.sub_pos = q;
        } else {
            self.root_pos = q;
        }
    }

    /// Move the cursor to the nearest selectable item above; stay if none.
    pub fn menu_up(&mut self)
        requires
            old(self).pos() <= old(self).items().len(),
        ensures
            old(self).spec_menu_up(*final(self)),
    {
        let items = self.current_items();
        let pos = self.current_pos();
        if pos == 0 {
            return;
        }
        let mut prev = pos - 1;
        while prev > 0 && matches!(items[prev].kind, MenuItemKind::Separator)
            invariant
                prev < pos,
                pos <= items@.len(),
                items@ == old(self).items(),
                pos == old(self).pos(),
                *self == *old(self),
                forall|k: int| prev < k < pos ==> is_separator(#[trigger] items@[k]),
            decreases prev,
        {
            prev -= 1;
        }
        if !matches!(items[prev].kind, MenuItemKind::Separator) {
            self.set_current_pos(prev as u8);
            assert(spec_up_stop(items@, pos as int, prev as int));
        } else {
            assert(!spec_can_go_up(items@, pos as int));
        }
    }

    /// Move the cursor to the nearest selectable item below; stay if none.
    pub fn menu_down(&mut self)
        requires
            old(self).items().len() < 256,
        ensures
            old(self).spec_menu_down(*final(self)),
    {
        let items = self.current_items();
        let len = items.len();
        let pos = self.current_pos();
        let mut next = pos + 1;
        while next < len && matches!(items[next].kind, MenuItemKind::Separator)
            invariant
                pos < next <= len || (next == pos + 1 && len <= pos),
                len == items@.len(),
                len < 256,
                pos < 256,
                items@ == old(self).items(),
                pos == old(self).pos(),
                *self == *old(self),
                forall|k: int| pos < k < next ==> is_separator(#[trigger] items@[k]),
            decreases len - next,
        {
            next += 1;
        }
        if next < len {
            self.set_current_pos(next as u8);
            assert(spec_down_stop(items@, pos as int, next as int));
        } else {
            assert(!spec_can_go_down(items@, pos as int));
        }
    }

    /// The item under the cursor.
    pub fn current_item(&self) -> (item: MenuItem)
        requires
            self.wf(),
        ensures
            item == self.items()[self.pos()],
    {
        let items = self.current_items();
        items[self.current_pos()]
    }

    /// Activate the currently selected item: an action is returned for the
    /// caller to run; a submenu is entered with the cursor reset to 0;
    /// Back pops back to the root menu; a separator does nothing.
    pub fn fire(&mut self) -> (action: Option<MenuAction>)
        requires
            old(self).wf(),
        ensures
            old(self).spec_fire(*final(self), action),
    {
        match self.current_item().kind {
            MenuItemKind::Action(a) => Some(a),
            MenuItemKind::Submenu(items) => {
                self.sub_items = Some(items);
                self.sub_pos = 0;
                None
            },
            MenuItemKind::Back => {
                self.sub_items = None;
                None
            },
            MenuItemKind::Separator => None,
        }
    }

    /// The label of item `index` of the list shown now, if it exists.
    pub fn get_label(&self, index: usize, boost_rx: bool) -> (t: Option<&'static str>)
        ensures
            index < self.items().len() ==> t == Some(
                spec_label_text(self.items()[index as int].label, boost_rx),
            ),
            index >= self.items().len() ==> t is None,
    {
        let items = self.current_items();
        if index < items.len() {
            Some(label_text(items[index].label, boost_rx))
        } else {
            None
        }
    }

    /// The label of the item under the cursor.
    pub fn get_current_label(&self, boost_rx: bool) -> (t: Option<&'static str>)
        requires
            self.wf(),
        ensures
            t == Some(spec_label_text(self.items()[self.pos()].label, boost_rx)),
    {
        Some(label_text(self.current_item().label, boost_rx))
    }
}

/// Moving up and down keeps the cursor on a selectable item of the list
/// shown now, and inside the list.
pub proof fn lemma_cursor_stays_selectable(s: ScreenState, up: ScreenState, down: ScreenState)
    requires
        s.wf(),
        !is_separator(s.items()[s.pos()]),
        s.spec_menu_up(up),
        s.spec_menu_down(down),
    ensures
        up.wf(),
        !is_separator(up.items()[up.pos()]),
        down.wf(),
        !is_separator(down.items()[down.pos()]),
{
}

/// Down then Up returns to the starting item (when Down moved), and Up then
/// Down likewise: the two moves are inverse across separators.
pub proof fn lemma_down_up_inverse(s: ScreenState, d: ScreenState, u: ScreenState)
    requires
        s.wf(),
        !is_separator(s.items()[s.pos()]),
        spec_can_go_down(s.items(), s.pos()),
        s.spec_menu_down(d),
        d.spec_menu_up(u),
    ensures
        u.items() == s.items(),
        u.pos() == s.pos(),
{
    let q = choose|q: int| spec_down_stop(s.items(), s.pos(), q) && s.with_pos(d, q);
    assert(spec_can_go_up(d.items(), d.pos())) by {
        assert(!is_separator(d.items()[s.pos()]));
    }
    let r = choose|r: int| spec_up_stop(d.items(), d.pos(), r) && d.with_pos(u, r);
    if r < s.pos() {
        assert(!is_separator(d.items()[s.pos()]));
    } else if r > s.pos() {
        assert(is_separator(s.items()[r]));
    }
}

/// Entering a submenu from the root list and firing Back there returns to
/// the root list with the cursor where it was left.
pub proof fn lemma_submenu_back_restores_root(
    s: ScreenState,
    inside: ScreenState,
    back: ScreenState,
    a1: Option<MenuAction>,
    a2: Option<MenuAction>,
)
    requires
        s.wf(),
        s.submenu() is None,
        s.items()[s.pos()].kind is Submenu,
        s.spec_fire(inside, a1),
        inside.wf(),
        inside.items()[inside.pos()].kind is Back,
        inside.spec_fire(back, a2),
    ensures
        a1 is None && a2 is None,
        back.submenu() is None,
        back.items() == s.items(),
        back.pos() == s.pos(),
{
}

/// Up then Down returns to the starting item (when Up moved).
pub proof fn lemma_up_down_inverse(s: ScreenState, u: ScreenState, d: ScreenState)
    requires
        s.wf(),
        !is_separator(s.items()[s.pos()]),
        spec_can_go_up(s.items(), s.pos()),
        s.spec_menu_up(u),
        u.spec_menu_down(d),
    ensures
        d.items() == s.items(),
        d.pos() == s.pos(),
{
    let q = choose|q: int| spec_up_stop(s.items(), s.pos(), q) && s.with_pos(u, q);
    assert(spec_can_go_down(u.items(), u.pos())) by {
        assert(!is_separator(u.items()[s.pos()]));
    }
    let r = choose|r: int| spec_down_stop(u.items(), u.pos(), r) && u.with_pos(d, r);
    if r > s.pos() {
        assert(!is_separator(u.items()[s.pos()]));
    } else if r < s.pos() {
        assert(is_separator(s.items()[r]));
    }
}

/// `M` screens, each with their own item list and cursor.
/// Left/right switches screens; up/down moves within the current screen.
pub struct DisplayState<const M: usize> {
    active_screen: u8,
    screens: [ScreenState; M],
}

impl<const M: usize> DisplayState<M> {
    /// The index of the screen shown.
    pub closed spec fn active(&self) -> int {
        self.active_screen as int
    }

    /// The screens.
    pub closed spec fn screens_view(&self) -> Seq<ScreenState> {
        self.screens@
    }

    /// The active screen is one of the screens.
    pub open spec fn wf(&self) -> bool {
        0 <= self.active() < M && M <= 256
    }

    /// `new` differs from `self` only in the active screen, which became `s`.
    pub open spec fn with_current(&self, new: &Self, s: ScreenState) -> bool {
        &&& new.active() == self.active()
        &&& new.screens_view() == self.screens_view().update(self.active(), s)
    }

    /// The carousel on the first screen.
    pub fn new(screens: [ScreenState; M]) -> (d: Self)
        requires
            0 < M <= 256,
        ensures
            d.active() == 0,
            d.screens_view() == screens@,
            d.wf(),
    {
        DisplayState { active_screen: 0, screens }
    }

    /// Switch one screen to the left (stays on the first).
    pub fn screen_left(&mut self)
        requires
            old(self).wf(),
        ensures
            final(self).wf(),
            final(self).active() == if old(self).active() > 0 {
                old(self).active() - 1
            } else {
                0
            },
            final(self).screens_view() == old(self).screens_view(),
    {
        if self.active_screen > 0 {
            self.active_screen -= 1;
        }
    }

    /// Switch one screen to the right (stays on the last).
    pub fn screen_right(&mut self)
        requires
            old(self).wf(),
        ensures
            final(self).wf(),
            final(self).active() == if old(self).active() + 1 < M {
                old(self).active() + 1
            } else {
                old(self).active()
            },
            final(self).screens_view() == old(self).screens_view(),
    {
        if (self.active_screen as usize) + 1 < M {
            self.active_screen += 1;
        }
    }

    /// The index of the screen shown.
    pub fn active_screen(&self) -> (a: u8)
        ensures
            a == self.active(),
    {
        self.active_screen
    }

    /// The screen shown.
    pub fn current_screen(&self) -> (s: &ScreenState)
        requires
            self.wf(),
        ensures
            *s == self.screens_view()[self.active()],
    {
        &self.screens[self.active_screen as usize]
    }

    /// Up on the screen shown.
    pub fn menu_up(&mut self)
        requires
            old(self).wf(),
            old(self).screens_view()[old(self).active()].pos() <= old(self).screens_view()[old(
                self,
            ).active()].items().len(),
        ensures
            final(self).wf(),
            exists|s: ScreenState|
                old(self).screens_view()[old(self).active()].spec_menu_up(s) && old(
                    self,
                ).with_current(final(self), s),
    {
        let i = self.active_screen as usize;
        let mut s = self.screens[i];
        s.menu_up();
        self.screens[i] = s;
        assert(self.screens@ =~= old(self).screens@.update(i as int, s));
        assert(old(self).with_current(&*self, s));
    }

    /// Down on the screen shown.
    pub fn menu_down(&mut self)
        requires
            old(self).wf(),
            old(self).screens_view()[old(self).active()].items().len() < 256,
        ensures
            final(self).wf(),
            exists|s: ScreenState|
                old(self).screens_view()[old(self).active()].spec_menu_down(s) && old(
                    self,
                ).with_current(final(self), s),
    {
        let i = self.active_screen as usize;
        let mut s = self.screens[i];
        s.menu_down();
        self.screens[i] = s;
        assert(self.screens@ =~= old(self).screens@.update(i as int, s));
        assert(old(self).with_current(&*self, s));
    }

    /// Fire on the screen shown; returns the action to run, if any.
    pub fn fire(&mut self) -> (action: Option<MenuAction>)
        requires
            old(self).wf(),
            old(self).screens_view()[old(self).active()].wf(),
        ensures
            final(self).wf(),
            exists|s: ScreenState|
                old(self).screens_view()[old(self).active()].spec_fire(s, action) && old(
                    self,
                ).with_current(final(self), s),
    {
        let i = self.active_screen as usize;
        let mut s = self.screens[i];
        let a = s.fire();
        self.screens[i] = s;
        assert(self.screens@ =~= old(self).screens@.update(i as int, s));
        assert(old(self).with_current(&*self, s));
        a
    }

    /// The label under the cursor of the screen shown.
    pub fn get_current_menu_item(&self, boost_rx: bool) -> (t: Option<&'static str>)
        requires
            self.wf(),
            self.screens_view()[self.active()].wf(),
        ensures
            t == Some(
                spec_label_text(
                    self.screens_view()[self.active()].items()[self.screens_view()[self.active()].pos()].label,
                    boost_rx,
                ),
            ),
    {
        self.current_screen().get_current_label(boost_rx)
    }

    /// The label of item `index` of the screen shown, if it exists.
    pub fn get_menu_item(&self, index: usize, boost_rx: bool) -> (t: Option<&'static str>)
        requires
            self.wf(),
        ensures
            index < self.screens_view()[self.active()].items().len() ==> t == Some(
                spec_label_text(self.screens_view()[self.active()].items()[index as int].label, boost_rx),
            ),
            index >= self.screens_view()[self.active()].items().len() ==> t is None,
    {
        self.current_screen().get_label(index, boost_rx)
    }
}

/// Capacity of a rendered menu label, in bytes.
pub const LABEL_CAP: usize = 24;

/// What one of the three visible menu rows shows.
#[derive(Clone, Debug)]
pub enum RowContent {
    /// No item at this position.
    Empty,
    /// A separator: a thin horizontal rule.
    Rule,
    /// An item's label (submenus marked with " >").
    Label(String),
}

/// A rendered label: the label text if it fits in 24 bytes (else nothing),
/// followed by " >" for a submenu when that still fits.
pub open spec fn spec_rendered_label(text: Seq<char>, text_bytes: int, submenu: bool) -> Seq<char> {
    let base = if text_bytes <= LABEL_CAP { text } else { Seq::empty() };
    let base_bytes = if text_bytes <= LABEL_CAP { text_bytes } else { 0 };
    if submenu && base_bytes + 2 <= LABEL_CAP {
        base + seq![' ', '>']
    } else {
        base
    }
}

/// The content of visible row `row` (0 = above the cursor, 1 = the cursor,
/// 2 = below) of a menu whose cursor is at `pos`.
pub open spec fn spec_row_index(pos: int, row: int) -> int {
    pos + row - 1
}

/// Render visible row `row` (0–2) of a three-row menu centred on `pos`.
pub fn menu_row(items: &[MenuItem], pos: usize, row: usize, boost_rx: bool) -> (r: RowContent)
    requires
        row < 3,
        pos < usize::MAX - 2,
    ensures
        ({
            let idx = spec_row_index(pos as int, row as int);
            if idx < 0 || idx >= items@.len() {
                r is Empty
            } else if is_separator(items@[idx]) {
                r is Rule
            } else {
                let t = spec_label_text(items@[idx].label, boost_rx);
                r matches RowContent::Label(s) && s@ == spec_rendered_label(
                    t@,
                    t.len() as int,
                    items@[idx].kind is Submenu,
                )
            }
        }),
{
    if pos + row < 1 || pos + row - 1 >= items.len() {
        return RowContent::Empty;
    }
    let item = items[pos + row - 1];
    match item.kind {
        MenuItemKind::Separator => RowContent::Rule,
        _ => {
            let t = label_text(item.label, boost_rx);
            let mut s = String::new();
            let tb = t.len();
            let mut used: usize = 0;
            if tb <= LABEL_CAP {
                let n = t.unicode_len();
                let mut i: usize = 0;
                while i < n
                    invariant
                        i <= n,
                        n == t@.len(),
                        s@ == t@.take(i as int),
                    decreases n - i,
                {
                    string_push(&mut s, t.get_char(i));
                    assert(s@ =~= t@.take(i + 1));
                    i += 1;
                }
                assert(t@.take(n as int) =~= t@);
                used = tb;
            }
            let is_sub = match item.kind {
                MenuItemKind::Submenu(_) => true,
                _ => false,
            };
            if is_sub && used + 2 <= LABEL_CAP {
                string_push(&mut s, ' ');
                string_push(&mut s, '>');
            }
            proof {
                assert(s@ =~= spec_rendered_label(t@, t.len() as int, is_sub));
            }
            RowContent::Label(s)
        },
    }
}

} // verus!
