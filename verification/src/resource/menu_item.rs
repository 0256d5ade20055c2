//! A single entry of the tray menu and its mathematical model.

use vstd::prelude::*;
use crate::resource::Menu;

verus! {

/// Identifier of a menu entry; equality is by the string value.
#[derive(Debug)]
pub struct MenuId(pub String);

/// A keyboard shortcut, held as plain values: a bit set of modifier keys and
/// the name of the key.
#[derive(Debug)]
pub struct Accelerator {
    /// Bit set of modifier keys.
    pub mods: u32,
    /// Name of the key, as the platform layer spells it.
    pub key: String,
}

/// One entry of a menu: a clickable item, a nested submenu or a separator.
#[derive(Debug)]
#[non_exhaustive]
pub enum MenuItem {
    /// A clickable leaf entry.
    Common {
        /// Menu id.
        id: MenuId,
        /// The text displayed in the menu.
        text: String,
        /// Whether the item reacts to clicks.
        enabled: bool,
        /// Optional keyboard shortcut.
        accelerator: Option<Accelerator>,
    },
    /// A nested menu; owns its child entries.
    SubMenu {
        /// Menu id.
        id: MenuId,
        /// The text displayed in the menu.
        text: String,
        /// Whether the submenu reacts to clicks.
        enabled: bool,
        /// The child menu.
        menu: Menu,
    },
    /// A non-interactive divider; carries no id.
    Separator,
}

/// Model of an [`Accelerator`].
pub struct AccelModel {
    /// Bit set of modifier keys.
    pub mods: u32,
    /// Name of the key.
    pub key: Seq<char>,
}

/// Model of a [`MenuItem`]: the same tree over sequences of characters.
pub enum ItemModel {
    /// A clickable leaf entry.
    Common { id: Seq<char>, text: Seq<char>, enabled: bool, accelerator: Option<AccelModel> },
    /// A nested menu with the models of its children in display order.
    SubMenu { id: Seq<char>, text: Seq<char>, enabled: bool, items: Seq<ItemModel> },
    /// A non-interactive divider.
    Separator,
}

/// Model of an optional accelerator.
pub open spec fn accel_opt_view(a: Option<Accelerator>) -> Option<AccelModel> {
    match a {
        Some(acc) => Some(acc@),
        None => None,
    }
}

impl View for MenuId {
    type V = Seq<char>;

    open spec fn view(&self) -> Seq<char> {
        self.0@
    }
}

impl View for Accelerator {
    type V = AccelModel;

    open spec fn view(&self) -> AccelModel {
        AccelModel { mods: self.mods, key: self.key@ }
    }
}

impl View for MenuItem {
    type V = ItemModel;

    open spec fn view(&self) -> ItemModel
        decreases self,
    {
        match self {
            MenuItem::Common { id, text, enabled, accelerator } => ItemModel::Common {
                id: id@,
                text: text@,
                enabled: *enabled,
                accelerator: accel_opt_view(*accelerator),
            },
            MenuItem::SubMenu { id, text, enabled, menu } => ItemModel::SubMenu {
                id: id@,
                text: text@,
                enabled: *enabled,
                items: items_view(menu.0@),
            },
            MenuItem::Separator => ItemModel::Separator,
        }
    }
}

/// Models of a sequence of menu items, in the same order.
pub open spec fn items_view(items: Seq<MenuItem>) -> Seq<ItemModel>
    decreases items,
{
    if items.len() == 0 {
        Seq::empty()
    } else {
        seq![items[0]@] + items_view(items.drop_first())
    }
}

/// The models of a sequence of items line up with the items, index by index.
pub proof fn lemma_items_view(items: Seq<MenuItem>)
    ensures
        items_view(items).len() == items.len(),
        forall|i: int| 0 <= i < items.len() ==> #[trigger] items_view(items)[i] == items[i]@,
    decreases items,
{
    if items.len() > 0 {
        lemma_items_view(items.drop_first());
        let head = seq![items[0]@];
        let tail = items_view(items.drop_first());
        assert(items_view(items) == head + tail);
        assert forall|i: int| 0 <= i < items.len() implies #[trigger] items_view(items)[i]
            == items[i]@ by {
            if i > 0 {
                assert((head + tail)[i] == tail[i - 1]);
                assert(items.drop_first()[i - 1] == items[i]);
            } else {
                assert((head + tail)[0] == items[0]@);
            }
        }
    }
}

impl MenuItem {
    /// Creates the common item.
    ///
    /// ## Params
    ///
    /// * `id` - Menu id.
    /// * `text` - The text displayed in the menu.
    /// * `enabled` - Whether the item reacts to clicks.
    /// * `accelerator` - Optional keyboard shortcut.
    pub fn common(id: &str, text: &str, enabled: bool, accelerator: Option<Accelerator>) -> (r:
        Self)
        ensures
            r@ == (ItemModel::Common {
                id: id@,
                text: text@,
                enabled,
                accelerator: accel_opt_view(accelerator),
            }),
    {
        MenuItem::Common { id: MenuId(id.to_owned()), text: text.to_owned(), enabled, accelerator }
    }

    /// Creates the separator.
    pub fn separator() -> (r: Self)
        ensures
            r@ == ItemModel::Separator,
    {
        MenuItem::Separator
    }

    /// Creates the submenu.
    ///
    /// ## Params
    ///
    /// * `id` - Menu id.
    /// * `text` - The text displayed in the menu.
    /// * `enabled` - Whether the submenu reacts to clicks.
    /// * `menu` - The child menu.
    pub fn submenu(id: &str, text: &str, enabled: bool, menu: Menu) -> (r: Self)
        ensures
            r@ == (ItemModel::SubMenu { id: id@, text: text@, enabled, items: menu@ }),
    {
        MenuItem::SubMenu { id: MenuId(id.to_owned()), text: text.to_owned(), enabled, menu }
    }
}

/// Whether the item, or any entry of its subtree, carries the id.
/// A separator carries no id and never matches.
pub open spec fn item_contains(it: ItemModel, id: Seq<char>) -> bool
    decreases it, 0int,
{
    match it {
        ItemModel::Common { id: own, .. } => own == id,
        ItemModel::SubMenu { id: own, items, .. } => own == id || menu_contains_from(
            items,
            0,
            id,
        ),
        ItemModel::Separator => false,
    }
}

/// Whether any entry of `items[i..]`, or of their subtrees, carries the id.
pub open spec fn menu_contains_from(items: Seq<ItemModel>, i: int, id: Seq<char>) -> bool
    decreases items, items.len() - i,
{
    if i < 0 || i >= items.len() {
        false
    } else {
        item_contains(items[i], id) || menu_contains_from(items, i + 1, id)
    }
}

/// Whether any entry of the menu tree carries the id.
pub open spec fn menu_contains(items: Seq<ItemModel>, id: Seq<char>) -> bool {
    menu_contains_from(items, 0, id)
}

/// The item after enabling or disabling the first entry carrying the id, in a
/// depth-first, pre-order traversal. A submenu whose own id matches has its
/// own flag set and its children are left untouched; otherwise the search
/// descends. An item not carrying the id anywhere is returned unchanged.
pub open spec fn item_set(it: ItemModel, id: Seq<char>, en: bool) -> ItemModel
    decreases it, 0int,
{
    match it {
        ItemModel::Common { id: own, text, enabled, accelerator } => if own == id {
            ItemModel::Common { id: own, text, enabled: en, accelerator }
        } else {
            ItemModel::Common { id: own, text, enabled, accelerator }
        },
        ItemModel::SubMenu { id: own, text, enabled, items } => if own == id {
            ItemModel::SubMenu { id: own, text, enabled: en, items }
        } else {
            ItemModel::SubMenu { id: own, text, enabled, items: menu_set_from(items, 0, id, en) }
        },
        ItemModel::Separator => ItemModel::Separator,
    }
}

/// `items` after enabling or disabling the first entry at or after index `i`
/// that carries the id; `items` unchanged when none does.
pub open spec fn menu_set_from(items: Seq<ItemModel>, i: int, id: Seq<char>, en: bool) -> Seq<
    ItemModel,
>
    decreases items, items.len() - i,
{
    if i < 0 || i >= items.len() {
        items
    } else if item_contains(items[i], id) {
        items.update(i, item_set(items[i], id, en))
    } else {
        menu_set_from(items, i + 1, id, en)
    }
}

/// The menu tree after enabling or disabling the first entry carrying the id.
pub open spec fn menu_set(items: Seq<ItemModel>, id: Seq<char>, en: bool) -> Seq<ItemModel> {
    menu_set_from(items, 0, id, en)
}

/// The `enabled` flag of the first entry of the item's subtree carrying the
/// id, in the same traversal order as [`item_set`].
pub open spec fn item_lookup(it: ItemModel, id: Seq<char>) -> Option<bool>
    decreases it, 0int,
{
    match it {
        ItemModel::Common { id: own, enabled, .. } => if own == id {
            Some(enabled)
        } else {
            None
        },
        ItemModel::SubMenu { id: own, enabled, items, .. } => if own == id {
            Some(enabled)
        } else {
            menu_lookup_from(items, 0, id)
        },
        ItemModel::Separator => None,
    }
}

/// The `enabled` flag of the first entry at or after index `i` carrying the id.
pub open spec fn menu_lookup_from(items: Seq<ItemModel>, i: int, id: Seq<char>) -> Option<bool>
    decreases items, items.len() - i,
{
    if i < 0 || i >= items.len() {
        None
    } else if item_contains(items[i], id) {
        item_lookup(items[i], id)
    } else {
        menu_lookup_from(items, i + 1, id)
    }
}

/// The `enabled` flag of the first entry of the menu tree carrying the id.
pub open spec fn menu_lookup(items: Seq<ItemModel>, id: Seq<char>) -> Option<bool> {
    menu_lookup_from(items, 0, id)
}

/// A tree that nowhere carries the id is left unchanged by [`menu_set_from`].
pub proof fn lemma_menu_set_absent(items: Seq<ItemModel>, i: int, id: Seq<char>, en: bool)
    requires
        !menu_contains_from(items, i, id),
    ensures
        menu_set_from(items, i, id, en) == items,
    decreases items, items.len() - i,
{
    if 0 <= i < items.len() {
        lemma_menu_set_absent(items, i + 1, id, en);
    }
}

/// An item's subtree yields a flag exactly when it carries the id.
pub proof fn lemma_item_lookup_some(it: ItemModel, id: Seq<char>)
    ensures
        item_lookup(it, id) is Some <==> item_contains(it, id),
    decreases it, 0int,
{
    match it {
        ItemModel::SubMenu { id: own, items, .. } => {
            if own != id {
                lemma_menu_lookup_some(items, 0, id);
            }
        },
        _ => {},
    }
}

/// A lookup from index `i` yields a flag exactly when the id is carried at or
/// after that index.
pub proof fn lemma_menu_lookup_some(items: Seq<ItemModel>, i: int, id: Seq<char>)
    ensures
        menu_lookup_from(items, i, id) is Some <==> menu_contains_from(items, i, id),
    decreases items, items.len() - i,
{
    if 0 <= i < items.len() {
        if item_contains(items[i], id) {
            lemma_item_lookup_some(items[i], id);
        } else {
            lemma_menu_lookup_some(items, i + 1, id);
        }
    }
}

/// Setting the flag of an item that carries the id leaves an item that still
/// carries it, and whose first entry with that id now holds the new flag.
pub proof fn lemma_item_set_lookup(it: ItemModel, id: Seq<char>, en: bool)
    requires
        item_contains(it, id),
    ensures
        item_contains(item_set(it, id, en), id),
        item_lookup(item_set(it, id, en), id) == Some(en),
    decreases it, 0int,
{
    match it {
        ItemModel::SubMenu { id: own, items, .. } => {
            if own != id {
                lemma_menu_set_lookup(items, 0, id, en);
            }
        },
        _ => {},
    }
}

/// After [`menu_set_from`] on a tree that carries the id at or after index
/// `i`, the entries before `i` are untouched, the id is still present, and a
/// lookup from `i` returns the new flag: enabling then reading gives `true`,
/// disabling then reading gives `false`.
pub proof fn lemma_menu_set_lookup(items: Seq<ItemModel>, i: int, id: Seq<char>, en: bool)
    requires
        menu_contains_from(items, i, id),
    ensures
        menu_set_from(items, i, id, en).len() == items.len(),
        forall|j: int| 0 <= j < i ==> menu_set_from(items, i, id, en)[j] == items[j],
        menu_contains_from(menu_set_from(items, i, id, en), i, id),
        menu_lookup_from(menu_set_from(items, i, id, en), i, id) == Some(en),
    decreases items, items.len() - i,
{
    if item_contains(items[i], id) {
        lemma_item_set_lookup(items[i], id, en);
    } else {
        lemma_menu_set_lookup(items, i + 1, id, en);
    }
}

/// Setting the same flag twice gives the same item as setting it once.
pub proof fn lemma_item_set_idempotent(it: ItemModel, id: Seq<char>, en: bool)
    ensures
        item_set(item_set(it, id, en), id, en) == item_set(it, id, en),
    decreases it, 0int,
{
    match it {
        ItemModel::SubMenu { id: own, items, .. } => {
            if own != id {
                lemma_menu_set_idempotent(items, 0, id, en);
            }
        },
        _ => {},
    }
}

/// Setting the same flag twice gives the same tree as setting it once.
pub proof fn lemma_menu_set_idempotent(items: Seq<ItemModel>, i: int, id: Seq<char>, en: bool)
    ensures
        menu_set_from(menu_set_from(items, i, id, en), i, id, en) == menu_set_from(
            items,
            i,
            id,
            en,
        ),
    decreases items, items.len() - i,
{
    if i < 0 || i >= items.len() {
    } else if item_contains(items[i], id) {
        let once = items.update(i, item_set(items[i], id, en));
        lemma_item_set_lookup(items[i], id, en);
        lemma_item_set_idempotent(items[i], id, en);
        assert(once.update(i, item_set(once[i], id, en)) =~= once);
    } else if menu_contains_from(items, i + 1, id) {
        let once = menu_set_from(items, i + 1, id, en);
        lemma_menu_set_lookup(items, i + 1, id, en);
        assert(once[i] == items[i]);
        lemma_menu_set_idempotent(items, i + 1, id, en);
    } else {
        lemma_menu_set_absent(items, i, id, en);
    }
}

/// A copy of an optional accelerator, equal to the one copied.
pub(crate) fn clone_accel_opt(a: &Option<Accelerator>) -> (r: Option<Accelerator>)
    ensures
        r == *a,
{
    match a {
        Option::None => None,
        Option::Some(x) => Some(Accelerator { mods: x.mods, key: x.key.clone() }),
    }
}

/// A copy of an item, with the same model.
pub(crate) fn clone_item(it: &MenuItem) -> (r: MenuItem)
    ensures
        r@ == it@,
    decreases it, 0int,
{
    match it {
        MenuItem::Common { id, text, enabled, accelerator } => MenuItem::Common {
            id: MenuId(id.0.clone()),
            text: text.clone(),
            enabled: *enabled,
            accelerator: clone_accel_opt(accelerator),
        },
        MenuItem::SubMenu { id, text, enabled, menu } => MenuItem::SubMenu {
            id: MenuId(id.0.clone()),
            text: text.clone(),
            enabled: *enabled,
            menu: Menu(crate::resource::clone_items(&menu.0)),
        },
        MenuItem::Separator => MenuItem::Separator,
    }
}

impl Clone for MenuId {
    /// A copy with the same string value.
    fn clone(&self) -> (r: Self)
        ensures
            r == *self,
    {
        MenuId(self.0.clone())
    }
}

impl Clone for Accelerator {
    /// A copy with the same modifiers and key.
    fn clone(&self) -> (r: Self)
        ensures
            r == *self,
    {
        Accelerator { mods: self.mods, key: self.key.clone() }
    }
}

impl Clone for MenuItem {
    /// A copy with the same model.
    fn clone(&self) -> (r: Self)
        ensures
            r@ == self@,
    {
        clone_item(self)
    }
}

/// Whether two optional accelerators have the same model.
pub(crate) fn accel_opt_eq(a: &Option<Accelerator>, b: &Option<Accelerator>) -> (r: bool)
    ensures
        r == (accel_opt_view(*a) == accel_opt_view(*b)),
{
    match (a, b) {
        (Option::None, Option::None) => true,
        (Option::Some(x), Option::Some(y)) => x.mods == y.mods && x.key == y.key,
        _ => false,
    }
}

/// Whether two items have the same model: same shape, ids, texts, flags and
/// children.
pub(crate) fn item_eq(a: &MenuItem, b: &MenuItem) -> (r: bool)
    ensures
        r == (a@ == b@),
    decreases a, 0int,
{
    match a {
        MenuItem::Common { id, text, enabled, accelerator } => match b {
            MenuItem::Common {
                id: id2,
                text: text2,
                enabled: enabled2,
                accelerator: accelerator2,
            } => id.0 == id2.0 && *text == *text2 && *enabled == *enabled2 && accel_opt_eq(
                accelerator,
                accelerator2,
            ),
            _ => false,
        },
        MenuItem::SubMenu { id, text, enabled, menu } => match b {
            MenuItem::SubMenu { id: id2, text: text2, enabled: enabled2, menu: menu2 } => id.0
                == id2.0 && *text == *text2 && *enabled == *enabled2 && crate::resource::items_eq(
                &menu.0,
                &menu2.0,
            ),
            _ => false,
        },
        MenuItem::Separator => match b {
            MenuItem::Separator => true,
            _ => false,
        },
    }
}

impl PartialEq for MenuItem {
    /// Structural equality of the two trees.
    fn eq(&self, other: &Self) -> bool {
        item_eq(self, other)
    }
}

impl vstd::std_specs::cmp::PartialEqSpecImpl for MenuItem {
    open spec fn obeys_eq_spec() -> bool {
        true
    }

    open spec fn eq_spec(&self, other: &Self) -> bool {
        self@ == other@
    }
}

/// Whether the item or its subtree carries the id, decided at run time.
pub(crate) fn item_contains_exec(it: &MenuItem, target: &String) -> (b: bool)
    ensures
        b == item_contains(it@, target@),
    decreases it, 0int,
{
    match it {
        MenuItem::Common { id, .. } => id.0 == *target,
        MenuItem::SubMenu { id, menu, .. } => {
            if id.0 == *target {
                true
            } else {
                crate::resource::menu_contains_exec(&menu.0, 0, target)
            }
        },
        MenuItem::Separator => false,
    }
}

/// The flag of the first entry of the item's subtree carrying the id.
pub(crate) fn item_lookup_exec(it: &MenuItem, target: &String) -> (r: Option<bool>)
    ensures
        r == item_lookup(it@, target@),
    decreases it, 0int,
{
    match it {
        MenuItem::Common { id, enabled, .. } => {
            if id.0 == *target {
                Some(*enabled)
            } else {
                None
            }
        },
        MenuItem::SubMenu { id, enabled, menu, .. } => {
            if id.0 == *target {
                Some(*enabled)
            } else {
                crate::resource::menu_lookup_exec(&menu.0, 0, target)
            }
        },
        MenuItem::Separator => None,
    }
}

/// The item after setting the flag of the first entry carrying the id;
/// the caller has already checked that the subtree carries it.
pub(crate) fn item_set_exec(it: MenuItem, target: &String, enable: bool) -> (r: MenuItem)
    requires
        item_contains(it@, target@),
    ensures
        r@ == item_set(it@, target@, enable),
    decreases it, 0int,
{
    match it {
        MenuItem::Common { id, text, enabled, accelerator } => {
            MenuItem::Common { id, text, enabled: enable, accelerator }
        },
        MenuItem::SubMenu { id, text, enabled, menu } => {
            if id.0 == *target {
                MenuItem::SubMenu { id, text, enabled: enable, menu }
            } else {
                let Menu(vec) = menu;
                let vec2 = crate::resource::menu_set_exec(vec, 0, target, enable);
                MenuItem::SubMenu { id, text, enabled, menu: Menu(vec2) }
            }
        },
        MenuItem::Separator => vstd::pervasive::unreached(),
    }
}

/// A submenu whose own id is the target has its own flag set and keeps its
/// children exactly as they were: the traversal does not descend, even if a
/// deeper entry carries the same id.
pub proof fn lemma_submenu_own_match(
    own: Seq<char>,
    text: Seq<char>,
    enabled: bool,
    items: Seq<ItemModel>,
    en: bool,
)
    ensures
        item_set(ItemModel::SubMenu { id: own, text, enabled, items }, own, en) == (
        ItemModel::SubMenu { id: own, text, enabled: en, items }),
{
}

} // verus!
