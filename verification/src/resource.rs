//! The declarative tray state and its menu tree.

use vstd::prelude::*;

pub use menu_item::MenuItem;

pub mod menu_item;

use crate::error::Error;
use crate::resource::menu_item::{
    clone_item, item_contains_exec, item_eq, item_lookup_exec, item_set_exec, items_view,
    lemma_items_view, lemma_menu_set_absent, menu_contains, menu_contains_from, menu_lookup,
    menu_lookup_from, menu_set, menu_set_from, ItemModel,
};

verus! {

/// The tray's menu: an ordered sequence of entries, top to bottom.
#[derive(Debug)]
pub struct Menu(pub Vec<MenuItem>);

impl View for Menu {
    type V = Seq<ItemModel>;

    open spec fn view(&self) -> Seq<ItemModel> {
        items_view(self.0@)
    }
}

/// A copy of the entries, with the same models in the same order.
pub(crate) fn clone_items(items: &Vec<MenuItem>) -> (r: Vec<MenuItem>)
    ensures
        items_view(r@) == items_view(items@),
    decreases items, 0int,
{
    let mut out: Vec<MenuItem> = Vec::new();
    let n = items.len();
    let mut j: usize = 0;
    while j < n
        invariant
            j <= n,
            n == items@.len(),
            out@.len() == j,
            forall|k: int| 0 <= k < j ==> #[trigger] out@[k]@ == items@[k]@,
        decreases n - j,
    {
        let it = clone_item(&items[j]);
        out.push(it);
        j += 1;
    }
    proof {
        lemma_items_view(items@);
        lemma_items_view(out@);
        assert(items_view(out@) =~= items_view(items@));
    }
    out
}

/// Whether the entries of the two vectors have the same models, index by
/// index.
pub(crate) fn items_eq(a: &Vec<MenuItem>, b: &Vec<MenuItem>) -> (r: bool)
    ensures
        r == (items_view(a@) == items_view(b@)),
    decreases a, 0int,
{
    proof {
        lemma_items_view(a@);
        lemma_items_view(b@);
    }
    let n = a.len();
    if n != b.len() {
        return false;
    }
    let mut j: usize = 0;
    while j < n
        invariant
            j <= n,
            n == a@.len() && n == b@.len(),
            forall|k: int| 0 <= k < j ==> #[trigger] a@[k]@ == b@[k]@,
            items_view(a@).len() == n && items_view(b@).len() == n,
            forall|k: int| 0 <= k < n ==> #[trigger] items_view(a@)[k] == a@[k]@,
            forall|k: int| 0 <= k < n ==> #[trigger] items_view(b@)[k] == b@[k]@,
        decreases n - j,
    {
        if !item_eq(&a[j], &b[j]) {
            proof {
                assert(items_view(a@)[j as int] != items_view(b@)[j as int]);
            }
            return false;
        }
        j += 1;
    }
    proof {
        assert(items_view(a@) =~= items_view(b@));
    }
    true
}

/// Whether any entry of `items[i..]`, or of their subtrees, carries the id.
pub(crate) fn menu_contains_exec(items: &Vec<MenuItem>, i: usize, target: &String) -> (b: bool)
    requires
        i <= items@.len(),
    ensures
        b == menu_contains_from(items_view(items@), i as int, target@),
    decreases items, items@.len() - i,
{
    proof {
        lemma_items_view(items@);
    }
    if i == items.len() {
        false
    } else if item_contains_exec(&items[i], target) {
        true
    } else {
        menu_contains_exec(items, i + 1, target)
    }
}

/// The flag of the first entry of `items[i..]` carrying the id.
pub(crate) fn menu_lookup_exec(items: &Vec<MenuItem>, i: usize, target: &String) -> (r: Option<
    bool,
>)
    requires
        i <= items@.len(),
    ensures
        r == menu_lookup_from(items_view(items@), i as int, target@),
    decreases items, items@.len() - i,
{
    proof {
        lemma_items_view(items@);
    }
    if i == items.len() {
        None
    } else if item_contains_exec(&items[i], target) {
        item_lookup_exec(&items[i], target)
    } else {
        menu_lookup_exec(items, i + 1, target)
    }
}

/// The entries after setting the flag of the first one at or after index `i`
/// carrying the id; the caller has already checked that one does.
pub(crate) fn menu_set_exec(items: Vec<MenuItem>, i: usize, target: &String, enable: bool) -> (r:
    Vec<MenuItem>)
    requires
        i <= items@.len(),
        menu_contains_from(items_view(items@), i as int, target@),
    ensures
        items_view(r@) == menu_set_from(items_view(items@), i as int, target@, enable),
    decreases items, items@.len() - i,
{
    let ghost items0 = items@;
    proof {
        lemma_items_view(items0);
        vstd::std_specs::vec::axiom_spec_len(&items);
        assert(i < items0.len());
    }
    if item_contains_exec(&items[i], target) {
        let mut v = items;
        let it = v.remove(i);
        let it2 = item_set_exec(it, target, enable);
        v.insert(i, it2);
        proof {
            lemma_items_view(v@);
            assert(v@ =~= items0.update(i as int, it2));
            assert(items_view(v@) =~= menu_set_from(
                items_view(items0),
                i as int,
                target@,
                enable,
            ));
        }
        v
    } else {
        menu_set_exec(items, i + 1, target, enable)
    }
}

impl Menu {
    /// Creates the new [`Menu`] from its entries in display order.
    pub fn new(items: Vec<MenuItem>) -> (m: Self)
        ensures
            m@ == items_view(items@),
    {
        Menu(items)
    }

    /// Enables or disables the first entry carrying the id, found by a
    /// depth-first, pre-order traversal; a submenu whose own id matches has
    /// its own flag set instead of its children being searched. When no entry
    /// of the tree carries the id, the tree is unchanged and the error names
    /// the id.
    pub fn set_enable(&mut self, menu_id: &str, enable: bool) -> (r: Result<(), Error>)
        ensures
            r is Ok <==> menu_contains(old(self)@, menu_id@),
            final(self)@ == menu_set(old(self)@, menu_id@, enable),
            !menu_contains(old(self)@, menu_id@) ==> final(self)@ == old(self)@,
            r matches Err(Error::NotFoundMenu(s)) ==> s@ == menu_id@,
    {
        let target: String = menu_id.to_owned();
        if menu_contains_exec(&self.0, 0, &target) {
            let mut v: Vec<MenuItem> = Vec::new();
            core::mem::swap(&mut v, &mut self.0);
            let v2 = menu_set_exec(v, 0, &target, enable);
            self.0 = v2;
            Ok(())
        } else {
            proof {
                lemma_menu_set_absent(items_view(self.0@), 0, menu_id@, enable);
            }
            Err(Error::NotFoundMenu(target))
        }
    }

    /// The `enabled` flag of the first entry carrying the id, in the same
    /// traversal order as [`Menu::set_enable`]; `None` when no entry does.
    pub fn get_enabled(&self, menu_id: &str) -> (r: Option<bool>)
        ensures
            r == menu_lookup(self@, menu_id@),
            r is Some <==> menu_contains(self@, menu_id@),
    {
        proof {
            crate::resource::menu_item::lemma_menu_lookup_some(self@, 0, menu_id@);
        }
        let target: String = menu_id.to_owned();
        menu_lookup_exec(&self.0, 0, &target)
    }
}

impl Clone for Menu {
    /// A copy with the same model.
    fn clone(&self) -> (r: Self)
        ensures
            r@ == self@,
    {
        Menu(clone_items(&self.0))
    }
}

impl PartialEq for Menu {
    /// Structural equality of the two menu trees.
    fn eq(&self, other: &Self) -> bool {
        items_eq(&self.0, &other.0)
    }
}

impl vstd::std_specs::cmp::PartialEqSpecImpl for Menu {
    open spec fn obeys_eq_spec() -> bool {
        true
    }

    open spec fn eq_spec(&self, other: &Self) -> bool {
        self@ == other@
    }
}

impl Default for Menu {
    /// The empty menu.
    fn default() -> (r: Self)
        ensures
            r@ == Seq::<ItemModel>::empty(),
    {
        Menu(Vec::new())
    }
}

/// Reference to the icon image held by the host's asset store, as a plain
/// asset number; the store itself stays outside this crate.
#[derive(Debug, Clone, Copy, PartialEq, Eq, Structural)]
pub struct IconHandle(pub u128);

/// Model of the declared tray state.
pub struct TrayModel {
    /// The asset number of the icon, when one is declared.
    pub icon: Option<u128>,
    /// The tooltip text, when one is declared.
    pub tooltip: Option<Seq<char>>,
    /// The models of the menu entries.
    pub menu: Seq<ItemModel>,
    /// Whether a left click opens the menu, honored on one platform only.
    pub show_menu_on_left_click: bool,
}

/// After this resource is generated, the system tray is also generated.
///
/// When you change a field in this resource, the system tray is also updated.
#[derive(Debug)]
pub struct TrayIcon {
    /// The image handle of the icon.
    pub icon: Option<IconHandle>,
    /// The text in tooltip displayed when mouse hovers over the system tray.
    pub tooltip: Option<String>,
    /// The menu displayed when right-clicking on the system tray.
    pub menu: Menu,
    /// Whether a left click opens the menu, honored on one platform only.
    pub show_menu_on_left_click: bool,
}

impl View for TrayIcon {
    type V = TrayModel;

    open spec fn view(&self) -> TrayModel {
        TrayModel {
            icon: match self.icon {
                Some(h) => Some(h.0),
                None => None,
            },
            tooltip: match self.tooltip {
                Some(ref t) => Some(t@),
                None => None,
            },
            menu: self.menu@,
            show_menu_on_left_click: self.show_menu_on_left_click,
        }
    }
}

impl Clone for TrayIcon {
    /// A copy with the same model.
    fn clone(&self) -> (r: Self)
        ensures
            r@ == self@,
    {
        TrayIcon {
            icon: self.icon,
            tooltip: match &self.tooltip {
                Some(t) => Some(t.clone()),
                None => None,
            },
            menu: self.menu.clone(),
            show_menu_on_left_click: self.show_menu_on_left_click,
        }
    }
}

impl PartialEq for TrayIcon {
    /// Structural equality over all fields.
    fn eq(&self, other: &Self) -> bool {
        let icon_eq = match (&self.icon, &other.icon) {
            (Option::None, Option::None) => true,
            (Option::Some(a), Option::Some(b)) => a.0 == b.0,
            _ => false,
        };
        let tooltip_eq = match (&self.tooltip, &other.tooltip) {
            (Option::None, Option::None) => true,
            (Option::Some(a), Option::Some(b)) => *a == *b,
            _ => false,
        };
        icon_eq && tooltip_eq && items_eq(&self.menu.0, &other.menu.0)
            && self.show_menu_on_left_click == other.show_menu_on_left_click
    }
}

impl vstd::std_specs::cmp::PartialEqSpecImpl for TrayIcon {
    open spec fn obeys_eq_spec() -> bool {
        true
    }

    open spec fn eq_spec(&self, other: &Self) -> bool {
        self@ == other@
    }
}

impl Default for TrayIcon {
    /// No icon, no tooltip, an empty menu, and a right-click-only menu.
    fn default() -> (r: Self)
        ensures
            r@ == (TrayModel {
                icon: None,
                tooltip: None,
                menu: Seq::<ItemModel>::empty(),
                show_menu_on_left_click: false,
            }),
    {
        TrayIcon {
            icon: None,
            tooltip: None,
            menu: Menu(Vec::new()),
            show_menu_on_left_click: false,
        }
    }
}

/// An icon image as raw pixels: an RGBA byte buffer and its dimensions, four
/// bytes for each pixel.
#[derive(Debug)]
pub struct RawIcon {
    /// The pixel buffer, row by row.
    pub rgba: Vec<u8>,
    /// Width in pixels.
    pub width: u32,
    /// Height in pixels.
    pub height: u32,
}

impl RawIcon {
    /// The buffer holds exactly four bytes for each pixel.
    pub open spec fn wf(&self) -> bool {
        self.rgba@.len() == 4 * (self.width as int) * (self.height as int)
    }
}

impl TrayIcon {
    /// The raw icon to hand to the platform, given what the asset store
    /// resolved the declared handle to: a byte buffer with its width and
    /// height, or `None` while the asset is not loaded. Yields `None` when no
    /// icon is declared, when the asset is not loaded, or when the buffer
    /// does not hold four bytes for each pixel; that is not an error, the
    /// tray then simply shows no icon.
    pub fn as_icon(&self, image: Option<(Vec<u8>, u32, u32)>) -> (r: Option<RawIcon>)
        ensures
            r is Some <==> (self.icon is Some && (match image {
                Some(img) => img.0@.len() == 4 * (img.1 as int) * (img.2 as int),
                None => false,
            })),
            r matches Some(ic) ==> (match image {
                Some(img) => ic.rgba@ == img.0@ && ic.width == img.1 && ic.height == img.2
                    && ic.wf(),
                None => false,
            }),
            self.icon is None ==> r is None,
            image is None ==> r is None,
    {
        if self.icon.is_none() {
            return None;
        }
        match image {
            Option::None => None,
            Option::Some((data, width, height)) => {
                proof {
                    assert(4 * (width as int) * (height as int) <= 4 * 0xFFFF_FFFF
                        * 0xFFFF_FFFF) by (nonlinear_arith)
                        requires
                            width <= 0xFFFF_FFFFu32,
                            height <= 0xFFFF_FFFFu32,
                    ;
                }
                let need: u128 = 4u128 * (width as u128) * (height as u128);
                if (data.len() as u128) == need {
                    Some(RawIcon { rgba: data, width, height })
                } else {
                    None
                }
            },
        }
    }
}

} // verus!
