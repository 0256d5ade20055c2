//! Projection of the menu tree into the native widget's menu object graph.
//!
//! The platform layer owns the actual widget objects; this module computes a
//! full description of the graph those objects must form: which native
//! constructor each entry maps to, with which id, text, flag and shortcut,
//! and in which order. The description is rebuilt from scratch on every
//! synchronization where the menu changed; no incremental diffing.

use vstd::prelude::*;
use crate::resource::Menu;
use crate::resource::menu_item::{
    accel_opt_view, clone_accel_opt, items_view, lemma_items_view, AccelModel, Accelerator,
    ItemModel, MenuId, MenuItem,
};

verus! {

/// Description of one node of the native menu graph.
#[derive(Debug)]
pub enum NativeItem {
    /// The native separator.
    Separator,
    /// The native clickable item, carrying the same id, text, flag and
    /// shortcut as the declared entry.
    Item {
        /// Menu id.
        id: MenuId,
        /// The text displayed in the menu.
        text: String,
        /// Whether the item reacts to clicks.
        enabled: bool,
        /// Optional keyboard shortcut.
        accelerator: Option<Accelerator>,
    },
    /// The native submenu, its children in the same order as the declared
    /// ones.
    Sub {
        /// Menu id.
        id: MenuId,
        /// The text displayed in the menu.
        text: String,
        /// Whether the submenu reacts to clicks.
        enabled: bool,
        /// The native nodes of the children.
        children: Vec<NativeItem>,
    },
}

/// Description of the native context menu: its top-level nodes in display
/// order.
#[derive(Debug)]
pub struct NativeMenu(pub Vec<NativeItem>);

/// Model of a native node.
pub enum NativeModel {
    /// The native separator.
    Separator,
    /// The native clickable item.
    Item { id: Seq<char>, text: Seq<char>, enabled: bool, accelerator: Option<AccelModel> },
    /// The native submenu with the models of its children.
    Sub { id: Seq<char>, text: Seq<char>, enabled: bool, children: Seq<NativeModel> },
}

impl View for NativeItem {
    type V = NativeModel;

    open spec fn view(&self) -> NativeModel
        decreases self,
    {
        match self {
            NativeItem::Separator => NativeModel::Separator,
            NativeItem::Item { id, text, enabled, accelerator } => NativeModel::Item {
                id: id@,
                text: text@,
                enabled: *enabled,
                accelerator: accel_opt_view(*accelerator),
            },
            NativeItem::Sub { id, text, enabled, children } => NativeModel::Sub {
                id: id@,
                text: text@,
                enabled: *enabled,
                children: native_items_view(children@),
            },
        }
    }
}

/// Models of a sequence of native nodes, in the same order.
pub open spec fn native_items_view(items: Seq<NativeItem>) -> Seq<NativeModel>
    decreases items,
{
    if items.len() == 0 {
        Seq::empty()
    } else {
        seq![items[0]@] + native_items_view(items.drop_first())
    }
}

/// The models of a sequence of native nodes line up with the nodes.
pub proof fn lemma_native_items_view(items: Seq<NativeItem>)
    ensures
        native_items_view(items).len() == items.len(),
        forall|i: int| 0 <= i < items.len() ==> #[trigger] native_items_view(items)[i]
            == items[i]@,
    decreases items,
{
    if items.len() > 0 {
        lemma_native_items_view(items.drop_first());
        let head = seq![items[0]@];
        let tail = native_items_view(items.drop_first());
        assert(native_items_view(items) == head + tail);
        assert forall|i: int| 0 <= i < items.len() implies #[trigger] native_items_view(items)[i]
            == items[i]@ by {
            if i > 0 {
                assert((head + tail)[i] == tail[i - 1]);
                assert(items.drop_first()[i - 1] == items[i]);
            } else {
                assert((head + tail)[0] == items[0]@);
            }
        }
    }
}

impl View for NativeMenu {
    type V = Seq<NativeModel>;

    open spec fn view(&self) -> Seq<NativeModel> {
        native_items_view(self.0@)
    }
}

/// The native node that one declared entry maps to: separator to native
/// separator, common item to native item, submenu to native submenu with its
/// children mapped recursively, in order.
pub open spec fn native_of_item(it: ItemModel) -> NativeModel
    decreases it,
{
    match it {
        ItemModel::Separator => NativeModel::Separator,
        ItemModel::Common { id, text, enabled, accelerator } => NativeModel::Item {
            id,
            text,
            enabled,
            accelerator,
        },
        ItemModel::SubMenu { id, text, enabled, items } => NativeModel::Sub {
            id,
            text,
            enabled,
            children: native_of_items(items),
        },
    }
}

/// The native nodes that a sequence of declared entries maps to, in order.
pub open spec fn native_of_items(items: Seq<ItemModel>) -> Seq<NativeModel>
    decreases items,
{
    if items.len() == 0 {
        Seq::empty()
    } else {
        seq![native_of_item(items[0])] + native_of_items(items.drop_first())
    }
}

/// The native nodes line up with the declared entries, index by index.
pub proof fn lemma_native_of_items(items: Seq<ItemModel>)
    ensures
        native_of_items(items).len() == items.len(),
        forall|i: int| 0 <= i < items.len() ==> #[trigger] native_of_items(items)[i]
            == native_of_item(items[i]),
    decreases items,
{
    if items.len() > 0 {
        lemma_native_of_items(items.drop_first());
        let head = seq![native_of_item(items[0])];
        let tail = native_of_items(items.drop_first());
        assert(native_of_items(items) == head + tail);
        assert forall|i: int| 0 <= i < items.len() implies #[trigger] native_of_items(items)[i]
            == native_of_item(items[i]) by {
            if i > 0 {
                assert((head + tail)[i] == tail[i - 1]);
                assert(items.drop_first()[i - 1] == items[i]);
            }
        }
    }
}

/// The declared entry that one native node reads back as.
pub open spec fn item_of_native(n: NativeModel) -> ItemModel
    decreases n,
{
    match n {
        NativeModel::Separator => ItemModel::Separator,
        NativeModel::Item { id, text, enabled, accelerator } => ItemModel::Common {
            id,
            text,
            enabled,
            accelerator,
        },
        NativeModel::Sub { id, text, enabled, children } => ItemModel::SubMenu {
            id,
            text,
            enabled,
            items: items_of_native(children),
        },
    }
}

/// The declared entries that a sequence of native nodes reads back as.
pub open spec fn items_of_native(ns: Seq<NativeModel>) -> Seq<ItemModel>
    decreases ns,
{
    if ns.len() == 0 {
        Seq::empty()
    } else {
        seq![item_of_native(ns[0])] + items_of_native(ns.drop_first())
    }
}

/// Round trip for one entry: projecting it into the native graph and reading
/// the graph back gives the entry itself — shape, id, text, flag, shortcut
/// and children all preserved.
pub proof fn lemma_native_round_trip_item(it: ItemModel)
    ensures
        item_of_native(native_of_item(it)) == it,
    decreases it,
{
    match it {
        ItemModel::SubMenu { items, .. } => {
            lemma_native_round_trip(items);
        },
        _ => {},
    }
}

/// Round trip for a whole menu: projecting the tree into the native graph
/// and reading the graph back gives the same tree, so the projection
/// preserves item count, order and nesting depth.
pub proof fn lemma_native_round_trip(items: Seq<ItemModel>)
    ensures
        items_of_native(native_of_items(items)) == items,
    decreases items,
{
    if items.len() > 0 {
        lemma_native_round_trip_item(items[0]);
        lemma_native_round_trip(items.drop_first());
        let ns = native_of_items(items);
        lemma_native_of_items(items);
        assert(ns == seq![native_of_item(items[0])] + native_of_items(items.drop_first()));
        assert(ns[0] == native_of_item(items[0]));
        assert(ns.drop_first() =~= native_of_items(items.drop_first()));
        assert(items_of_native(ns) == seq![item_of_native(ns[0])] + items_of_native(
            ns.drop_first(),
        ));
        assert(items_of_native(ns) =~= items);
    }
}

/// The native node for one entry, built at run time.
pub(crate) fn item_as_native(it: &MenuItem) -> (r: NativeItem)
    ensures
        r@ == native_of_item(it@),
    decreases it, 0int,
{
    match it {
        MenuItem::Separator => NativeItem::Separator,
        MenuItem::Common { id, text, enabled, accelerator } => NativeItem::Item {
            id: MenuId(id.0.clone()),
            text: text.clone(),
            enabled: *enabled,
            accelerator: clone_accel_opt(accelerator),
        },
        MenuItem::SubMenu { id, text, enabled, menu } => NativeItem::Sub {
            id: MenuId(id.0.clone()),
            text: text.clone(),
            enabled: *enabled,
            children: items_as_native(&menu.0),
        },
    }
}

/// The native nodes for a sequence of entries, in order.
pub(crate) fn items_as_native(items: &Vec<MenuItem>) -> (r: Vec<NativeItem>)
    ensures
        native_items_view(r@) == native_of_items(items_view(items@)),
    decreases items, 0int,
{
    let mut out: Vec<NativeItem> = Vec::new();
    let n = items.len();
    let mut j: usize = 0;
    while j < n
        invariant
            j <= n,
            n == items@.len(),
            out@.len() == j,
            forall|k: int| 0 <= k < j ==> #[trigger] out@[k]@ == native_of_item(items@[k]@),
        decreases n - j,
    {
        let node = item_as_native(&items[j]);
        out.push(node);
        j += 1;
    }
    proof {
        lemma_items_view(items@);
        lemma_native_items_view(out@);
        lemma_native_of_items(items_view(items@));
        assert(native_items_view(out@) =~= native_of_items(items_view(items@)));
    }
    out
}

impl Menu {
    /// The description of the native context menu for this tree: `None` when
    /// the menu is empty, so that no menu is attached to the tray; otherwise
    /// every entry mapped to its native node, in order, rebuilt from scratch.
    pub fn as_context(&self) -> (r: Option<NativeMenu>)
        ensures
            r is None <==> self@.len() == 0,
            r matches Some(n) ==> n@ == native_of_items(self@),
    {
        proof {
            lemma_items_view(self.0@);
        }
        if self.0.len() == 0 {
            None
        } else {
            Some(NativeMenu(items_as_native(&self.0)))
        }
    }
}

} // verus!
