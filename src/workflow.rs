//! An ordered list of result items, built directly or from a failure, and
//! the JSON document it renders as.
use vstd::prelude::*;
use crate::item::{Icon, Item, ItemView, item_json};
use crate::json::{array_json, array_text, member, member_text, object_json, object_text, texts};

verus! {

#[verifier::external_type_specification]
#[verifier::external_body]
pub struct ExAnyhowError(anyhow::Error);

/// Relies on `anyhow::Error::chain`: it yields the error itself first, then
/// each underlying source in turn; every cause is rendered by its `Display`.
/// The chain starts with the error, so it is never empty.
#[verifier::external_body]
fn cause_messages(err: &anyhow::Error) -> (r: Vec<String>)
    ensures
        r@.len() >= 1,
{
    err.chain().map(|cause| cause.to_string()).collect()
}

/// The items shown for a failure whose causes, outermost first, have the
/// messages `causes`: one item per cause, titled with its message; the first
/// also shows `icon` when there is one.
pub open spec fn failure_items(causes: Seq<Seq<char>>, icon: Option<Seq<char>>) -> Seq<ItemView> {
    Seq::new(
        causes.len(),
        |i: int|
            if i == 0 && icon is Some {
                ItemView { icon: icon, ..ItemView::titled(causes[i]) }
            } else {
                ItemView::titled(causes[i])
            },
    )
}

/// The members of the document's single object.
pub open spec fn workflow_members(items: Seq<ItemView>) -> Seq<(Seq<char>, Seq<char>)> {
    seq![(("\"items\""@), array_json(items.map_values(|i: ItemView| item_json(i))))]
}

/// The JSON document for a list of items: `{"items":[...]}`.
pub open spec fn workflow_json(items: Seq<ItemView>) -> Seq<char> {
    object_json(workflow_members(items))
}

pub open spec fn item_views(items: Seq<Item>) -> Seq<ItemView> {
    items.map_values(|i: Item| i@)
}

/// Result items in display order.
#[derive(Debug)]
pub struct Workflow {
    items: Vec<Item>,
}

impl View for Workflow {
    type V = Seq<ItemView>;

    closed spec fn view(&self) -> Seq<ItemView> {
        item_views(self.items@)
    }
}

pub open spec fn icon_path(icon: Option<Icon>) -> Option<Seq<char>> {
    match icon {
        Some(i) => Some(i.path@),
        None => None,
    }
}

impl Workflow {
    /// Takes the items as they are, in their order.
    pub fn new(items: Vec<Item>) -> (r: Workflow)
        ensures
            r@ == item_views(items@),
    {
        Workflow { items }
    }

    /// The items for a failure whose causes, outermost first, have the
    /// messages `causes`; `icon`, if any, goes on the first.
    pub fn from_causes(causes: Vec<String>, icon: Option<Icon>) -> (r: Workflow)
        ensures
            r@ == failure_items(texts(causes@), icon_path(icon)),
    {
        let ghost want = failure_items(texts(causes@), icon_path(icon));
        let ghost first_icon = icon_path(icon);
        let mut items: Vec<Item> = Vec::new();
        let mut icon = icon;
        let mut i: usize = 0;
        while i < causes.len()
            invariant
                i <= causes.len(),
                want == failure_items(texts(causes@), first_icon),
                i == 0 ==> icon_path(icon) == first_icon,
                want.len() == causes@.len(),
                item_views(items@) == want.take(i as int),
            decreases causes.len() - i,
        {
            let item = Item::new(causes[i].as_str());
            let item = if i == 0 {
                match icon.take() {
                    Some(ic) => item.icon(ic),
                    None => item,
                }
            } else {
                item
            };
            assert(item@ == want[i as int]);
            let ghost before = items@;
            items.push(item);
            assert(item_views(items@) =~= item_views(before).push(item@));
            assert(want.take(i + 1) =~= want.take(i as int).push(want[i as int]));
            i = i + 1;
        }
        assert(want.take(i as int) =~= want);
        Workflow { items }
    }

    /// The items for the failure `err`: one per cause in its chain,
    /// outermost first, titled with the cause's message; `icon`, if any, goes
    /// on the first.
    pub fn from_error(err: &anyhow::Error, icon: Option<Icon>) -> (r: Workflow)
        ensures
            r@.len() >= 1,
            exists|causes: Seq<Seq<char>>| r@ == failure_items(causes, icon_path(icon)),
    {
        let causes = cause_messages(err);
        let r = Workflow::from_causes(causes, icon);
        r
    }

    /// The workflow for a computation: its items when it succeeds; else one
    /// item per cause of its failure, outermost first, the first showing the
    /// icon that `resolve_icon` yields, if any. `resolve_icon` is called only
    /// on failure; a missing icon leaves the items as they are.
    pub fn from_result<F, G>(compute: F, resolve_icon: G) -> (r: Workflow)
        where
            F: Fn() -> anyhow::Result<Vec<Item>>,
            G: Fn() -> Option<Icon>,
        requires
            compute.requires(()),
            resolve_icon.requires(()),
        ensures
            exists|res: anyhow::Result<Vec<Item>>|
                {
                    &&& #[trigger] compute.ensures((), res)
                    &&& match res {
                        Ok(items) => r@ == item_views(items@),
                        Err(_) => r@.len() >= 1 && exists|icon: Option<Icon>, causes: Seq<Seq<char>>|
                            resolve_icon.ensures((), icon) && r@ == failure_items(
                                causes,
                                icon_path(icon),
                            ),
                    }
                },
    {
        let res = compute();
        match res {
            Ok(items) => Workflow::new(items),
            Err(err) => {
                let icon = resolve_icon();
                let r = Workflow::from_error(&err, icon);
                r
            },
        }
    }

    /// The JSON document: one object whose one member, `items`, lists every
    /// item in order.
    pub fn to_string(&self) -> (r: String)
        ensures
            r@ == workflow_json(self@),
    {
        let ghost want = self@.map_values(|i: ItemView| item_json(i));
        let mut elems: Vec<String> = Vec::new();
        let mut i: usize = 0;
        while i < self.items.len()
            invariant
                i <= self.items.len(),
                want == self@.map_values(|i: ItemView| item_json(i)),
                self@ == item_views(self.items@),
                texts(elems@) == want.take(i as int),
            decreases self.items.len() - i,
        {
            let t = self.items[i].to_json();
            let ghost before = elems@;
            elems.push(t);
            assert(texts(elems@) =~= texts(before).push(t@));
            assert(want.take(i + 1) =~= want.take(i as int).push(want[i as int]));
            i = i + 1;
        }
        assert(want.take(i as int) =~= want);
        let arr = array_text(&elems);
        let mut members: Vec<String> = Vec::new();
        members.push(member("\"items\"", arr.as_str()));
        assert(texts(members@) =~= workflow_members(self@).map_values(
            |m: (Seq<char>, Seq<char>)| member_text(m),
        ));
        object_text(&members)
    }
}

} // verus!
