//! Properties that hold of every item, every workflow and every cache lookup.
use vstd::prelude::*;
use crate::cache::{CacheAction, CacheError, CacheEvent, CachePhase, path_joined, step_spec};
use crate::item::{
    ItemView, optional, bool_or_none, icon_or_none, item_json, item_members, quoted_or_none,
    variables_or_none,
};
use crate::json::{array_json, json_quoted};
use crate::workflow::workflow_members;

verus! {

/// Some member of `ms` has the key `key`.
pub open spec fn has_key(ms: Seq<(Seq<char>, Seq<char>)>, key: Seq<char>) -> bool {
    exists|i: int| 0 <= i < ms.len() && ms[i].0 == key
}

/// The member with the key `key` is `(key, value)` when `value` is there, and
/// no member has that key when it is not.
pub open spec fn renders_field(
    ms: Seq<(Seq<char>, Seq<char>)>,
    key: Seq<char>,
    value: Option<Seq<char>>,
) -> bool {
    match value {
        Some(x) => ms.contains((key, x)),
        None => !has_key(ms, key),
    }
}

/// An item with only a title renders as an object with the one member
/// `title`.
pub proof fn title_only_item_has_one_member(title: Seq<char>)
    ensures
        item_members(ItemView::titled(title)) == seq![(("\"title\""@), json_quoted(title))],
        item_json(ItemView::titled(title)) == "{"@ + "\"title\""@ + ":"@ + json_quoted(title)
            + "}"@,
{
    let ms = item_members(ItemView::titled(title));
    assert(ms =~= seq![(("\"title\""@), json_quoted(title))]);
    let texts = ms.map_values(|m: (Seq<char>, Seq<char>)| crate::json::member_text(m));
    assert(texts =~= seq!["\"title\""@ + ":"@ + json_quoted(title)]);
}

proof fn field_keys_differ()
    ensures
        "\"uid\""@ != "\"title\""@,
        "\"uid\""@ != "\"subtitle\""@,
        "\"uid\""@ != "\"arg\""@,
        "\"uid\""@ != "\"icon\""@,
        "\"uid\""@ != "\"valid\""@,
        "\"uid\""@ != "\"variables\""@,
        "\"title\""@ != "\"subtitle\""@,
        "\"title\""@ != "\"arg\""@,
        "\"title\""@ != "\"icon\""@,
        "\"title\""@ != "\"valid\""@,
        "\"title\""@ != "\"variables\""@,
        "\"subtitle\""@ != "\"arg\""@,
        "\"subtitle\""@ != "\"icon\""@,
        "\"subtitle\""@ != "\"valid\""@,
        "\"subtitle\""@ != "\"variables\""@,
        "\"arg\""@ != "\"icon\""@,
        "\"arg\""@ != "\"valid\""@,
        "\"arg\""@ != "\"variables\""@,
        "\"icon\""@ != "\"valid\""@,
        "\"icon\""@ != "\"variables\""@,
        "\"valid\""@ != "\"variables\""@,
{
    reveal_strlit("\"uid\"");
    reveal_strlit("\"title\"");
    reveal_strlit("\"subtitle\"");
    reveal_strlit("\"arg\"");
    reveal_strlit("\"icon\"");
    reveal_strlit("\"valid\"");
    reveal_strlit("\"variables\"");
    assert("\"uid\""@.len() == 5);
    assert("\"arg\""@.len() == 5);
    assert("\"icon\""@.len() == 6);
    assert("\"title\""@.len() == 7);
    assert("\"valid\""@.len() == 7);
    assert("\"subtitle\""@.len() == 10);
    assert("\"variables\""@.len() == 11);
    assert("\"uid\""@[1] != "\"arg\""@[1]);
    assert("\"title\""@[1] != "\"valid\""@[1]);
}

proof fn lemma_has_key_add(
    a: Seq<(Seq<char>, Seq<char>)>,
    b: Seq<(Seq<char>, Seq<char>)>,
    key: Seq<char>,
)
    ensures
        has_key(a + b, key) == (has_key(a, key) || has_key(b, key)),
{
    if has_key(a + b, key) {
        let i = choose|i: int| 0 <= i < (a + b).len() && (a + b)[i].0 == key;
        if i >= a.len() {
            assert(b[i - a.len()].0 == key);
        }
    }
    if has_key(b, key) {
        let j = choose|j: int| 0 <= j < b.len() && b[j].0 == key;
        assert((a + b)[a.len() + j].0 == key);
    }
    if has_key(a, key) {
        let j = choose|j: int| 0 <= j < a.len() && a[j].0 == key;
        assert((a + b)[j].0 == key);
    }
}

proof fn lemma_contains_add(
    a: Seq<(Seq<char>, Seq<char>)>,
    b: Seq<(Seq<char>, Seq<char>)>,
    m: (Seq<char>, Seq<char>),
)
    ensures
        a.contains(m) || b.contains(m) ==> (a + b).contains(m),
{
    if a.contains(m) {
        let j = choose|j: int| 0 <= j < a.len() && a[j] == m;
        assert((a + b)[j] == m);
    }
    if b.contains(m) {
        let j = choose|j: int| 0 <= j < b.len() && b[j] == m;
        assert((a + b)[a.len() + j] == m);
    }
}

proof fn lemma_optional_keys(k: Seq<char>, value: Option<Seq<char>>)
    ensures
        forall|key: Seq<char>|
            #[trigger] has_key(optional(k, value), key) == (value is Some && k == key),
        value matches Some(x) ==> optional(k, value).contains((k, x)),
{
    if value is Some {
        assert(optional(k, value)[0].0 == k);
        assert(optional(k, value)[0] == (k, value->0));
    }
}

/// Every optional field that is set renders as a member with its key and
/// its value, and every field that is not set has no member at all; the
/// title is always there.
pub proof fn fields_render_iff_set(v: ItemView)
    ensures
        renders_field(item_members(v), "\"uid\""@, quoted_or_none(v.uid)),
        item_members(v).contains((("\"title\""@), json_quoted(v.title))),
        renders_field(item_members(v), "\"subtitle\""@, quoted_or_none(v.subtitle)),
        renders_field(item_members(v), "\"arg\""@, quoted_or_none(v.arg)),
        renders_field(item_members(v), "\"icon\""@, icon_or_none(v.icon)),
        renders_field(item_members(v), "\"valid\""@, bool_or_none(v.valid)),
        renders_field(item_members(v), "\"variables\""@, variables_or_none(v.variables)),
{
    field_keys_differ();
    let s0 = optional("\"uid\""@, quoted_or_none(v.uid));
    let s1 = optional("\"title\""@, Some(json_quoted(v.title)));
    let s2 = optional("\"subtitle\""@, quoted_or_none(v.subtitle));
    let s3 = optional("\"arg\""@, quoted_or_none(v.arg));
    let s4 = optional("\"icon\""@, icon_or_none(v.icon));
    let s5 = optional("\"valid\""@, bool_or_none(v.valid));
    let s6 = optional("\"variables\""@, variables_or_none(v.variables));
    let to_title = s0 + s1;
    let to_subtitle = to_title + s2;
    let to_arg = to_subtitle + s3;
    let to_icon = to_arg + s4;
    let to_valid = to_icon + s5;
    let ms = to_valid + s6;
    assert(s1 == seq![(("\"title\""@), json_quoted(v.title))]);
    assert(ms == item_members(v));
    assert forall|key: Seq<char>|
        has_key(ms, key) == (has_key(s0, key) || has_key(s1, key) || has_key(s2, key) || has_key(
            s3,
            key,
        ) || has_key(s4, key) || has_key(s5, key) || has_key(s6, key)) by {
        lemma_has_key_add(s0, s1, key);
        lemma_has_key_add(to_title, s2, key);
        lemma_has_key_add(to_subtitle, s3, key);
        lemma_has_key_add(to_arg, s4, key);
        lemma_has_key_add(to_icon, s5, key);
        lemma_has_key_add(to_valid, s6, key);
    }
    assert forall|m: (Seq<char>, Seq<char>)|
        s0.contains(m) || s1.contains(m) || s2.contains(m) || s3.contains(m) || s4.contains(m)
            || s5.contains(m) || s6.contains(m) implies ms.contains(m) by {
        lemma_contains_add(s0, s1, m);
        lemma_contains_add(to_title, s2, m);
        lemma_contains_add(to_subtitle, s3, m);
        lemma_contains_add(to_arg, s4, m);
        lemma_contains_add(to_icon, s5, m);
        lemma_contains_add(to_valid, s6, m);
    }
    lemma_optional_keys("\"uid\""@, quoted_or_none(v.uid));
    lemma_optional_keys("\"title\""@, Some(json_quoted(v.title)));
    lemma_optional_keys("\"subtitle\""@, quoted_or_none(v.subtitle));
    lemma_optional_keys("\"arg\""@, quoted_or_none(v.arg));
    lemma_optional_keys("\"icon\""@, icon_or_none(v.icon));
    lemma_optional_keys("\"valid\""@, bool_or_none(v.valid));
    lemma_optional_keys("\"variables\""@, variables_or_none(v.variables));
}

/// A workflow renders as one object with the one member `items`, whose array
/// has one element per item, each the item's own rendering, in the same
/// order.
pub proof fn workflow_keeps_items_in_order(items: Seq<ItemView>)
    ensures
        workflow_members(items).len() == 1,
        workflow_members(items)[0].0 == "\"items\""@,
        exists|elems: Seq<Seq<char>>|
            {
                &&& workflow_members(items)[0].1 == array_json(elems)
                &&& elems.len() == items.len()
                &&& forall|i: int| 0 <= i < items.len() ==> elems[i] == item_json(items[i])
            },
{
    let elems = items.map_values(|i: ItemView| item_json(i));
    assert(workflow_members(items)[0].1 == array_json(elems));
}

/// `actions` is what a lookup of `name` asks for when it starts in `phases[0]`
/// and observes `events` in turn, passing through `phases`.
pub open spec fn cache_run(
    name: Seq<char>,
    events: Seq<CacheEvent>,
    phases: Seq<CachePhase>,
    actions: Seq<CacheAction>,
) -> bool {
    &&& phases.len() == events.len() + 1
    &&& actions.len() == events.len()
    &&& forall|i: int|
        0 <= i < events.len() ==> step_spec(
            name,
            #[trigger] phases[i],
            events[i],
            phases[i + 1],
            actions[i],
        )
}

/// The phases from which no producer will be asked for again.
pub open spec fn past_producing(p: CachePhase) -> bool {
    p is Producing || p is Writing || p is Finished
}

/// A lookup asks for the producer only when the entry's file was found
/// missing, and then waits for what it produced.
pub proof fn producer_runs_only_on_a_miss(
    name: Seq<char>,
    p: CachePhase,
    e: CacheEvent,
    q: CachePhase,
    a: CacheAction,
)
    requires
        step_spec(name, p, e, q, a),
        a is Produce,
    ensures
        p is CheckingEntry,
        e == CacheEvent::FileExists(false),
        q is Producing,
{
}

proof fn lemma_stays_past_producing(name: Seq<char>, p: CachePhase, e: CacheEvent, q: CachePhase, a: CacheAction)
    requires
        step_spec(name, p, e, q, a),
        past_producing(p),
    ensures
        past_producing(q),
        !(a is Produce),
{
}

/// Whatever a lookup observes, it asks for the producer at most once.
pub proof fn producer_runs_at_most_once(
    name: Seq<char>,
    events: Seq<CacheEvent>,
    phases: Seq<CachePhase>,
    actions: Seq<CacheAction>,
    i: int,
    j: int,
)
    requires
        cache_run(name, events, phases, actions),
        0 <= i < j < actions.len(),
        actions[i] is Produce,
    ensures
        !(actions[j] is Produce),
{
    assert(step_spec(name, phases[i], events[i], phases[i + 1], actions[i]));
    lemma_past_producing_holds(name, events, phases, actions, i + 1, j);
}

proof fn lemma_past_producing_holds(
    name: Seq<char>,
    events: Seq<CacheEvent>,
    phases: Seq<CachePhase>,
    actions: Seq<CacheAction>,
    i: int,
    k: int,
)
    requires
        cache_run(name, events, phases, actions),
        0 <= i <= k < actions.len(),
        past_producing(phases[i]),
    ensures
        past_producing(phases[k]),
        !(actions[k] is Produce),
    decreases k - i,
{
    if k > i {
        lemma_past_producing_holds(name, events, phases, actions, i, k - 1);
        assert(step_spec(name, phases[k - 1], events[k - 1], phases[k], actions[k - 1]));
        lemma_stays_past_producing(name, phases[k - 1], events[k - 1], phases[k], actions[k - 1]);
    }
    assert(step_spec(name, phases[k], events[k], phases[k + 1], actions[k]));
    lemma_stays_past_producing(name, phases[k], events[k], phases[k + 1], actions[k]);
}

/// When the entry's file is there, the lookup ends with its path and the
/// producer is not asked for.
pub proof fn hit_returns_the_entry(
    name: Seq<char>,
    path: String,
    q: CachePhase,
    a: CacheAction,
)
    requires
        step_spec(name, CachePhase::CheckingEntry(path), CacheEvent::FileExists(true), q, a),
    ensures
        a == CacheAction::Finish(Ok(path)),
        q is Finished,
{
}

/// What a lookup writes is exactly what the producer returned, at the path
/// that it looked at.
pub proof fn writes_what_was_produced(
    name: Seq<char>,
    path: String,
    bytes: Vec<u8>,
    q: CachePhase,
    a: CacheAction,
)
    requires
        step_spec(name, CachePhase::Producing(path), CacheEvent::Produced(Ok(bytes)), q, a),
    ensures
        a == CacheAction::WriteFile(path, bytes),
{
}

/// Two lookups of one name under one root look at the same file.
pub proof fn same_name_same_entry(
    name: Seq<char>,
    phase_a: CachePhase,
    event_a: CacheEvent,
    next_a: CachePhase,
    path_a: String,
    phase_b: CachePhase,
    event_b: CacheEvent,
    next_b: CachePhase,
    path_b: String,
)
    requires
        step_spec(name, phase_a, event_a, next_a, CacheAction::CheckFile(path_a)),
        step_spec(name, phase_b, event_b, next_b, CacheAction::CheckFile(path_b)),
        root_of(phase_a) == root_of(phase_b),
    ensures
        path_a@ == path_b@,
{
}

/// The directory that a lookup in phase `p` is checking or creating.
pub open spec fn root_of(p: CachePhase) -> Option<Seq<char>> {
    match p {
        CachePhase::CheckingRoot(r) => Some(r@),
        CachePhase::CreatingRoot(r) => Some(r@),
        _ => None,
    }
}

/// An unset cache root ends the lookup with a configuration error.
pub proof fn unset_root_is_configuration_error(name: Seq<char>, q: CachePhase, a: CacheAction)
    requires
        step_spec(name, CachePhase::ReadingRoot, CacheEvent::RootVar(None), q, a),
    ensures
        a == CacheAction::Finish(Err(CacheError::Configuration)),
{
}

/// A lookup turns to its entry only once the root directory was found to
/// exist or was created, and the entry lies under that directory.
pub proof fn entries_only_under_a_ready_root(
    name: Seq<char>,
    p: CachePhase,
    e: CacheEvent,
    q: CachePhase,
    path: String,
)
    requires
        step_spec(name, p, e, q, CacheAction::CheckFile(path)),
    ensures
        (p is CheckingRoot && e matches CacheEvent::DirExists(true)) || (p is CreatingRoot
            && e matches CacheEvent::DirCreated(Ok(_))),
        root_of(p) matches Some(root) && path@ == path_joined(root, name),
{
}

} // verus!
