//! A result item, the icon it may show, and how an item renders as JSON.
use vstd::prelude::*;
use crate::json::{
    bool_json, bool_text, json_quoted, member, member_text, object_json, object_text, quote, texts,
};

verus! {

/// A reference to an image file, by its path.
#[derive(Clone, Debug)]
pub struct Icon {
    pub path: String,
}

impl Icon {
    /// The icon at `path`; no check is made that a file is there.
    pub fn new(path: &str) -> (r: Icon)
        ensures
            r.path@ == path@,
    {
        Icon { path: String::from_str(path) }
    }

    /// `{"path":...}`
    pub fn to_json(&self) -> (r: String)
        ensures
            r@ == icon_json(self.path@),
    {
        let mut members: Vec<String> = Vec::new();
        let q = quote(self.path.as_str());
        members.push(member("\"path\"", q.as_str()));
        proof {
            let ms = seq![(("\"path\""@), json_quoted(self.path@))];
            assert(texts(members@) =~= ms.map_values(|m: (Seq<char>, Seq<char>)| member_text(m)));
        }
        object_text(&members)
    }
}

impl From<&str> for Icon {
    fn from(s: &str) -> Icon {
        Icon::new(s)
    }
}

impl vstd::std_specs::convert::FromSpecImpl<&str> for Icon {
    open spec fn obeys_from_spec() -> bool {
        false
    }

    open spec fn from_spec(s: &str) -> Icon {
        arbitrary()
    }
}

/// What an icon renders as.
pub open spec fn icon_json(path: Seq<char>) -> Seq<char> {
    object_json(seq![(("\"path\""@), json_quoted(path))])
}

/// The value of one result item: every field but `title` may be absent.
pub struct ItemView {
    pub uid: Option<Seq<char>>,
    pub title: Seq<char>,
    pub subtitle: Option<Seq<char>>,
    pub arg: Option<Seq<char>>,
    pub icon: Option<Seq<char>>,
    pub valid: Option<bool>,
    pub variables: Option<Seq<(Seq<char>, Seq<char>)>>,
}

impl ItemView {
    /// An item with a title and nothing else.
    pub open spec fn titled(title: Seq<char>) -> ItemView {
        ItemView {
            uid: None,
            title,
            subtitle: None,
            arg: None,
            icon: None,
            valid: None,
            variables: None,
        }
    }
}

/// No key occurs twice.
pub open spec fn keys_unique(vars: Seq<(Seq<char>, Seq<char>)>) -> bool {
    forall|i: int, j: int| 0 <= i < j < vars.len() ==> vars[i].0 != vars[j].0
}

pub open spec fn pair_views(v: Seq<(String, String)>) -> Seq<(Seq<char>, Seq<char>)> {
    v.map_values(|p: (String, String)| (p.0@, p.1@))
}

pub open spec fn quoted_or_none(v: Option<Seq<char>>) -> Option<Seq<char>> {
    match v {
        Some(s) => Some(json_quoted(s)),
        None => None,
    }
}

pub open spec fn icon_or_none(v: Option<Seq<char>>) -> Option<Seq<char>> {
    match v {
        Some(p) => Some(icon_json(p)),
        None => None,
    }
}

pub open spec fn bool_or_none(v: Option<bool>) -> Option<Seq<char>> {
    match v {
        Some(b) => Some(bool_json(b)),
        None => None,
    }
}

/// What a mapping of variables renders as: an object, one member per pair.
pub open spec fn variables_json(vars: Seq<(Seq<char>, Seq<char>)>) -> Seq<char> {
    object_json(vars.map_values(|p: (Seq<char>, Seq<char>)| (json_quoted(p.0), json_quoted(p.1))))
}

pub open spec fn variables_or_none(v: Option<Seq<(Seq<char>, Seq<char>)>>) -> Option<Seq<char>> {
    match v {
        Some(vars) => Some(variables_json(vars)),
        None => None,
    }
}

/// A member that is there only when its value is.
pub open spec fn optional(key: Seq<char>, value: Option<Seq<char>>) -> Seq<(Seq<char>, Seq<char>)> {
    match value {
        Some(v) => seq![(key, v)],
        None => Seq::empty(),
    }
}

/// The members of an item's object, in the order of its fields; absent fields
/// have no member.
pub open spec fn item_members(v: ItemView) -> Seq<(Seq<char>, Seq<char>)> {
    optional("\"uid\""@, quoted_or_none(v.uid))
        + seq![(("\"title\""@), json_quoted(v.title))]
        + optional("\"subtitle\""@, quoted_or_none(v.subtitle))
        + optional("\"arg\""@, quoted_or_none(v.arg))
        + optional("\"icon\""@, icon_or_none(v.icon))
        + optional("\"valid\""@, bool_or_none(v.valid))
        + optional("\"variables\""@, variables_or_none(v.variables))
}

/// What an item renders as.
pub open spec fn item_json(v: ItemView) -> Seq<char> {
    object_json(item_members(v))
}

proof fn lemma_add_optional(
    ms: Seq<(Seq<char>, Seq<char>)>,
    key: Seq<char>,
    value: Option<Seq<char>>,
)
    ensures
        ms + optional(key, value) == match value {
            Some(x) => ms.push((key, x)),
            None => ms,
        },
{
    match value {
        Some(x) => assert(ms + optional(key, value) =~= ms.push((key, x))),
        None => assert(ms + optional(key, value) =~= ms),
    }
}

/// Appends `key:value` to parts that render the members `ms`.
fn push_member(
    parts: &mut Vec<String>,
    Ghost(ms): Ghost<Seq<(Seq<char>, Seq<char>)>>,
    key: &str,
    value: String,
)
    requires
        texts(old(parts)@) == ms.map_values(|m: (Seq<char>, Seq<char>)| member_text(m)),
    ensures
        texts(final(parts)@) == ms.push((key@, value@)).map_values(
            |m: (Seq<char>, Seq<char>)| member_text(m),
        ),
{
    let t = member(key, value.as_str());
    let ghost before = parts@;
    parts.push(t);
    assert(texts(parts@) =~= texts(before).push(t@));
    assert(ms.push((key@, value@)).map_values(|m: (Seq<char>, Seq<char>)| member_text(m))
        =~= ms.map_values(|m: (Seq<char>, Seq<char>)| member_text(m)).push(member_text((key@, value@))));
    assert(texts(parts@) =~= ms.push((key@, value@)).map_values(
        |m: (Seq<char>, Seq<char>)| member_text(m),
    ));
}

/// The mapping as an object with one member per pair, in the stored order.
fn variables_text(vars: &Vec<(String, String)>) -> (r: String)
    ensures
        r@ == variables_json(pair_views(vars@)),
{
    let ghost target = pair_views(vars@).map_values(
        |p: (Seq<char>, Seq<char>)| (json_quoted(p.0), json_quoted(p.1)),
    );
    let mut parts: Vec<String> = Vec::new();
    let mut i: usize = 0;
    while i < vars.len()
        invariant
            i <= vars.len(),
            target.len() == vars@.len(),
            target == pair_views(vars@).map_values(
                |p: (Seq<char>, Seq<char>)| (json_quoted(p.0), json_quoted(p.1)),
            ),
            texts(parts@) == target.take(i as int).map_values(
                |m: (Seq<char>, Seq<char>)| member_text(m),
            ),
        decreases vars.len() - i,
    {
        let k = quote(vars[i].0.as_str());
        let x = quote(vars[i].1.as_str());
        push_member(&mut parts, Ghost(target.take(i as int)), k.as_str(), x);
        assert(target.take(i as int).push((k@, x@)) =~= target.take(i + 1));
        i = i + 1;
    }
    assert(target.take(i as int) =~= target);
    object_text(&parts)
}

/// One selectable result entry. Built by `new` and the chained setters.
#[derive(Clone, Debug)]
pub struct Item {
    uid: Option<String>,
    title: String,
    subtitle: Option<String>,
    arg: Option<String>,
    icon: Option<Icon>,
    valid: Option<bool>,
    variables: Option<Vec<(String, String)>>,
}

pub open spec fn string_or_none(s: Option<String>) -> Option<Seq<char>> {
    match s {
        Some(x) => Some(x@),
        None => None,
    }
}

impl View for Item {
    type V = ItemView;

    closed spec fn view(&self) -> ItemView {
        ItemView {
            uid: string_or_none(self.uid),
            title: self.title@,
            subtitle: string_or_none(self.subtitle),
            arg: string_or_none(self.arg),
            icon: match self.icon {
                Some(i) => Some(i.path@),
                None => None,
            },
            valid: self.valid,
            variables: match self.variables {
                Some(v) => Some(pair_views(v@)),
                None => None,
            },
        }
    }
}

impl Item {
    /// The well-formed items: their variables have no key twice.
    pub closed spec fn wf(&self) -> bool {
        match self.variables {
            Some(v) => keys_unique(pair_views(v@)),
            None => true,
        }
    }

    /// The item as a JSON object: its present fields, in field order.
    pub fn to_json(&self) -> (r: String)
        ensures
            r@ == item_json(self@),
    {
        let ghost v = self@;
        let mut parts: Vec<String> = Vec::new();
        let ghost mut ms: Seq<(Seq<char>, Seq<char>)> = Seq::empty();
        assert(texts(parts@) =~= ms.map_values(|m: (Seq<char>, Seq<char>)| member_text(m)));
        match &self.uid {
            Some(u) => {
                let q = quote(u.as_str());
                push_member(&mut parts, Ghost(ms), "\"uid\"", q);
            },
            None => {},
        }
        proof {
            lemma_add_optional(ms, "\"uid\""@, quoted_or_none(v.uid));
            ms = ms + optional("\"uid\""@, quoted_or_none(v.uid));
        }
        let q = quote(self.title.as_str());
        push_member(&mut parts, Ghost(ms), "\"title\"", q);
        proof {
            assert(ms + seq![(("\"title\""@), json_quoted(v.title))] =~= ms.push(
                (("\"title\""@), json_quoted(v.title)),
            ));
            ms = ms + seq![(("\"title\""@), json_quoted(v.title))];
        }
        match &self.subtitle {
            Some(x) => {
                let q = quote(x.as_str());
                push_member(&mut parts, Ghost(ms), "\"subtitle\"", q);
            },
            None => {},
        }
        proof {
            lemma_add_optional(ms, "\"subtitle\""@, quoted_or_none(v.subtitle));
            ms = ms + optional("\"subtitle\""@, quoted_or_none(v.subtitle));
        }
        match &self.arg {
            Some(x) => {
                let q = quote(x.as_str());
                push_member(&mut parts, Ghost(ms), "\"arg\"", q);
            },
            None => {},
        }
        proof {
            lemma_add_optional(ms, "\"arg\""@, quoted_or_none(v.arg));
            ms = ms + optional("\"arg\""@, quoted_or_none(v.arg));
        }
        match &self.icon {
            Some(i) => {
                let t = i.to_json();
                push_member(&mut parts, Ghost(ms), "\"icon\"", t);
            },
            None => {},
        }
        proof {
            lemma_add_optional(ms, "\"icon\""@, icon_or_none(v.icon));
            ms = ms + optional("\"icon\""@, icon_or_none(v.icon));
        }
        match self.valid {
            Some(b) => {
                let t = bool_text(b);
                push_member(&mut parts, Ghost(ms), "\"valid\"", t);
            },
            None => {},
        }
        proof {
            lemma_add_optional(ms, "\"valid\""@, bool_or_none(v.valid));
            ms = ms + optional("\"valid\""@, bool_or_none(v.valid));
        }
        match &self.variables {
            Some(vars) => {
                let t = variables_text(vars);
                push_member(&mut parts, Ghost(ms), "\"variables\"", t);
            },
            None => {},
        }
        proof {
            lemma_add_optional(ms, "\"variables\""@, variables_or_none(v.variables));
            ms = ms + optional("\"variables\""@, variables_or_none(v.variables));
        }
        assert(ms == item_members(v));
        object_text(&parts)
    }

    pub fn new(title: &str) -> (r: Item)
        ensures
            r@ == ItemView::titled(title@),
            r.wf(),
    {
        Item {
            uid: None,
            title: String::from_str(title),
            subtitle: None,
            arg: None,
            icon: None,
            valid: None,
            variables: None,
        }
    }

    pub fn uid(self, uid: &str) -> (r: Item)
        ensures
            r@ == (ItemView { uid: Some(uid@), ..self@ }),
            self.wf() ==> r.wf(),
    {
        let mut r = self;
        r.uid = Some(String::from_str(uid));
        r
    }

    pub fn subtitle(self, subtitle: &str) -> (r: Item)
        ensures
            r@ == (ItemView { subtitle: Some(subtitle@), ..self@ }),
            self.wf() ==> r.wf(),
    {
        let mut r = self;
        r.subtitle = Some(String::from_str(subtitle));
        r
    }

    pub fn arg(self, arg: &str) -> (r: Item)
        ensures
            r@ == (ItemView { arg: Some(arg@), ..self@ }),
            self.wf() ==> r.wf(),
    {
        let mut r = self;
        r.arg = Some(String::from_str(arg));
        r
    }

    pub fn icon(self, icon: Icon) -> (r: Item)
        ensures
            r@ == (ItemView { icon: Some(icon.path@), ..self@ }),
            self.wf() ==> r.wf(),
    {
        let mut r = self;
        r.icon = Some(icon);
        r
    }

    pub fn valid(self, valid: bool) -> (r: Item)
        ensures
            r@ == (ItemView { valid: Some(valid), ..self@ }),
            self.wf() ==> r.wf(),
    {
        let mut r = self;
        r.valid = Some(valid);
        r
    }

    /// Stores the mapping, which the item then owns: the caller keeps no
    /// handle on it.
    pub fn variables(self, variables: Vec<(String, String)>) -> (r: Item)
        requires
            keys_unique(pair_views(variables@)),
        ensures
            r@ == (ItemView { variables: Some(pair_views(variables@)), ..self@ }),
            r.wf(),
    {
        let mut r = self;
        r.variables = Some(variables);
        r
    }
}

} // verus!
