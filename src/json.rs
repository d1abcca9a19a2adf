//! The JSON text that this library emits, as spec functions, and the
//! executable pieces that build it.
use vstd::prelude::*;

verus! {

/// The JSON string literal for a sequence of characters, quotes and escapes
/// included, as serde_json writes it.
pub uninterp spec fn json_quoted(s: Seq<char>) -> Seq<char>;

/// Relies on `serde_json::to_string` applied to a `str`: it yields the JSON
/// string literal of `s`. For a `str` the serializer writes into an in-memory
/// buffer, whose writes do not fail, so the `Err` arm is never taken.
#[verifier::external_body]
pub(crate) fn quote(s: &str) -> (r: String)
    ensures
        r@ == json_quoted(s@),
{
    match serde_json::to_string(s) {
        Ok(q) => q,
        Err(_) => String::new(),
    }
}

/// The parts separated by single commas.
pub open spec fn joined(parts: Seq<Seq<char>>) -> Seq<char>
    decreases parts.len(),
{
    if parts.len() == 0 {
        Seq::empty()
    } else if parts.len() == 1 {
        parts[0]
    } else {
        joined(parts.drop_last()) + ","@ + parts.last()
    }
}

/// One member of an object: its rendered key and its rendered value.
pub open spec fn member_text(m: (Seq<char>, Seq<char>)) -> Seq<char> {
    m.0 + ":"@ + m.1
}

/// An object with the given members, in the given order.
pub open spec fn object_json(members: Seq<(Seq<char>, Seq<char>)>) -> Seq<char> {
    "{"@ + joined(members.map_values(|m: (Seq<char>, Seq<char>)| member_text(m))) + "}"@
}

/// An array with the given rendered elements, in the given order.
pub open spec fn array_json(elems: Seq<Seq<char>>) -> Seq<char> {
    "["@ + joined(elems) + "]"@
}

pub open spec fn bool_json(b: bool) -> Seq<char> {
    if b {
        "true"@
    } else {
        "false"@
    }
}

pub open spec fn texts(v: Seq<String>) -> Seq<Seq<char>> {
    v.map_values(|s: String| s@)
}

proof fn lemma_joined_step(parts: Seq<Seq<char>>, i: int)
    requires
        0 < i < parts.len(),
    ensures
        joined(parts.take(i + 1)) == joined(parts.take(i)) + ","@ + parts[i],
{
    assert(parts.take(i + 1).drop_last() =~= parts.take(i));
}

/// The strings of `parts` separated by single commas.
pub(crate) fn join_texts(parts: &Vec<String>) -> (r: String)
    ensures
        r@ == joined(texts(parts@)),
{
    let ghost all = texts(parts@);
    let mut out = String::new();
    let mut i: usize = 0;
    while i < parts.len()
        invariant
            i <= parts.len(),
            all == texts(parts@),
            out@ == joined(all.take(i as int)),
        decreases parts.len() - i,
    {
        if i == 0 {
            assert(all.take(1) =~= seq![all[0]]);
        } else {
            out.append(",");
            proof {
                lemma_joined_step(all, i as int);
            }
        }
        out.append(parts[i].as_str());
        i = i + 1;
    }
    assert(all.take(i as int) =~= all);
    out
}

/// `key:value` for a rendered key and value.
pub(crate) fn member(key: &str, value: &str) -> (r: String)
    ensures
        r@ == member_text((key@, value@)),
{
    let mut out = String::from_str(key);
    out.append(":");
    out.append(value);
    out
}

/// `{` + the comma-separated rendered members + `}`.
pub(crate) fn object_text(members: &Vec<String>) -> (r: String)
    ensures
        r@ == "{"@ + joined(texts(members@)) + "}"@,
{
    let mut out = String::from_str("{");
    let inner = join_texts(members);
    out.append(inner.as_str());
    out.append("}");
    out
}

/// `[` + the comma-separated rendered elements + `]`.
pub(crate) fn array_text(elems: &Vec<String>) -> (r: String)
    ensures
        r@ == array_json(texts(elems@)),
{
    let mut out = String::from_str("[");
    let inner = join_texts(elems);
    out.append(inner.as_str());
    out.append("]");
    out
}

pub(crate) fn bool_text(b: bool) -> (r: String)
    ensures
        r@ == bool_json(b),
{
    if b {
        String::from_str("true")
    } else {
        String::from_str("false")
    }
}

} // verus!
