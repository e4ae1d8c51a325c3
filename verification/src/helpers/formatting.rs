use vstd::prelude::*;
use vstd::string::*;

verus! {

/// The text that `{:?}` formatting gives for a string: the string between
/// double quotes, with its special characters escaped.
pub uninterp spec fn debug_text_of(text: Seq<char>) -> Seq<char>;

/// Formats a string with `std::fmt::Debug` for `str`, through `format!`.
/// Claims only that the result depends on nothing but the text.
#[verifier::external_body]
fn debug_str(text: &str) -> (quoted: String)
    ensures
        quoted@ == debug_text_of(text@),
{
    format!("{:?}", text)
}

/// Writes a string as `{:?}` formatting does.
pub fn debug_text(text: &str) -> (quoted: String)
    ensures
        quoted@ == debug_text_of(text@),
{
    debug_str(text)
}

/// How a truth value is written.
pub open spec fn bool_text(value: bool) -> Seq<char> {
    if value {
        "true"@
    } else {
        "false"@
    }
}

/// Writes a truth value as `true` or `false`.
pub fn write_bool(value: bool) -> (text: String)
    ensures
        text@ == bool_text(value),
{
    if value {
        String::from_str("true")
    } else {
        String::from_str("false")
    }
}

/// How an optional value is written, given the text of the value.
pub open spec fn optional_text(value: Option<Seq<char>>) -> Seq<char> {
    match value {
        Some(text) => "Some("@ + text + ")"@,
        None => "None"@,
    }
}

/// Writes an optional value, given the text of the value.
pub fn write_optional(value: Option<String>) -> (text: String)
    ensures
        text@ == optional_text(value.deep_view()),
{
    match value {
        Some(inner) => {
            let mut text = String::from_str("Some(");
            text.append(inner.as_str());
            text.append(")");
            text
        },
        None => String::from_str("None"),
    }
}

/// How an optional string is written by `{:?}` formatting.
pub open spec fn optional_debug_text(value: Option<Seq<char>>) -> Seq<char> {
    optional_text(
        match value {
            Some(text) => Some(debug_text_of(text)),
            None => None,
        },
    )
}

/// Writes an optional string as `{:?}` formatting does.
pub fn debug_optional_text(value: &Option<String>) -> (text: String)
    ensures
        text@ == optional_debug_text(value.deep_view()),
{
    match value {
        Some(inner) => write_optional(Some(debug_text(inner.as_str()))),
        None => write_optional(None),
    }
}

/// The parts one after the other, with the separator between each two.
pub open spec fn joined(parts: Seq<Seq<char>>, separator: Seq<char>) -> Seq<char>
    decreases parts.len(),
{
    if parts.len() == 0 {
        Seq::empty()
    } else if parts.len() == 1 {
        parts[0]
    } else {
        joined(parts.drop_last(), separator) + separator + parts.last()
    }
}

/// Writes the parts one after the other, with the separator between each
/// two.
pub fn join_texts(parts: &Vec<String>, separator: &str) -> (text: String)
    ensures
        text@ == joined(parts.deep_view(), separator@),
{
    let ghost all = parts.deep_view();
    let mut text = String::new();
    let mut i: usize = 0;
    proof {
        assert(all.take(0) =~= Seq::<Seq<char>>::empty());
    }
    while i < parts.len()
        invariant
            i <= parts.len(),
            all == parts.deep_view(),
            text@ == joined(all.take(i as int), separator@),
        decreases parts.len() - i,
    {
        let ghost before = text@;
        if i > 0 {
            text.append(separator);
        }
        text.append(parts[i].as_str());
        proof {
            let next = all.take(i + 1);
            assert(next.drop_last() =~= all.take(i as int));
            assert(next.last() == parts[i as int]@);
            if i == 0 {
                assert(next[0] == parts[0]@);
                assert(text@ =~= parts[0]@);
            } else {
                assert(text@ =~= before + separator@ + parts[i as int]@);
            }
        }
        i = i + 1;
    }
    proof {
        assert(all.take(parts.len() as int) =~= all);
    }
    text
}

/// How a list is written, given the texts of its items: between square
/// brackets, separated by a comma and a space.
pub open spec fn list_text(items: Seq<Seq<char>>) -> Seq<char> {
    "["@ + joined(items, ", "@) + "]"@
}

/// Writes a list, given the texts of its items.
pub fn write_list(items: &Vec<String>) -> (text: String)
    ensures
        text@ == list_text(items.deep_view()),
{
    let inner = join_texts(items, ", ");
    let mut text = String::from_str("[");
    text.append(inner.as_str());
    text.append("]");
    text
}

/// How a list of strings is written by `{:?}` formatting.
pub open spec fn list_debug_text(items: Seq<Seq<char>>) -> Seq<char> {
    list_text(items.map_values(|item: Seq<char>| debug_text_of(item)))
}

/// Writes a list of strings as `{:?}` formatting does.
pub fn debug_list(items: &Vec<String>) -> (text: String)
    ensures
        text@ == list_debug_text(items.deep_view()),
{
    let ghost wanted = items.deep_view().map_values(|item: Seq<char>| debug_text_of(item));
    let mut parts: Vec<String> = Vec::new();
    let mut i: usize = 0;
    while i < items.len()
        invariant
            i <= items.len(),
            wanted == items.deep_view().map_values(|item: Seq<char>| debug_text_of(item)),
            parts.len() == i,
            forall|k: int| 0 <= k < i ==> (#[trigger] parts[k])@ == wanted[k],
        decreases items.len() - i,
    {
        parts.push(debug_text(items[i].as_str()));
        i = i + 1;
    }
    proof {
        assert(parts.deep_view() =~= wanted);
    }
    write_list(&parts)
}

} // verus!
