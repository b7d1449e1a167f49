//! Tag maps and their rendering as `k1,k2:v2,k3`.

use indexmap::IndexMap;
use vstd::prelude::*;
use vstd::string::StringExecFns;

verus! {

/// `indexmap::IndexMap`, taken as an opaque value.
#[verifier::external_type_specification]
#[verifier::external_body]
#[verifier::reject_recursive_types(K)]
#[verifier::reject_recursive_types(V)]
#[verifier::reject_recursive_types(S)]
pub struct ExIndexMap<K, V, S>(IndexMap<K, V, S>);

/// The entries of a tag map, in the order in which the map keeps them.
pub uninterp spec fn tag_entries(tags: IndexMap<String, Option<String>>) -> Seq<
    (Seq<char>, Option<Seq<char>>),
>;

/// What an optional tag map holds, if there is one.
pub open spec fn optional_tag_entries(tags: Option<IndexMap<String, Option<String>>>) -> Option<
    Seq<(Seq<char>, Option<Seq<char>>)>,
> {
    match tags {
        Some(t) => Some(tag_entries(t)),
        None => None,
    }
}

/// `IndexMap::len`: the number of entries the map holds.
#[verifier::external_body]
fn tag_count(tags: &IndexMap<String, Option<String>>) -> (count: usize)
    ensures
        count == tag_entries(*tags).len(),
{
    tags.len()
}

/// `IndexMap::get_index`: the entry at a position of the map's order, and
/// `None` exactly when the position is not below the number of entries.
#[verifier::external_body]
fn tag_at(tags: &IndexMap<String, Option<String>>, index: usize) -> (entry: Option<
    (&String, &Option<String>),
>)
    ensures
        entry is Some <==> index < tag_entries(*tags).len(),
        entry matches Some(e) ==> (e.0@, e.1.deep_view()) == tag_entries(*tags)[index as int],
{
    tags.get_index(index)
}

/// One tag on the wire: the key alone, or `key:value`.
pub open spec fn tag_text(entry: (Seq<char>, Option<Seq<char>>)) -> Seq<char> {
    match entry.1 {
        Some(value) => entry.0 + ":"@ + value,
        None => entry.0,
    }
}

/// The tags on the wire: each entry rendered by [`tag_text`], in order, with a
/// comma between neighbours and none at either end.
pub open spec fn tags_text(entries: Seq<(Seq<char>, Option<Seq<char>>)>) -> Seq<char>
    decreases entries.len(),
{
    if entries.len() == 0 {
        Seq::empty()
    } else if entries.len() == 1 {
        tag_text(entries[0])
    } else {
        tags_text(entries.drop_last()) + ","@ + tag_text(entries.last())
    }
}

/// Rendering keeps the order of the entries: the tags of one run of entries
/// followed by another are the tags of the first run, a comma, and the tags of
/// the second; an empty run adds nothing, not even a comma.
pub proof fn lemma_tags_text_concat(
    first: Seq<(Seq<char>, Option<Seq<char>>)>,
    second: Seq<(Seq<char>, Option<Seq<char>>)>,
)
    ensures
        tags_text(first + second) == if first.len() == 0 {
            tags_text(second)
        } else if second.len() == 0 {
            tags_text(first)
        } else {
            tags_text(first) + ","@ + tags_text(second)
        },
    decreases second.len(),
{
    if first.len() > 0 && second.len() > 0 {
        assert((first + second).drop_last() =~= first + second.drop_last());
        lemma_tags_text_concat(first, second.drop_last());
    }
}

/// Renders one tag.
pub fn format_tag(key: &String, value: &Option<String>) -> (text: String)
    ensures
        text@ == tag_text((key@, value.deep_view())),
{
    let mut text = key.clone();
    match value {
        Some(v) => {
            text.append(":");
            text.append(v.as_str());
        },
        None => {},
    }
    text
}

/// Renders a tag map, entry by entry in the map's order.
pub fn format_tags(tags: &IndexMap<String, Option<String>>) -> (text: String)
    ensures
        text@ == tags_text(tag_entries(*tags)),
{
    let count = tag_count(tags);
    let mut text = String::new();
    let mut index: usize = 0;
    while index < count
        invariant
            count == tag_entries(*tags).len(),
            index <= count,
            text@ == tags_text(tag_entries(*tags).take(index as int)),
        decreases count - index,
    {
        let ghost before = tag_entries(*tags).take(index as int);
        let ghost after = tag_entries(*tags).take(index + 1);
        proof {
            assert(after.drop_last() =~= before);
        }
        match tag_at(tags, index) {
            Some((key, value)) => {
                if index > 0 {
                    text.append(",");
                }
                let tag = format_tag(key, value);
                text.append(tag.as_str());
            },
            None => {},
        }
        index += 1;
    }
    assert(tag_entries(*tags).take(count as int) =~= tag_entries(*tags));
    text
}

} // verus!
