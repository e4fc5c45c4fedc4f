//! The `search` command: items whose name matches.
use vstd::prelude::*;
use crate::embed::{field_view, fields_view, Embed, EmbedView};
use crate::models::Item;

verus! {

/// The most results one answer shows.
pub const MAX_RESULTS: usize = 25;

/// One field per matching item, up to the first `MAX_RESULTS`: its name and
/// its rarity.
pub open spec fn search_view(items: Seq<Item>) -> EmbedView {
    let n: int = if items.len() < MAX_RESULTS { items.len() as int } else { MAX_RESULTS as int };
    EmbedView::empty().with_fields(
        Seq::new(n as nat, |i: int| (items[i].name@, items[i].rarity_name@, true)),
    )
}

/// The answer to `search`, given the matching items in the order found.
pub fn search_embed(items: &Vec<Item>) -> (e: Embed)
    ensures
        e@ == search_view(items@),
{
    let n: usize = if items.len() < MAX_RESULTS { items.len() } else { MAX_RESULTS };
    let mut fs: Vec<(String, String, bool)> = Vec::new();
    let mut i: usize = 0;
    while i < n
        invariant
            n <= items.len(),
            i <= n,
            fs.len() == i,
            forall|j: int| 0 <= j < i ==> #[trigger] field_view(fs@[j]) == (items@[j].name@, items@[j].rarity_name@, true),
        decreases n - i,
    {
        let f = items[i].field();
        fs.push(f);
        i = i + 1;
    }
    let ghost added = fs@;
    let mut e = Embed::new();
    e.fields(fs);
    assert(fields_view(added) =~= Seq::new(n as nat, |i: int| (items@[i].name@, items@[i].rarity_name@, true)));
    assert(e@.fields =~= search_view(items@).fields);
    e
}

} // verus!
