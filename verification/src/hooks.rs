//! What the bot answers when a command fails.
use vstd::prelude::*;
use crate::embed::{Embed, EmbedView};

verus! {

/// The answer to a failed command whose error reads `err`.
pub open spec fn command_error_view(err: Seq<char>) -> EmbedView {
    EmbedView::empty().with_title("Uh-oh!"@).with_description("Something went wrong!\n\nError: "@ + err)
}

/// The answer to a failed command, given its error's text.
pub fn command_error_embed(err: &str) -> (e: Embed)
    ensures
        e@ == command_error_view(err@),
{
    let mut e = Embed::new();
    e.title("Uh-oh!".to_string());
    let mut d = "Something went wrong!\n\nError: ".to_string();
    d.append(err);
    e.description(d);
    e
}

} // verus!
