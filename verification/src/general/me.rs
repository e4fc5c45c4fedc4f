//! The `me` command: the asking player's profile.
use vstd::prelude::*;
use crate::embed::{Embed, EmbedView};
use crate::smmo::smmo_player::SmmoPlayer;
use crate::time::{ClockError, Timestamp};
use crate::to_embed::ToEmbed;

verus! {

/// The answer to a player the bot does not know.
pub open spec fn unknown_player_view() -> EmbedView {
    EmbedView::empty().with_title("Who are you?"@).with_description(
        "I don't know who you are! Send `$myid <your smmo id>` to identify yourself."@,
    )
}

/// The answer to `me`: the player's profile when the bot knows who is
/// asking, with the clock read as `now`; a request to identify otherwise.
pub open spec fn me_view(player: Option<SmmoPlayer>, now: Timestamp) -> EmbedView {
    match player {
        Some(p) => p.embed_view(EmbedView::empty(), now),
        None => unknown_player_view(),
    }
}

/// The answer to `me`, given the profile of the player asking if the bot
/// knows them. Fails only where the clock cannot be read for a player whose
/// safe mode runs out.
pub fn me_embed(player: &Option<SmmoPlayer>) -> (r: Result<Embed, ClockError>)
    requires
        player matches Some(p) ==> p.safe_mode_time_ok(),
    ensures
        r matches Ok(e) ==> exists|now: Timestamp| now.wf() && e@ == me_view(*player, now),
        r is Err ==> (player matches Some(p) && p.safe_mode && p.safe_mode_time is Some),
{
    let mut e = Embed::new();
    match player {
        Some(p) => {
            match p.to_embed(&mut e) {
                Ok(()) => {},
                Err(err) => {
                    return Err(err);
                },
            }
            proof {
                let now = choose|now: Timestamp| now.wf() && e@ == p.embed_view(EmbedView::empty(), now);
                assert(now.wf() && e@ == me_view(*player, now));
                assert(exists|now: Timestamp| now.wf() && e@ == me_view(*player, now));
            }
        },
        None => {
            e.title("Who are you?".to_string());
            e.description(
                "I don't know who you are! Send `$myid <your smmo id>` to identify yourself.".to_string(),
            );
            let ghost epoch = Timestamp { secs: 0, nanos: 0 };
            assert(epoch.wf() && e@ == me_view(*player, epoch));
            assert(exists|now: Timestamp| now.wf() && e@ == me_view(*player, now));
        },
    }
    Ok(e)
}

} // verus!
