//! A SimpleMMO player and the text shown for them.
use vstd::prelude::*;
use crate::text::{nat_decimal, push_u64};
use crate::embed::{field_view, Embed, EmbedView};
use crate::smmo::SmmoModel;
use crate::time::{ClockError, Timestamp};

verus! {

/// A player's guild.
pub struct SmmoPlayerGuild {
    pub id: u32,
    pub name: String,
}

/// A player as the API describes them.
pub struct SmmoPlayer {
    pub id: u32,
    pub name: String,
    pub level: u32,
    pub motto: String,
    pub profile_number: String,
    pub exp: u32,
    pub gold: u32,
    pub steps: u32,
    pub npc_kills: u32,
    pub user_kills: u32,
    pub quests_complete: u32,
    pub dex: u32,
    pub def: u32,
    pub str: u32,
    pub bonus_dex: u32,
    pub bonus_def: u32,
    pub bonus_str: u32,
    pub hp: u32,
    pub max_hp: u32,
    pub safe_mode: bool,
    /// When safe mode was entered, if it runs out.
    pub safe_mode_time: Option<Timestamp>,
    pub background: u32,
    pub membership: u32,
    pub guild: Option<SmmoPlayerGuild>,
}

impl SmmoPlayer {
    /// "Level: `level`\nGold: `gold`".
    pub open spec fn general_text(&self) -> Seq<char> {
        "Level: "@ + nat_decimal(self.level as nat) + "\nGold: "@ + nat_decimal(self.gold as nat)
    }

    /// Each base stat with its bonus, one per line.
    pub open spec fn stats_text(&self) -> Seq<char> {
        "str: "@ + nat_decimal(self.str as nat) + " (+ "@ + nat_decimal(self.bonus_str as nat) + " bonus)\ndef: "@
            + nat_decimal(self.def as nat) + " (+ "@ + nat_decimal(self.bonus_def as nat) + " bonus)\ndex: "@
            + nat_decimal(self.dex as nat) + " (+ "@ + nat_decimal(self.bonus_dex as nat) + " bonus)\n"@
    }

    /// The level and gold text.
    pub fn general(&self) -> (r: String)
        ensures
            r@ == self.general_text(),
    {
        let mut s = "Level: ".to_string();
        push_u64(&mut s, self.level as u64);
        s.append("\nGold: ");
        push_u64(&mut s, self.gold as u64);
        assert(s@ =~= self.general_text());
        s
    }

    /// The stats text.
    pub fn stats(&self) -> (r: String)
        ensures
            r@ == self.stats_text(),
    {
        let mut s = "str: ".to_string();
        push_u64(&mut s, self.str as u64);
        s.append(" (+ ");
        push_u64(&mut s, self.bonus_str as u64);
        s.append(" bonus)\ndef: ");
        push_u64(&mut s, self.def as u64);
        s.append(" (+ ");
        push_u64(&mut s, self.bonus_def as u64);
        s.append(" bonus)\ndex: ");
        push_u64(&mut s, self.dex as u64);
        s.append(" (+ ");
        push_u64(&mut s, self.bonus_dex as u64);
        s.append(" bonus)\n");
        assert(s@ =~= self.stats_text());
        s
    }
}

impl SmmoPlayer {
    /// The model's safe-mode line.
    pub open spec fn model_safe_mode_text(&self) -> Seq<char> {
        if self.safe_mode {
            "You are currently in safe mode."@
        } else {
            "You are not currently in safe mode."@
        }
    }

    /// The model embed for this player.
    pub open spec fn model_embed_view(&self, old: EmbedView) -> EmbedView {
        old.with_title(self.name@)
            .with_description(self.model_safe_mode_text())
            .with_field(("General information"@, self.general_text(), true))
            .with_field(("Stats"@, self.stats_text(), true))
    }
}

impl SmmoModel for SmmoPlayer {
    const TYPE_NAME: &'static str = "SmmoPlayer";

    open spec fn presentable(&self) -> bool {
        true
    }

    open spec fn fieldable(&self) -> bool {
        true
    }

    fn to_embed(&self, embed: &mut Embed) -> (r: Result<(), ClockError>)
        ensures
            r is Ok,
            final(embed)@ == self.model_embed_view(old(embed)@),
    {
        embed.title(self.name.clone());
        if self.safe_mode {
            embed.description("You are currently in safe mode.".to_string());
        } else {
            embed.description("You are not currently in safe mode.".to_string());
        }
        embed.field("General information".to_string(), self.general(), true);
        embed.field("Stats".to_string(), self.stats(), true);
        Ok(())
    }

    /// The player's name with their level and gold.
    fn to_field(&self) -> (r: Result<(String, String, bool), ClockError>)
        ensures
            r matches Ok(f) && field_view(f) == (self.name@, self.general_text(), true),
    {
        Ok((self.name.clone(), self.general(), true))
    }
}

} // verus!
