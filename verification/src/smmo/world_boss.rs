//! A world boss of SimpleMMO and the text shown for it.
use vstd::prelude::*;
use crate::text::{copies, nat_decimal, push_copies, push_u64};
use crate::embed::{field_view, Embed, EmbedView, FieldView};
use crate::smmo::{is_model_boss_field, SmmoModel};
use crate::time::{iso8601, iso8601_of_nanos, ClockError, Timestamp};

verus! {

/// A world boss as the API describes it.
pub struct WorldBoss {
    pub id: u32,
    pub name: String,
    pub avatar: String,
    pub level: u32,
    pub god: u32,
    pub str: u32,
    pub def: u32,
    pub dex: u32,
    pub current_hp: u32,
    pub max_hp: u32,
    /// When the boss can next be attacked.
    pub enable_time: Timestamp,
}

/// A health bar of `n` full blocks, padded on the left with light shade to
/// ten characters when shorter.
pub open spec fn health_bar(n: nat) -> Seq<char> {
    if n < 10 {
        copies('░', (10 - n) as nat) + copies('█', n)
    } else {
        copies('█', n)
    }
}

impl WorldBoss {
    /// The boss can be shown: its time is a valid instant, its maximum
    /// health is not zero, and its health ratio times 100 fits in a `u32`.
    pub open spec fn showable(&self) -> bool {
        &&& self.enable_time.wf()
        &&& self.max_hp > 0
        &&& (self.current_hp / self.max_hp) * 100 <= u32::MAX
    }

    /// Current health over maximum health, in whole units (integer division).
    pub open spec fn health_ratio(&self) -> nat {
        (self.current_hp / self.max_hp) as nat
    }

    /// The "Stats" text: strength, defence and dexterity, one per line.
    pub open spec fn stats_text(&self) -> Seq<char> {
        "str: "@ + nat_decimal(self.str as nat) + "\ndef: "@ + nat_decimal(self.def as nat)
            + "\ndex: "@ + nat_decimal(self.dex as nat) + "\n"@
    }

    /// "`current`/`max` (`ratio * 100`%)".
    pub open spec fn health_numbers(&self) -> Seq<char> {
        nat_decimal(self.current_hp as nat) + "/"@ + nat_decimal(self.max_hp as nat) + " ("@
            + nat_decimal(self.health_ratio() * 100) + "%)"@
    }

    /// Appends the health bar for this boss.
    pub fn push_health_bar(&self, s: &mut String)
        requires
            self.showable(),
        ensures
            final(s)@ == old(s)@ + health_bar(self.health_ratio() * 10),
    {
        let ratio: u32 = self.current_hp / self.max_hp;
        let n: u64 = (ratio as u64) * 10;
        if n < 10 {
            push_copies(s, '░', 10 - n);
        }
        push_copies(s, '█', n);
        assert(s@ =~= old(s)@ + health_bar(self.health_ratio() * 10));
    }

    /// Appends "`current`/`max` (`ratio * 100`%)".
    pub fn push_health_numbers(&self, s: &mut String)
        requires
            self.showable(),
        ensures
            final(s)@ == old(s)@ + self.health_numbers(),
    {
        let ratio: u32 = self.current_hp / self.max_hp;
        push_u64(s, self.current_hp as u64);
        s.append("/");
        push_u64(s, self.max_hp as u64);
        s.append(" (");
        push_u64(s, (ratio as u64) * 100);
        s.append("%)");
        assert(s@ =~= old(s)@ + self.health_numbers());
    }

    /// The "Stats" text.
    pub fn stats(&self) -> (r: String)
        ensures
            r@ == self.stats_text(),
    {
        let mut s = String::new();
        s.append("str: ");
        push_u64(&mut s, self.str as u64);
        s.append("\ndef: ");
        push_u64(&mut s, self.def as u64);
        s.append("\ndex: ");
        push_u64(&mut s, self.dex as u64);
        s.append("\n");
        assert(s@ =~= self.stats_text());
        s
    }
}

impl WorldBoss {
    /// The model's readiness line: ready while the boss's time has not come
    /// before `check_now`, else the span from `delta_now` to it in ISO 8601.
    pub open spec fn model_ready_text(&self, check_now: Timestamp, delta_now: Timestamp) -> Seq<char> {
        if !self.enable_time.before(check_now) {
            "Ready to be attacked!"@
        } else {
            "Ready in: "@ + iso8601_of_nanos(self.enable_time.total_nanos() - delta_now.total_nanos())
        }
    }

    /// The model's health text: the bar, then the numbers.
    pub open spec fn model_health_text(&self) -> Seq<char> {
        health_bar(self.health_ratio() * 10) + " "@ + self.health_numbers()
    }

    /// The model embed, with the clock read as `delta_now` for the time left
    /// and as `check_now` for the readiness test.
    pub open spec fn model_embed_view(&self, old: EmbedView, delta_now: Timestamp, check_now: Timestamp) -> EmbedView {
        old.with_title(self.name@)
            .with_description(self.model_ready_text(check_now, delta_now))
            .with_field(("Health"@, self.model_health_text(), true))
            .with_field(("Stats"@, self.stats_text(), true))
    }

    /// The model field, with the clock read as `check_now` for the readiness
    /// test and as `delta_now` for the time left.
    pub open spec fn model_field_view(&self, check_now: Timestamp, delta_now: Timestamp) -> FieldView {
        (self.name@, self.model_ready_text(check_now, delta_now), true)
    }

    /// The model's readiness line.
    pub fn model_ready(&self, check_now: Timestamp, delta_now: Timestamp) -> (r: String)
        requires
            self.enable_time.wf(),
            check_now.wf(),
            delta_now.wf(),
        ensures
            r@ == self.model_ready_text(check_now, delta_now),
    {
        if !self.enable_time.is_before(&check_now) {
            "Ready to be attacked!".to_string()
        } else {
            let ready_in = self.enable_time.signed_duration_since(&delta_now);
            proof { ready_in.lemma_parts(); }
            let mut s = "Ready in: ".to_string();
            let t = iso8601(ready_in);
            s.append(t.as_str());
            s
        }
    }

    /// Fills `embed` with the model view of this boss, given the clock's two
    /// readings.
    pub fn model_embed_at(&self, embed: &mut Embed, delta_now: Timestamp, check_now: Timestamp)
        requires
            self.showable(),
            delta_now.wf(),
            check_now.wf(),
        ensures
            final(embed)@ == self.model_embed_view(old(embed)@, delta_now, check_now),
    {
        embed.title(self.name.clone());
        embed.description(self.model_ready(check_now, delta_now));
        let mut health = String::new();
        self.push_health_bar(&mut health);
        health.append(" ");
        self.push_health_numbers(&mut health);
        assert(health@ =~= self.model_health_text());
        embed.field("Health".to_string(), health, true);
        embed.field("Stats".to_string(), self.stats(), true);
    }

    /// The model field, given the clock's two readings.
    pub fn model_field_at(&self, check_now: Timestamp, delta_now: Timestamp) -> (r: (String, String, bool))
        requires
            self.enable_time.wf(),
            check_now.wf(),
            delta_now.wf(),
        ensures
            field_view(r) == self.model_field_view(check_now, delta_now),
    {
        (self.name.clone(), self.model_ready(check_now, delta_now), true)
    }

    /// The model field: reads the clock for the readiness test, and again
    /// for the time left when the boss is not ready.
    pub fn model_field_now(&self) -> (r: Result<(String, String, bool), ClockError>)
        requires
            self.enable_time.wf(),
        ensures
            r matches Ok(f) ==> is_model_boss_field(field_view(f), *self),
    {
        match Timestamp::now() {
            Ok(check_now) => {
                if !self.enable_time.is_before(&check_now) {
                    Ok(self.model_field_at(check_now, check_now))
                } else {
                    match Timestamp::now() {
                        Ok(delta_now) => Ok(self.model_field_at(check_now, delta_now)),
                        Err(e) => Err(e),
                    }
                }
            },
            Err(e) => Err(e),
        }
    }
}

impl SmmoModel for WorldBoss {
    const TYPE_NAME: &'static str = "WorldBoss";

    open spec fn presentable(&self) -> bool {
        self.showable()
    }

    open spec fn fieldable(&self) -> bool {
        self.enable_time.wf()
    }

    /// Reads the clock twice: once for the time left, once for the
    /// readiness test.
    fn to_embed(&self, embed: &mut Embed) -> (r: Result<(), ClockError>)
        ensures
            r is Ok ==> exists|delta_now: Timestamp, check_now: Timestamp|
                delta_now.wf() && check_now.wf()
                && final(embed)@ == self.model_embed_view(old(embed)@, delta_now, check_now),
    {
        match Timestamp::now() {
            Ok(delta_now) => match Timestamp::now() {
                Ok(check_now) => {
                    self.model_embed_at(embed, delta_now, check_now);
                    Ok(())
                },
                Err(e) => Err(e),
            },
            Err(e) => Err(e),
        }
    }

    fn to_field(&self) -> (r: Result<(String, String, bool), ClockError>)
        ensures
            r matches Ok(f) ==> is_model_boss_field(field_view(f), *self),
    {
        self.model_field_now()
    }
}

} // verus!
