//! How each kind of SimpleMMO data is shown: as a whole embed, or as one
//! field of a larger embed.
use vstd::prelude::*;
use crate::embed::{field_view, Embed, EmbedView, FieldView};
use crate::models::{Item, Orphanage, WorldBosses};
use crate::smmo::smmo_player::SmmoPlayer;
use crate::smmo::world_boss::{health_bar, WorldBoss};
use crate::text::{int_decimal, nat_decimal, push_i64, push_u64, starts_with};
use crate::time::{trunc_div, trunc_rem, ClockError, Duration, Timestamp};
use crate::utils::{duration_pretty, lemma_pretty_shows_span, pretty_text, shows_span};
use vstd::arithmetic::div_mod::{lemma_div_denominator, lemma_fundamental_div_mod};

verus! {

/// Data that can be shown in an embed.
pub trait ToEmbed {
    /// The value can be shown as an embed without any arithmetic failing.
    spec fn embeddable(&self) -> bool;

    /// The value can be shown as a field without any arithmetic failing.
    spec fn fieldable(&self) -> bool;

    /// Fills `embed` with this value. Fails only where the clock cannot be
    /// read, and then leaves `embed` as it was.
    fn to_embed(&self, embed: &mut Embed) -> (r: Result<(), ClockError>)
        requires
            self.embeddable(),
        ensures
            r is Err ==> final(embed)@ == old(embed)@,
    ;

    /// This value as one field: name, value, and whether it is inline.
    /// Fails only where the clock cannot be read.
    fn to_field(&self) -> Result<(String, String, bool), ClockError>
        requires
            self.fieldable(),
    ;
}

/// The whole seconds from `from` to `to`, rounded toward zero.
pub open spec fn seconds_between(from: Timestamp, to: Timestamp) -> int {
    trunc_div(to.total_nanos() - from.total_nanos(), 1_000_000_000)
}

impl WorldBoss {
    /// The readiness line: ready once `check_now` has reached the boss's
    /// time, else how long is left from `delta_now`.
    pub open spec fn ready_text(&self, check_now: Timestamp, delta_now: Timestamp) -> Seq<char> {
        if !check_now.before(self.enable_time) {
            "Ready to be attacked!"@
        } else {
            "Ready in: "@ + pretty_text(seconds_between(delta_now, self.enable_time))
        }
    }

    /// The "Health" text of the embed.
    pub open spec fn health_text(&self) -> Seq<char> {
        "**`"@ + health_bar(self.health_ratio() * 10) + "`**\n"@ + self.health_numbers()
    }

    /// The embed for this boss, with the clock read as `delta_now` for the
    /// time left and as `check_now` for the readiness test.
    pub open spec fn embed_view(&self, old: EmbedView, delta_now: Timestamp, check_now: Timestamp) -> EmbedView {
        old.with_title(self.name@)
            .with_description(self.ready_text(check_now, delta_now))
            .with_field(("Health"@, self.health_text(), true))
            .with_field(("Stats"@, self.stats_text(), true))
    }

    /// The field for this boss, with the clock read as `check_now` for the
    /// readiness test and as `delta_now` for the time left.
    pub open spec fn field_view(&self, check_now: Timestamp, delta_now: Timestamp) -> FieldView {
        (self.name@, self.ready_text(check_now, delta_now), true)
    }

    /// The readiness line.
    pub fn ready(&self, check_now: Timestamp, delta_now: Timestamp) -> (r: String)
        requires
            self.enable_time.wf(),
            check_now.wf(),
            delta_now.wf(),
        ensures
            r@ == self.ready_text(check_now, delta_now),
            (r@ == "Ready to be attacked!"@) <==> !check_now.before(self.enable_time),
            check_now.before(self.enable_time) ==> starts_with(r@, "Ready in: "@),
            check_now.before(self.enable_time) && seconds_between(delta_now, self.enable_time) > -86_400
                ==> shows_span(r@.skip("Ready in: "@.len() as int), seconds_between(delta_now, self.enable_time)),
    {
        proof { lemma_boss_readiness(*self, check_now, delta_now); }
        if !check_now.is_before(&self.enable_time) {
            "Ready to be attacked!".to_string()
        } else {
            let ready_in = self.enable_time.signed_duration_since(&delta_now);
            let mut s = "Ready in: ".to_string();
            let p = duration_pretty(ready_in);
            s.append(p.as_str());
            s
        }
    }

    /// Fills `embed` with this boss, given the clock's two readings.
    pub fn embed_at(&self, embed: &mut Embed, delta_now: Timestamp, check_now: Timestamp)
        requires
            self.showable(),
            delta_now.wf(),
            check_now.wf(),
        ensures
            final(embed)@ == self.embed_view(old(embed)@, delta_now, check_now),
    {
        embed.title(self.name.clone());
        embed.description(self.ready(check_now, delta_now));
        let mut health = "**`".to_string();
        self.push_health_bar(&mut health);
        health.append("`**\n");
        self.push_health_numbers(&mut health);
        embed.field("Health".to_string(), health, true);
        embed.field("Stats".to_string(), self.stats(), true);
    }

    /// The field for this boss, given the clock's two readings.
    pub fn field_at(&self, check_now: Timestamp, delta_now: Timestamp) -> (r: (String, String, bool))
        requires
            self.enable_time.wf(),
            check_now.wf(),
            delta_now.wf(),
        ensures
            field_view(r) == self.field_view(check_now, delta_now),
    {
        (self.name.clone(), self.ready(check_now, delta_now), true)
    }
}

impl WorldBoss {
    /// The field for this boss: reads the clock for the readiness test, and
    /// again for the time left when the boss is not ready.
    pub fn field_now(&self) -> (r: Result<(String, String, bool), ClockError>)
        requires
            self.enable_time.wf(),
        ensures
            r matches Ok(f) ==> is_boss_field(field_view(f), *self),
    {
        match Timestamp::now() {
            Ok(check_now) => {
                if !check_now.is_before(&self.enable_time) {
                    Ok(self.field_at(check_now, check_now))
                } else {
                    match Timestamp::now() {
                        Ok(delta_now) => Ok(self.field_at(check_now, delta_now)),
                        Err(e) => Err(e),
                    }
                }
            },
            Err(e) => Err(e),
        }
    }
}

impl ToEmbed for WorldBoss {
    open spec fn embeddable(&self) -> bool {
        self.showable()
    }

    open spec fn fieldable(&self) -> bool {
        self.enable_time.wf()
    }

    /// Reads the clock twice: once for the time left, once for the
    /// readiness test.
    fn to_embed(&self, embed: &mut Embed) -> (r: Result<(), ClockError>)
        ensures
            r is Ok ==> exists|delta_now: Timestamp, check_now: Timestamp|
                delta_now.wf() && check_now.wf()
                && final(embed)@ == self.embed_view(old(embed)@, delta_now, check_now),
    {
        match Timestamp::now() {
            Ok(delta_now) => match Timestamp::now() {
                Ok(check_now) => {
                    self.embed_at(embed, delta_now, check_now);
                    Ok(())
                },
                Err(e) => Err(e),
            },
            Err(e) => Err(e),
        }
    }

    /// Reads the clock for the readiness test, and again for the time left
    /// when the boss is not ready.
    fn to_field(&self) -> (r: Result<(String, String, bool), ClockError>)
        ensures
            r matches Ok(f) ==> is_boss_field(field_view(f), *self),
    {
        self.field_now()
    }
}

/// The safe-mode line for a timed safe mode entered at `since`, read at
/// `now`: the hours, minutes within the hour and seconds within the minute
/// until one day after `since`.
pub open spec fn safe_mode_expiry_text(since: Timestamp, now: Timestamp) -> Seq<char> {
    let secs = trunc_div(since.total_nanos() - now.total_nanos() + 86_400_000_000_000, 1_000_000_000);
    "This player's safe mode expires in "@ + int_decimal(trunc_div(secs, 3600)) + ":"@
        + int_decimal(trunc_rem(trunc_div(secs, 60), 60)) + ":"@ + int_decimal(trunc_rem(secs, 60)) + "."@
}


/// The layout of the safe-mode expiry line: hours, minutes, seconds.
pub open spec fn expiry_layout(h: int, m: int, s: int) -> Seq<char> {
    "This player's safe mode expires in "@ + int_decimal(h) + ":"@ + int_decimal(m) + ":"@ + int_decimal(s) + "."@
}

/// Whole hours, minutes within the hour and seconds within the minute of a
/// span add back up to it and carry its sign.
pub proof fn lemma_clock_parts(secs: int)
    ensures
        trunc_div(secs, 3600) * 3600 + trunc_rem(trunc_div(secs, 60), 60) * 60 + trunc_rem(secs, 60) == secs,
        -60 < trunc_rem(trunc_div(secs, 60), 60) < 60,
        -60 < trunc_rem(secs, 60) < 60,
        secs >= 0 ==> trunc_div(secs, 3600) >= 0 && trunc_rem(trunc_div(secs, 60), 60) >= 0 && trunc_rem(secs, 60) >= 0,
        secs <= 0 ==> trunc_div(secs, 3600) <= 0 && trunc_rem(trunc_div(secs, 60), 60) <= 0 && trunc_rem(secs, 60) <= 0,
{
    let a: int = if secs >= 0 { secs } else { -secs };
    lemma_fundamental_div_mod(a, 60);
    lemma_fundamental_div_mod(a / 60, 60);
    lemma_div_denominator(a, 60, 60);
    assert(a / 60 >= 0 && a / 3600 >= 0) by (nonlinear_arith)
        requires a >= 0;
    assert(a == (a / 3600) * 3600 + ((a / 60) % 60) * 60 + a % 60);
}

/// The whole seconds from `now` to one day after `since`.
pub open spec fn expiry_seconds(since: Timestamp, now: Timestamp) -> int {
    trunc_div(since.total_nanos() + 86_400_000_000_000 - now.total_nanos(), 1_000_000_000)
}

/// `text` is the expiry line of a span of `secs` whole seconds: the hours,
/// minutes and seconds it shows add up to the span, minutes and seconds stay
/// within their unit, and none is negative while the span is not.
pub open spec fn shows_expiry(text: Seq<char>, secs: int) -> bool {
    exists|h: int, m: int, s: int| {
        &&& text == expiry_layout(h, m, s)
        &&& h * 3600 + m * 60 + s == secs
        &&& -60 < m && m < 60
        &&& -60 < s && s < 60
        &&& secs >= 0 ==> h >= 0 && m >= 0 && s >= 0
    }
}

/// The safe-mode line counts down to one day after safe mode was entered:
/// what it shows adds up to the whole seconds from `now` to that moment.
pub proof fn lemma_safe_mode_counts_down(since: Timestamp, now: Timestamp)
    ensures
        shows_expiry(safe_mode_expiry_text(since, now), expiry_seconds(since, now)),
{
    let t = since.total_nanos() - now.total_nanos() + 86_400_000_000_000;
    let secs = trunc_div(t, 1_000_000_000);
    assert(secs == expiry_seconds(since, now));
    lemma_clock_parts(secs);
    let h = trunc_div(secs, 3600);
    let m = trunc_rem(trunc_div(secs, 60), 60);
    let s2 = trunc_rem(secs, 60);
    assert(safe_mode_expiry_text(since, now) == expiry_layout(h, m, s2));
}

impl SmmoPlayer {
    /// The safe-mode line, with the clock read as `now`.
    pub open spec fn safe_mode_text(&self, now: Timestamp) -> Seq<char> {
        if !self.safe_mode {
            "This player is not currently in safe mode."@
        } else {
            match self.safe_mode_time {
                None => "This player is permanently in safe mode."@,
                Some(since) => safe_mode_expiry_text(since, now),
            }
        }
    }

    /// The embed for this player, with the clock read as `now`.
    pub open spec fn embed_view(&self, old: EmbedView, now: Timestamp) -> EmbedView {
        old.with_title(self.name@)
            .with_description(self.safe_mode_text(now))
            .with_field(("General"@, self.general_text(), true))
            .with_field(("Stats"@, self.stats_text(), true))
    }

    /// The time the player's safe mode can be shown at.
    pub open spec fn safe_mode_time_ok(&self) -> bool {
        self.safe_mode_time matches Some(t) ==> t.wf()
    }

    /// The safe-mode line.
    pub fn safe_mode_line(&self, now: Timestamp) -> (r: String)
        requires
            self.safe_mode_time_ok(),
            now.wf(),
        ensures
            r@ == self.safe_mode_text(now),
            self.safe_mode ==> (self.safe_mode_time matches Some(since) ==> shows_expiry(
                r@, expiry_seconds(since, now))),
    {
        proof {
            if let Some(since) = self.safe_mode_time {
                lemma_safe_mode_counts_down(since, now);
            }
        }
        if !self.safe_mode {
            "This player is not currently in safe mode.".to_string()
        } else {
            match self.safe_mode_time {
                None => "This player is permanently in safe mode.".to_string(),
                Some(since) => {
                    let left = since.signed_duration_since(&now);
                    let day = Duration::days(1);
                    let expires_in = left.add(&day);
                    let h = expires_in.num_hours();
                    let m = expires_in.num_minutes() % 60;
                    let s = expires_in.num_seconds() % 60;
                    let mut out = "This player's safe mode expires in ".to_string();
                    push_i64(&mut out, h);
                    out.append(":");
                    push_i64(&mut out, m);
                    out.append(":");
                    push_i64(&mut out, s);
                    out.append(".");
                    assert(out@ =~= self.safe_mode_text(now));
                    out
                }
            }
        }
    }

    /// Fills `embed` with this player, with the clock read as `now`.
    pub fn embed_at(&self, embed: &mut Embed, now: Timestamp)
        requires
            self.safe_mode_time_ok(),
            now.wf(),
        ensures
            final(embed)@ == self.embed_view(old(embed)@, now),
    {
        embed.title(self.name.clone());
        embed.description(self.safe_mode_line(now));
        embed.field("General".to_string(), self.general(), true);
        embed.field("Stats".to_string(), self.stats(), true);
    }
}

impl ToEmbed for SmmoPlayer {
    open spec fn embeddable(&self) -> bool {
        self.safe_mode_time_ok()
    }

    open spec fn fieldable(&self) -> bool {
        true
    }

    /// Reads the clock only when the player's safe mode runs out, so it
    /// fails only then.
    fn to_embed(&self, embed: &mut Embed) -> (r: Result<(), ClockError>)
        ensures
            r is Ok ==> exists|now: Timestamp| now.wf() && final(embed)@ == self.embed_view(old(embed)@, now),
            r is Err ==> self.safe_mode && self.safe_mode_time is Some,
    {
        if self.safe_mode && self.safe_mode_time.is_some() {
            match Timestamp::now() {
                Ok(now) => {
                    self.embed_at(embed, now);
                    Ok(())
                },
                Err(e) => Err(e),
            }
        } else {
            // The line does not depend on the clock here: any valid instant
            // gives the same embed.
            let unread = Timestamp { secs: 0, nanos: 0 };
            self.embed_at(embed, unread);
            assert(unread.wf() && embed@ == self.embed_view(old(embed)@, unread));
            Ok(())
        }
    }

    fn to_field(&self) -> (r: Result<(String, String, bool), ClockError>)
        ensures
            r matches Ok(f) && field_view(f) == (self.name@, self.general_text(), true),
    {
        Ok((self.name.clone(), self.general(), true))
    }
}

/// `f` is the field of boss `b` at some reading of the clock.
pub open spec fn is_boss_field(f: FieldView, b: WorldBoss) -> bool {
    exists|check_now: Timestamp, delta_now: Timestamp|
        check_now.wf() && delta_now.wf() && f == b.field_view(check_now, delta_now)
}

/// `extended` is `old` with one field added for each boss, in order, each
/// as that boss's field at some reading of the clock.
pub open spec fn boss_fields_added(old: EmbedView, extended: EmbedView, bosses: Seq<WorldBoss>) -> bool {
    &&& extended.title == old.title
    &&& extended.description == old.description
    &&& extended.colour == old.colour
    &&& extended.fields.len() == old.fields.len() + bosses.len()
    &&& extended.fields.subrange(0, old.fields.len() as int) == old.fields
    &&& forall|i: int| 0 <= i < bosses.len() ==> is_boss_field(#[trigger] extended.fields[old.fields.len() + i], bosses[i])
}

impl ToEmbed for WorldBosses {
    open spec fn embeddable(&self) -> bool {
        forall|i: int| 0 <= i < self.0.len() ==> (#[trigger] self.0[i]).enable_time.wf()
    }

    open spec fn fieldable(&self) -> bool {
        true
    }

    /// One field per boss, in order.
    fn to_embed(&self, embed: &mut Embed) -> (r: Result<(), ClockError>)
        ensures
            r is Ok ==> boss_fields_added(old(embed)@, final(embed)@, self.0@),
            self.0.len() == 0 ==> r is Ok && final(embed)@ == old(embed)@,
    {
        let mut fs: Vec<(String, String, bool)> = Vec::new();
        let mut i: usize = 0;
        while i < self.0.len()
            invariant
                i <= self.0.len(),
                forall|j: int| 0 <= j < self.0.len() ==> (#[trigger] self.0[j]).enable_time.wf(),
                fs.len() == i,
                forall|j: int| 0 <= j < i ==> is_boss_field(#[trigger] field_view(fs@[j]), self.0@[j]),
                embed@ == old(embed)@,
            decreases self.0.len() - i,
        {
            let f = match self.0[i].field_now() {
                Ok(f) => f,
                Err(e) => {
                    return Err(e);
                },
            };
            let ghost before = fs@;
            fs.push(f);
            assert(forall|j: int| 0 <= j < i ==> fs@[j] == before[j]);
            assert(field_view(fs@[i as int]) == field_view(f));
            i = i + 1;
        }
        let ghost added = fs@;
        embed.fields(fs);
        proof {
            assert(final(embed)@.fields.subrange(0, old(embed)@.fields.len() as int) =~= old(embed)@.fields);
            if added.len() == 0 {
                assert(final(embed)@.fields =~= old(embed)@.fields);
            }
            assert forall|i: int| 0 <= i < self.0.len() implies is_boss_field(
                #[trigger] final(embed)@.fields[old(embed)@.fields.len() + i], self.0@[i])
            by {
                assert(final(embed)@.fields[old(embed)@.fields.len() + i] == field_view(added[i]));
            }
        }
        Ok(())
    }

    fn to_field(&self) -> (r: Result<(String, String, bool), ClockError>)
        ensures
            r matches Ok(f) && field_view(f) == ("test"@, "test"@, true),
    {
        Ok(("test".to_string(), "test".to_string(), true))
    }
}

impl Orphanage {
    /// The orphanage's progress: the goal reached, or what is left of it.
    pub open spec fn progress_text(&self) -> Seq<char> {
        if self.current_amount >= self.max_amount {
            "Goal reached!"@
        } else {
            "Amount remaining: "@ + nat_decimal((self.max_amount - self.current_amount) as nat) + "\n("@
                + nat_decimal(self.current_amount as nat) + "/"@ + nat_decimal(self.max_amount as nat)
        }
    }

    /// Green once the goal is reached, red before.
    pub open spec fn colour_value(&self) -> u32 {
        if self.current_amount >= self.max_amount { 0x00FF00 } else { 0xFF0000 }
    }

    /// The progress text.
    pub fn progress(&self) -> (r: String)
        ensures
            r@ == self.progress_text(),
            (r@ == "Goal reached!"@) <==> self.current_amount >= self.max_amount,
            self.current_amount < self.max_amount ==> starts_with(
                r@, "Amount remaining: "@ + nat_decimal((self.max_amount - self.current_amount) as nat)),
    {
        proof { lemma_orphanage_progress(*self); }
        if self.current_amount >= self.max_amount {
            "Goal reached!".to_string()
        } else {
            let mut s = "Amount remaining: ".to_string();
            push_u64(&mut s, self.max_amount - self.current_amount);
            s.append("\n(");
            push_u64(&mut s, self.current_amount);
            s.append("/");
            push_u64(&mut s, self.max_amount);
            assert(s@ =~= self.progress_text());
            s
        }
    }
}

impl ToEmbed for Orphanage {
    open spec fn embeddable(&self) -> bool {
        true
    }

    open spec fn fieldable(&self) -> bool {
        true
    }

    fn to_embed(&self, embed: &mut Embed) -> (r: Result<(), ClockError>)
        ensures
            r is Ok,
            final(embed)@ == old(embed)@.with_title("Orphanage"@).with_description(self.progress_text())
                .with_colour(self.colour_value()),
    {
        embed.title("Orphanage".to_string());
        embed.description(self.progress());
        if self.current_amount >= self.max_amount {
            embed.colour(0x00FF00);
        } else {
            embed.colour(0xFF0000);
        }
        Ok(())
    }

    fn to_field(&self) -> (r: Result<(String, String, bool), ClockError>)
        ensures
            r matches Ok(f) && field_view(f) == ("Orphanage"@, self.progress_text(), true),
    {
        Ok(("Orphanage".to_string(), self.progress(), true))
    }
}

impl Item {
    /// The item's description, or nothing when it has none.
    pub open spec fn description_text(&self) -> Seq<char> {
        match self.description {
            Some(d) => d@,
            None => ""@,
        }
    }
}

impl Item {
    /// The item's field: its name and its rarity.
    pub fn field(&self) -> (r: (String, String, bool))
        ensures
            field_view(r) == (self.name@, self.rarity_name@, true),
    {
        (self.name.clone(), self.rarity_name.clone(), true)
    }
}

impl ToEmbed for Item {
    open spec fn embeddable(&self) -> bool {
        true
    }

    open spec fn fieldable(&self) -> bool {
        true
    }

    fn to_embed(&self, embed: &mut Embed) -> (r: Result<(), ClockError>)
        ensures
            r is Ok,
            final(embed)@ == old(embed)@.with_title(self.name@).with_description(self.description_text())
                .with_colour(self.rarity_colour),
    {
        embed.title(self.name.clone());
        match &self.description {
            Some(d) => embed.description(d.clone()),
            None => embed.description("".to_string()),
        }
        embed.colour(self.rarity_colour);
        Ok(())
    }

    fn to_field(&self) -> (r: Result<(String, String, bool), ClockError>)
        ensures
            r matches Ok(f) && field_view(f) == (self.name@, self.rarity_name@, true),
    {
        Ok(self.field())
    }
}

/// A boss's field says what its embed says: the field's name is the embed's
/// title and its value the embed's description, for the same clock readings.
pub proof fn lemma_boss_field_matches_embed(b: WorldBoss, old: EmbedView, check_now: Timestamp, delta_now: Timestamp)
    ensures
        b.embed_view(old, delta_now, check_now).title == Some(b.field_view(check_now, delta_now).0),
        b.embed_view(old, delta_now, check_now).description == Some(b.field_view(check_now, delta_now).1),
{
}

/// The orphanage is shown green exactly when its goal is reached, and until
/// then the amount it shows as remaining is positive and adds up with the
/// current amount to the goal.
pub proof fn lemma_orphanage_progress(o: Orphanage)
    ensures
        o.colour_value() == 0x00FF00 <==> o.current_amount >= o.max_amount,
        o.current_amount < o.max_amount ==> o.max_amount - o.current_amount > 0
            && (o.max_amount - o.current_amount) + o.current_amount == o.max_amount,
        (o.progress_text() == "Goal reached!"@) <==> o.current_amount >= o.max_amount,
        (o.progress_text() == "Goal reached!"@) <==> o.colour_value() == 0x00FF00,
        o.current_amount < o.max_amount ==> starts_with(
            o.progress_text(), "Amount remaining: "@ + nat_decimal((o.max_amount - o.current_amount) as nat)),
{
    if o.current_amount < o.max_amount {
        reveal_strlit("Goal reached!");
        reveal_strlit("Amount remaining: ");
        let head = "Amount remaining: "@ + nat_decimal((o.max_amount - o.current_amount) as nat);
        let rest = "\n("@ + nat_decimal(o.current_amount as nat) + "/"@ + nat_decimal(o.max_amount as nat);
        assert(o.progress_text() =~= head + rest);
        assert((head + rest).subrange(0, head.len() as int) =~= head);
        assert(o.progress_text()[0] == 'A');
        assert("Goal reached!"@[0] == 'G');
    }
}

/// A boss is shown ready exactly when the readiness reading has reached its
/// time; otherwise the line is "Ready in: " followed by a text that shows
/// the time left from the other reading (see `shows_span`).
pub proof fn lemma_boss_readiness(b: WorldBoss, check_now: Timestamp, delta_now: Timestamp)
    ensures
        (b.ready_text(check_now, delta_now) == "Ready to be attacked!"@) <==> !check_now.before(b.enable_time),
        check_now.before(b.enable_time) ==> starts_with(b.ready_text(check_now, delta_now), "Ready in: "@),
        check_now.before(b.enable_time) && seconds_between(delta_now, b.enable_time) > -86_400
            ==> shows_span(b.ready_text(check_now, delta_now).skip("Ready in: "@.len() as int),
                seconds_between(delta_now, b.enable_time)),
{
    reveal_strlit("Ready to be attacked!");
    reveal_strlit("Ready in: ");
    if check_now.before(b.enable_time) {
        let secs = seconds_between(delta_now, b.enable_time);
        let text = b.ready_text(check_now, delta_now);
        assert(text == "Ready in: "@ + pretty_text(secs));
        assert(text.subrange(0, 10) =~= "Ready in: "@);
        assert(text.skip(10) =~= pretty_text(secs));
        assert(text[6] == 'i');
        assert("Ready to be attacked!"@[6] == 't');
        if secs > -86_400 {
            lemma_pretty_shows_span(secs);
        }
    }
}

/// With one reading of the clock, a boss is either ready, or shown with a
/// time left that is not negative.
pub proof fn lemma_time_left_not_negative(b: WorldBoss, now: Timestamp)
    requires
        b.enable_time.wf(),
        now.wf(),
    ensures
        !now.before(b.enable_time) ==> b.ready_text(now, now) == "Ready to be attacked!"@,
        now.before(b.enable_time) ==> seconds_between(now, b.enable_time) >= 0,
{
    now.lemma_before_is_earlier(b.enable_time);
    let d = b.enable_time.total_nanos() - now.total_nanos();
    if now.before(b.enable_time) {
        assert(d / 1_000_000_000 >= 0) by (nonlinear_arith)
            requires d > 0;
    }
}

} // verus!
