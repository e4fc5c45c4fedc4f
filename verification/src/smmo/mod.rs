//! The SimpleMMO data the bot shows, and how the API's encodings are read.
use vstd::prelude::*;
use crate::embed::{field_view, Embed, EmbedView, FieldView};
use crate::time::{chrono_parse_utc, parse_utc, ClockError, Timestamp};
use world_boss::WorldBoss;

pub mod smmo_player;
pub mod world_boss;

verus! {

/// Reads the API's 0/1 encoding of a flag: `0` is `false`, `1` is `true`,
/// any other value is refused and handed back.
pub fn bool_from_int(v: u8) -> (r: Result<bool, u8>)
    ensures
        v == 0 ==> r == Ok::<bool, u8>(false),
        v == 1 ==> r == Ok::<bool, u8>(true),
        v > 1 ==> r == Err::<bool, u8>(v),
{
    if v == 0 {
        Ok(false)
    } else if v == 1 {
        Ok(true)
    } else {
        Err(v)
    }
}

/// Reads a date as the API writes it, `%Y-%m-%d %H:%M:%S` in UTC: the
/// seconds and nanoseconds since the epoch that chrono reads from it (a leap
/// second read as chrono does, with a nanosecond part of a second or more),
/// or nothing where chrono refuses the text.
pub fn datefmt(s: &str) -> (r: Option<(i64, u32)>)
    ensures
        r == chrono_parse_utc(s@, "%Y-%m-%d %H:%M:%S"@),
{
    parse_utc(s, "%Y-%m-%d %H:%M:%S")
}

/// A model of the SimpleMMO API that can be shown in an embed.
pub trait SmmoModel {
    /// The model's name.
    const TYPE_NAME: &'static str;

    /// The value can be shown as an embed without any arithmetic failing.
    spec fn presentable(&self) -> bool;

    /// The value can be shown as a field without any arithmetic failing.
    spec fn fieldable(&self) -> bool;

    /// Fills `embed` with this value. Fails only where the clock cannot be
    /// read, and then leaves `embed` as it was.
    fn to_embed(&self, embed: &mut Embed) -> (r: Result<(), ClockError>)
        requires
            self.presentable(),
        ensures
            r is Err ==> final(embed)@ == old(embed)@,
    ;

    /// This value as one field: name, value, and whether it is inline.
    /// Fails only where the clock cannot be read.
    fn to_field(&self) -> Result<(String, String, bool), ClockError>
        requires
            self.fieldable(),
    ;
}

/// `f` is the model field of boss `b` at some reading of the clock.
pub open spec fn is_model_boss_field(f: FieldView, b: WorldBoss) -> bool {
    exists|check_now: Timestamp, delta_now: Timestamp|
        check_now.wf() && delta_now.wf() && f == b.model_field_view(check_now, delta_now)
}

/// `extended` is `old` with one model field added for each boss, in order.
pub open spec fn model_boss_fields_added(old: EmbedView, extended: EmbedView, bosses: Seq<WorldBoss>) -> bool {
    &&& extended.title == old.title
    &&& extended.description == old.description
    &&& extended.colour == old.colour
    &&& extended.fields.len() == old.fields.len() + bosses.len()
    &&& extended.fields.subrange(0, old.fields.len() as int) == old.fields
    &&& forall|i: int| 0 <= i < bosses.len() ==> is_model_boss_field(#[trigger] extended.fields[old.fields.len() + i], bosses[i])
}

impl SmmoModel for Vec<WorldBoss> {
    const TYPE_NAME: &'static str = "Vec";

    open spec fn presentable(&self) -> bool {
        forall|i: int| 0 <= i < self.len() ==> (#[trigger] self[i]).enable_time.wf()
    }

    open spec fn fieldable(&self) -> bool {
        true
    }

    /// One field per boss, in order.
    fn to_embed(&self, embed: &mut Embed) -> (r: Result<(), ClockError>)
        ensures
            r is Ok ==> model_boss_fields_added(old(embed)@, final(embed)@, self@),
            self.len() == 0 ==> r is Ok && final(embed)@ == old(embed)@,
    {
        let mut fs: Vec<(String, String, bool)> = Vec::new();
        let mut i: usize = 0;
        while i < self.len()
            invariant
                i <= self.len(),
                forall|j: int| 0 <= j < self.len() ==> (#[trigger] self[j]).enable_time.wf(),
                fs.len() == i,
                forall|j: int| 0 <= j < i ==> is_model_boss_field(#[trigger] field_view(fs@[j]), self@[j]),
                embed@ == old(embed)@,
            decreases self.len() - i,
        {
            let f = match self[i].model_field_now() {
                Ok(f) => f,
                Err(e) => {
                    return Err(e);
                },
            };
            let ghost before = fs@;
            fs.push(f);
            assert(forall|j: int| 0 <= j < i ==> fs@[j] == before[j]);
            assert(field_view(fs@[i as int]) == field_view(f));
            i = i + 1;
        }
        let ghost added = fs@;
        embed.fields(fs);
        proof {
            assert(final(embed)@.fields.subrange(0, old(embed)@.fields.len() as int) =~= old(embed)@.fields);
            if added.len() == 0 {
                assert(final(embed)@.fields =~= old(embed)@.fields);
            }
            assert forall|i: int| 0 <= i < self.len() implies is_model_boss_field(
                #[trigger] final(embed)@.fields[old(embed)@.fields.len() + i], self@[i])
            by {
                assert(final(embed)@.fields[old(embed)@.fields.len() + i] == field_view(added[i]));
            }
        }
        Ok(())
    }

    fn to_field(&self) -> (r: Result<(String, String, bool), ClockError>)
        ensures
            r matches Ok(f) && field_view(f) == ("test"@, "test"@, true),
    {
        Ok(("test".to_string(), "test".to_string(), true))
    }
}

} // verus!
