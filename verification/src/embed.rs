//! The content of a Discord embed: what the bot fills in before the message
//! is sent. Setting a title, description or colour replaces the previous one;
//! fields accumulate in order.
use vstd::prelude::*;

verus! {

/// A field as a view: name, value, and whether it is shown inline.
pub type FieldView = (Seq<char>, Seq<char>, bool);

/// The view of one field.
pub open spec fn field_view(f: (String, String, bool)) -> FieldView {
    (f.0@, f.1@, f.2)
}

/// The view of a list of fields, in order.
pub open spec fn fields_view(fs: Seq<(String, String, bool)>) -> Seq<FieldView> {
    fs.map_values(|f: (String, String, bool)| field_view(f))
}

/// The view of an optional text.
pub open spec fn opt_text(t: Option<String>) -> Option<Seq<char>> {
    match t {
        Some(s) => Some(s@),
        None => None,
    }
}

/// What an embed shows.
pub struct EmbedView {
    pub title: Option<Seq<char>>,
    pub description: Option<Seq<char>>,
    pub colour: Option<u32>,
    pub fields: Seq<FieldView>,
}

impl EmbedView {
    /// The embed with nothing in it.
    pub open spec fn empty() -> EmbedView {
        EmbedView { title: None, description: None, colour: None, fields: Seq::empty() }
    }

    /// The embed with its title replaced.
    pub open spec fn with_title(self, t: Seq<char>) -> EmbedView {
        EmbedView { title: Some(t), ..self }
    }

    /// The embed with its description replaced.
    pub open spec fn with_description(self, d: Seq<char>) -> EmbedView {
        EmbedView { description: Some(d), ..self }
    }

    /// The embed with its colour replaced.
    pub open spec fn with_colour(self, c: u32) -> EmbedView {
        EmbedView { colour: Some(c), ..self }
    }

    /// The embed with one more field at the end.
    pub open spec fn with_field(self, f: FieldView) -> EmbedView {
        EmbedView { fields: self.fields.push(f), ..self }
    }

    /// The embed with more fields at the end, in order.
    pub open spec fn with_fields(self, fs: Seq<FieldView>) -> EmbedView {
        EmbedView { fields: self.fields + fs, ..self }
    }
}

/// An embed under construction.
pub struct Embed {
    pub title: Option<String>,
    pub description: Option<String>,
    pub colour: Option<u32>,
    pub fields: Vec<(String, String, bool)>,
}

impl View for Embed {
    type V = EmbedView;

    open spec fn view(&self) -> EmbedView {
        EmbedView {
            title: opt_text(self.title),
            description: opt_text(self.description),
            colour: self.colour,
            fields: fields_view(self.fields@),
        }
    }
}

impl Embed {
    /// An empty embed.
    pub fn new() -> (e: Embed)
        ensures
            e@ == EmbedView::empty(),
    {
        let e = Embed { title: None, description: None, colour: None, fields: Vec::new() };
        assert(e@.fields =~= Seq::<FieldView>::empty());
        e
    }

    /// Sets the title.
    pub fn title(&mut self, t: String)
        ensures
            final(self)@ == old(self)@.with_title(t@),
    {
        self.title = Some(t);
    }

    /// Sets the description.
    pub fn description(&mut self, d: String)
        ensures
            final(self)@ == old(self)@.with_description(d@),
    {
        self.description = Some(d);
    }

    /// Sets the colour of the side bar.
    pub fn colour(&mut self, c: u32)
        ensures
            final(self)@ == old(self)@.with_colour(c),
    {
        self.colour = Some(c);
    }

    /// Adds one field after the others.
    pub fn field(&mut self, name: String, value: String, inline: bool)
        ensures
            final(self)@ == old(self)@.with_field((name@, value@, inline)),
    {
        let ghost before = self.fields@;
        self.fields.push((name, value, inline));
        assert(fields_view(self.fields@) =~= fields_view(before).push((name@, value@, inline)));
    }

    /// Adds fields after the others, in order.
    pub fn fields(&mut self, fs: Vec<(String, String, bool)>)
        ensures
            final(self)@ == old(self)@.with_fields(fields_view(fs@)),
    {
        let ghost before = self.fields@;
        let mut fs = fs;
        let ghost added = fs@;
        self.fields.append(&mut fs);
        assert(fields_view(self.fields@) =~= fields_view(before) + fields_view(added));
    }
}

} // verus!
