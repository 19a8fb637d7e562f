//! The embed that is posted, its fields, and the JSON document that stands
//! for each of them on the wire.

use vstd::prelude::*;
use crate::json::{
    array, boolean, document, documents, empty_object, integer, no_members, null, object, put,
    text, Json,
};

verus! {

/// A name and a value shown inside an embed.
#[derive(Debug)]
pub struct Field {
    pub name: String,
    pub value: String,
    /// Whether the field may share a row with its neighbours. `None` writes
    /// no `inline` member at all, which is not the same as `Some(false)`.
    pub inline: Option<bool>,
}

/// A `Field` as a mathematical value.
pub struct FieldModel {
    pub name: Seq<char>,
    pub value: Seq<char>,
    pub inline: Option<bool>,
}

impl View for Field {
    type V = FieldModel;

    open spec fn view(&self) -> FieldModel {
        FieldModel { name: self.name@, value: self.value@, inline: self.inline }
    }
}

/// The models of a list of fields, in order.
pub open spec fn field_models(fields: Seq<Field>) -> Seq<FieldModel> {
    fields.map_values(|field: Field| field@)
}

impl FieldModel {
    /// The JSON object of a field: `name` and `value` always, `inline` only
    /// where it is set.
    pub open spec fn json(self) -> Json {
        let named = no_members().insert("name"@, Json::Text(self.name)).insert(
            "value"@,
            Json::Text(self.value),
        );
        match self.inline {
            Some(flag) => Json::Object(named.insert("inline"@, Json::Bool(flag))),
            None => Json::Object(named),
        }
    }
}

impl Field {
    /// Encodes the field as a JSON object.
    pub fn to_json(&self) -> (value: serde_json::Value)
        ensures
            document(value) == self@.json(),
    {
        let mut entries = empty_object();
        put(&mut entries, "name", text(self.name.clone()));
        put(&mut entries, "value", text(self.value.clone()));
        match self.inline {
            Some(flag) => {
                put(&mut entries, "inline", boolean(flag));
            },
            None => {},
        }
        object(entries)
    }
}

/// One decorated message, with every text in its final form.
#[derive(Debug)]
pub struct Embed {
    pub title: String,
    pub description: String,
    /// A 24-bit RGB colour, or `None` for the channel's default.
    pub color: Option<i32>,
    pub fields: Vec<Field>,
    pub timestamp: String,
    pub footer_text: String,
}

/// An `Embed` as a mathematical value.
pub struct EmbedModel {
    pub title: Seq<char>,
    pub description: Seq<char>,
    pub color: Option<int>,
    pub fields: Seq<FieldModel>,
    pub timestamp: Seq<char>,
    pub footer_text: Seq<char>,
}

impl View for Embed {
    type V = EmbedModel;

    open spec fn view(&self) -> EmbedModel {
        EmbedModel {
            title: self.title@,
            description: self.description@,
            color: match self.color {
                Some(rgb) => Some(rgb as int),
                None => None,
            },
            fields: field_models(self.fields@),
            timestamp: self.timestamp@,
            footer_text: self.footer_text@,
        }
    }
}

impl EmbedModel {
    /// The JSON array of the fields, in their order: empty where there are
    /// none.
    pub open spec fn fields_json(self) -> Json {
        Json::Array(self.fields.map_values(|field: FieldModel| field.json()))
    }

    /// The JSON number of the colour, or null where none is set.
    pub open spec fn color_json(self) -> Json {
        match self.color {
            Some(rgb) => Json::Number(rgb),
            None => Json::Null,
        }
    }

    /// The JSON object of the footer: its text under `text`.
    pub open spec fn footer_json(self) -> Json {
        Json::Object(no_members().insert("text"@, Json::Text(self.footer_text)))
    }

    /// The JSON object of the embed: six members, each always present.
    pub open spec fn json(self) -> Json {
        Json::Object(
            no_members().insert("title"@, Json::Text(self.title)).insert(
                "description"@,
                Json::Text(self.description),
            ).insert("color"@, self.color_json()).insert("fields"@, self.fields_json()).insert(
                "timestamp"@,
                Json::Text(self.timestamp),
            ).insert("footer"@, self.footer_json()),
        )
    }

    /// The body of the request: an object whose only member, `embeds`, is
    /// the array of this one embed.
    pub open spec fn body(self) -> Json {
        Json::Object(no_members().insert("embeds"@, Json::Array(seq![self.json()])))
    }
}

impl Embed {
    /// Encodes the fields as a JSON array.
    fn fields_to_json(&self) -> (value: serde_json::Value)
        ensures
            document(value) == self@.fields_json(),
    {
        let mut items: Vec<serde_json::Value> = Vec::new();
        let mut index: usize = 0;
        while index < self.fields.len()
            invariant
                index <= self.fields.len(),
                items.len() == index,
                forall|k: int|
                    0 <= k < index ==> document(#[trigger] items[k]) == self.fields[k]@.json(),
            decreases self.fields.len() - index,
        {
            items.push(self.fields[index].to_json());
            index += 1;
        }
        assert(documents(items@) =~= self@.fields.map_values(|field: FieldModel| field.json()));
        array(items)
    }

    /// Encodes the embed as a JSON object.
    pub fn to_json(&self) -> (value: serde_json::Value)
        ensures
            document(value) == self@.json(),
    {
        let mut footer = empty_object();
        put(&mut footer, "text", text(self.footer_text.clone()));
        let color = match self.color {
            Some(rgb) => integer(rgb),
            None => null(),
        };
        let mut entries = empty_object();
        put(&mut entries, "title", text(self.title.clone()));
        put(&mut entries, "description", text(self.description.clone()));
        put(&mut entries, "color", color);
        put(&mut entries, "fields", self.fields_to_json());
        put(&mut entries, "timestamp", text(self.timestamp.clone()));
        put(&mut entries, "footer", object(footer));
        object(entries)
    }

    /// Encodes the body of the request that carries this embed.
    pub fn to_body(&self) -> (value: serde_json::Value)
        ensures
            document(value) == self@.body(),
    {
        let mut embeds: Vec<serde_json::Value> = Vec::new();
        embeds.push(self.to_json());
        assert(documents(embeds@) =~= seq![self@.json()]);
        let mut entries = empty_object();
        put(&mut entries, "embeds", array(embeds));
        object(entries)
    }
}

} // verus!
