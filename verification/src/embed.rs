//! Rich content embedded in a message, and the size limits that the service
//! puts on it. Sizes are counted in bytes of UTF-8.

use vstd::prelude::*;
use vstd::utf8::encode_utf8;
use crate::encode::{
    opt_bool_json, opt_str_json, opt_u64_json, put_opt_bool, put_opt_str, put_opt_u64, put_str,
    put_u64, with_member,
};
use crate::json::{
    json_from_array, json_from_map, json_map_insert, json_map_new, json_view, json_views,
    no_members, Json,
};

verus! {

/// The number of bytes that a text takes.
pub open spec fn byte_len(s: Seq<char>) -> nat {
    encode_utf8(s).len()
}

/// The number of bytes of an optional text; nothing takes none.
pub open spec fn opt_byte_len(s: Option<String>) -> nat {
    match s {
        Some(s) => byte_len(s@),
        None => 0,
    }
}

/// A size as it is reported: sizes beyond `usize::MAX` are reported as
/// `usize::MAX`.
pub open spec fn capped(n: nat) -> usize {
    if n <= usize::MAX {
        n as usize
    } else {
        usize::MAX
    }
}

/// Adding capped sizes caps the sum of the sizes.
pub proof fn lemma_capped_sum(x: nat, y: nat)
    ensures
        capped(capped(x) as nat + capped(y) as nat) == capped(x + y),
{
}

/// The sum of two sizes, capped.
fn add_sizes(a: usize, b: usize) -> (r: usize)
    ensures
        r == capped(a as nat + b as nat),
{
    a.saturating_add(b)
}

/// The number of bytes that `s` takes.
pub fn text_len(s: &String) -> (n: usize)
    ensures
        n == byte_len(s@),
{
    s.as_str().as_bytes().len()
}

/// The number of bytes that an optional text takes.
pub fn opt_text_len(s: &Option<String>) -> (n: usize)
    ensures
        n == opt_byte_len(*s),
{
    match s {
        Some(s) => text_len(s),
        None => 0,
    }
}

/// Why an embed cannot be sent.
#[derive(Debug)]
pub enum EmbedTooBigError {
    /// One part is longer than the service takes.
    FieldTooBig { field: &'static str, length: usize, max: usize },
    /// The parts together are larger than the service takes.
    WholeTooBig(usize),
}

/// The largest number of bytes in a title, a field's name or an author's name.
pub const MAX_NAME_LEN: usize = 256;

/// The largest number of bytes in a description or a footer's text.
pub const MAX_TEXT_LEN: usize = 2048;

/// The largest number of bytes in a field's value.
pub const MAX_VALUE_LEN: usize = 1024;

/// The largest number of fields.
pub const MAX_FIELDS: usize = 25;

/// The largest number of bytes in all counted parts together.
pub const MAX_EMBED_SIZE: usize = 6000;

#[derive(Debug, Clone)]
pub struct EmbedThumbnail {
    /// Source url of the thumbnail.
    pub url: Option<String>,
    /// A proxied url of the thumbnail.
    pub proxy_url: Option<String>,
    pub height: Option<u64>,
    pub width: Option<u64>,
}

impl EmbedThumbnail {
    pub open spec fn size(self) -> nat {
        opt_byte_len(self.url) + opt_byte_len(self.proxy_url)
    }

    pub fn data_size(&self) -> (n: usize)
        ensures
            n == capped(self.size()),
    {
        add_sizes(opt_text_len(&self.url), opt_text_len(&self.proxy_url))
    }
}

#[derive(Debug, Clone)]
pub struct EmbedVideo {
    /// Source url of the video.
    pub url: Option<String>,
    pub height: Option<u64>,
    pub width: Option<u64>,
}

impl EmbedVideo {
    pub open spec fn size(self) -> nat {
        opt_byte_len(self.url)
    }

    pub fn data_size(&self) -> (n: usize)
        ensures
            n == capped(self.size()),
    {
        opt_text_len(&self.url)
    }
}

#[derive(Debug, Clone)]
pub struct EmbedImage {
    /// Source url of the image.
    pub url: Option<String>,
    /// A proxied url of the image.
    pub proxy_url: Option<String>,
    pub height: Option<u64>,
    pub width: Option<u64>,
}

impl EmbedImage {
    pub open spec fn size(self) -> nat {
        opt_byte_len(self.url) + opt_byte_len(self.proxy_url)
    }

    pub fn data_size(&self) -> (n: usize)
        ensures
            n == capped(self.size()),
    {
        add_sizes(opt_text_len(&self.url), opt_text_len(&self.proxy_url))
    }
}

#[derive(Debug, Clone)]
pub struct EmbedProvider {
    pub name: Option<String>,
    pub url: Option<String>,
}

impl EmbedProvider {
    pub open spec fn size(self) -> nat {
        opt_byte_len(self.name) + opt_byte_len(self.url)
    }

    pub fn data_size(&self) -> (n: usize)
        ensures
            n == capped(self.size()),
    {
        add_sizes(opt_text_len(&self.name), opt_text_len(&self.url))
    }
}

#[derive(Debug, Clone)]
pub struct EmbedAuthor {
    pub name: Option<String>,
    pub url: Option<String>,
    /// Url of the author's icon.
    pub icon_url: Option<String>,
    /// A proxied url of the author's icon.
    pub proxy_icon_url: Option<String>,
}

impl EmbedAuthor {
    pub open spec fn size(self) -> nat {
        opt_byte_len(self.name) + opt_byte_len(self.url) + opt_byte_len(self.icon_url)
            + opt_byte_len(self.proxy_icon_url)
    }

    /// What [`EmbedAuthor::enforce_embed_limits`] answers.
    pub open spec fn check(self) -> Result<(), EmbedTooBigError> {
        if opt_byte_len(self.name) > MAX_NAME_LEN {
            Err(
                EmbedTooBigError::FieldTooBig {
                    field: "footer.name",
                    length: opt_byte_len(self.name) as usize,
                    max: MAX_NAME_LEN,
                },
            )
        } else {
            Ok(())
        }
    }

    pub fn data_size(&self) -> (n: usize)
        ensures
            n == capped(self.size()),
    {
        add_sizes(
            add_sizes(
                add_sizes(opt_text_len(&self.name), opt_text_len(&self.url)),
                opt_text_len(&self.icon_url),
            ),
            opt_text_len(&self.proxy_icon_url),
        )
    }

    /// Refuses a name of more than 256 bytes.
    pub fn enforce_embed_limits(&self) -> (r: Result<(), EmbedTooBigError>)
        ensures
            r == self.check(),
    {
        let name_len = opt_text_len(&self.name);
        if name_len > MAX_NAME_LEN {
            return Err(
                EmbedTooBigError::FieldTooBig {
                    field: "footer.name",
                    length: name_len,
                    max: MAX_NAME_LEN,
                },
            );
        }
        Ok(())
    }
}

#[derive(Debug, Clone)]
pub struct EmbedFooter {
    pub text: String,
    /// Url of the footer's icon.
    pub icon_url: Option<String>,
    /// A proxied url of the footer's icon.
    pub proxy_icon_url: Option<String>,
}

impl EmbedFooter {
    pub open spec fn size(self) -> nat {
        byte_len(self.text@) + opt_byte_len(self.icon_url) + opt_byte_len(self.proxy_icon_url)
    }

    /// What [`EmbedFooter::enforce_embed_limits`] answers.
    pub open spec fn check(self) -> Result<(), EmbedTooBigError> {
        if byte_len(self.text@) > MAX_TEXT_LEN {
            Err(
                EmbedTooBigError::FieldTooBig {
                    field: "footer.text",
                    length: byte_len(self.text@) as usize,
                    max: MAX_TEXT_LEN,
                },
            )
        } else {
            Ok(())
        }
    }

    pub fn data_size(&self) -> (n: usize)
        ensures
            n == capped(self.size()),
    {
        add_sizes(
            add_sizes(text_len(&self.text), opt_text_len(&self.icon_url)),
            opt_text_len(&self.proxy_icon_url),
        )
    }

    /// Refuses a text of more than 2048 bytes.
    pub fn enforce_embed_limits(&self) -> (r: Result<(), EmbedTooBigError>)
        ensures
            r == self.check(),
    {
        let text_len = text_len(&self.text);
        if text_len > MAX_TEXT_LEN {
            return Err(
                EmbedTooBigError::FieldTooBig {
                    field: "footer.text",
                    length: text_len,
                    max: MAX_TEXT_LEN,
                },
            );
        }
        Ok(())
    }
}

#[derive(Debug, Clone)]
pub struct EmbedField {
    pub name: String,
    pub value: String,
    /// Whether the field is shown in line with its neighbours.
    pub inline: Option<bool>,
}

impl EmbedField {
    /// A field that is shown in line with its neighbours.
    pub fn inline(name: String, value: String) -> (r: EmbedField)
        ensures
            r == (EmbedField { name, value, inline: Some(true) }),
    {
        EmbedField { name, value, inline: Some(true) }
    }

    /// A field that does not say how it is shown.
    pub fn new(name: String, value: String) -> (r: EmbedField)
        ensures
            r == (EmbedField { name, value, inline: None }),
    {
        EmbedField { name, value, inline: None }
    }

    pub open spec fn size(self) -> nat {
        byte_len(self.name@) + byte_len(self.value@)
    }

    /// What [`EmbedField::enforce_embed_limits`] answers.
    pub open spec fn check(self) -> Result<(), EmbedTooBigError> {
        if byte_len(self.name@) > MAX_NAME_LEN {
            Err(
                EmbedTooBigError::FieldTooBig {
                    field: "field.name",
                    length: byte_len(self.name@) as usize,
                    max: MAX_NAME_LEN,
                },
            )
        } else if byte_len(self.value@) > MAX_VALUE_LEN {
            Err(
                EmbedTooBigError::FieldTooBig {
                    field: "field.value",
                    length: byte_len(self.value@) as usize,
                    max: MAX_VALUE_LEN,
                },
            )
        } else {
            Ok(())
        }
    }

    pub fn data_size(&self) -> (n: usize)
        ensures
            n == capped(self.size()),
    {
        add_sizes(text_len(&self.name), text_len(&self.value))
    }

    /// Refuses a name of more than 256 bytes and a value of more than 1024.
    pub fn enforce_embed_limits(&self) -> (r: Result<(), EmbedTooBigError>)
        ensures
            r == self.check(),
    {
        let name_len = text_len(&self.name);
        if name_len > MAX_NAME_LEN {
            return Err(
                EmbedTooBigError::FieldTooBig {
                    field: "field.name",
                    length: name_len,
                    max: MAX_NAME_LEN,
                },
            );
        }
        let value_len = text_len(&self.value);
        if value_len > MAX_VALUE_LEN {
            return Err(
                EmbedTooBigError::FieldTooBig {
                    field: "field.value",
                    length: value_len,
                    max: MAX_VALUE_LEN,
                },
            );
        }
        Ok(())
    }
}

/// The bytes that a list of fields takes.
pub open spec fn fields_size(fields: Seq<EmbedField>) -> nat
    decreases fields.len(),
{
    if fields.len() == 0 {
        0
    } else {
        fields_size(fields.drop_last()) + fields.last().size()
    }
}

/// The complaint about the first field that is too big, if one is.
pub open spec fn fields_check(fields: Seq<EmbedField>) -> Result<(), EmbedTooBigError>
    decreases fields.len(),
{
    if fields.len() == 0 {
        Ok(())
    } else {
        match fields[0].check() {
            Err(e) => Err(e),
            Ok(_) => fields_check(fields.skip(1)),
        }
    }
}

/// No field is complained about exactly if every field is within its limits.
pub proof fn lemma_fields_check(fields: Seq<EmbedField>)
    ensures
        fields_check(fields) is Ok <==> forall|i: int|
            0 <= i < fields.len() ==> byte_len((#[trigger] fields[i]).name@) <= MAX_NAME_LEN
                && byte_len(fields[i].value@) <= MAX_VALUE_LEN,
    decreases fields.len(),
{
    if fields.len() > 0 {
        let rest = fields.skip(1);
        lemma_fields_check(rest);
        if fields_check(fields) is Ok {
            assert forall|i: int| 0 <= i < fields.len() implies byte_len(
                (#[trigger] fields[i]).name@,
            ) <= MAX_NAME_LEN && byte_len(fields[i].value@) <= MAX_VALUE_LEN by {
                if i > 0 {
                    assert(fields[i] == rest[i - 1]);
                }
            }
        } else {
            if fields[0].check() is Ok {
                let i = choose|i: int|
                    0 <= i < rest.len() && !(byte_len((#[trigger] rest[i]).name@) <= MAX_NAME_LEN
                        && byte_len(rest[i].value@) <= MAX_VALUE_LEN);
                assert(rest[i] == fields[i + 1]);
            }
        }
    }
}

/// Rich content embedded in a message.
#[derive(Debug, Clone)]
pub struct Embed {
    pub title: Option<String>,
    /// Type of the embed; always `rich` for what a bot sends.
    pub embed_type: Option<String>,
    pub description: Option<String>,
    pub url: Option<String>,
    /// Timestamp of the content, in ISO 8601 notation.
    pub timestamp: Option<String>,
    /// Colour code of the embed.
    pub color: Option<u32>,
    pub footer: Option<EmbedFooter>,
    pub image: Option<EmbedImage>,
    pub thumbnail: Option<EmbedThumbnail>,
    pub video: Option<EmbedVideo>,
    pub provider: Option<EmbedProvider>,
    pub author: Option<EmbedAuthor>,
    pub fields: Option<Vec<EmbedField>>,
}

impl Default for Embed {
    fn default() -> (r: Embed)
        ensures
            r == Embed::empty(),
    {
        Embed {
            title: None,
            embed_type: None,
            description: None,
            url: None,
            timestamp: None,
            color: None,
            footer: None,
            image: None,
            thumbnail: None,
            video: None,
            provider: None,
            author: None,
            fields: None,
        }
    }
}

impl Embed {
    /// The embed with nothing in it.
    pub open spec fn empty() -> Embed {
        Embed {
            title: None,
            embed_type: None,
            description: None,
            url: None,
            timestamp: None,
            color: None,
            footer: None,
            image: None,
            thumbnail: None,
            video: None,
            provider: None,
            author: None,
            fields: None,
        }
    }

    pub open spec fn footer_size(self) -> nat {
        match self.footer {
            Some(p) => p.size(),
            None => 0,
        }
    }

    pub open spec fn image_size(self) -> nat {
        match self.image {
            Some(p) => p.size(),
            None => 0,
        }
    }

    pub open spec fn thumbnail_size(self) -> nat {
        match self.thumbnail {
            Some(p) => p.size(),
            None => 0,
        }
    }

    pub open spec fn video_size(self) -> nat {
        match self.video {
            Some(p) => p.size(),
            None => 0,
        }
    }

    pub open spec fn provider_size(self) -> nat {
        match self.provider {
            Some(p) => p.size(),
            None => 0,
        }
    }

    pub open spec fn author_size(self) -> nat {
        match self.author {
            Some(p) => p.size(),
            None => 0,
        }
    }

    /// The bytes that count towards the size of the embed: title,
    /// description, url, and the texts and urls of every part.
    pub open spec fn size(self) -> nat {
        opt_byte_len(self.title) + opt_byte_len(self.description) + opt_byte_len(self.url)
            + self.footer_size() + self.image_size() + self.thumbnail_size() + self.video_size()
            + self.provider_size() + self.author_size() + fields_size(self.field_list())
    }

    /// The fields of the embed; none where it has no list of fields.
    pub open spec fn field_list(self) -> Seq<EmbedField> {
        match self.fields {
            Some(fields) => fields@,
            None => Seq::empty(),
        }
    }

    /// Whether the embed is within every limit of the service.
    pub open spec fn within_limits(self) -> bool {
        &&& opt_byte_len(self.title) <= MAX_NAME_LEN
        &&& opt_byte_len(self.description) <= MAX_TEXT_LEN
        &&& self.field_list().len() <= MAX_FIELDS
        &&& forall|i: int|
            0 <= i < self.field_list().len() ==> byte_len((#[trigger] self.field_list()[i]).name@)
                <= MAX_NAME_LEN && byte_len(self.field_list()[i].value@) <= MAX_VALUE_LEN
        &&& (self.footer matches Some(footer) ==> byte_len(footer.text@) <= MAX_TEXT_LEN)
        &&& self.size() <= MAX_EMBED_SIZE
    }

    /// What [`Embed::enforce_embed_limits`] answers: the first complaint in
    /// the order title, description, number of fields, each field in turn,
    /// footer, whole size.
    pub open spec fn check(self) -> Result<(), EmbedTooBigError> {
        if opt_byte_len(self.title) > MAX_NAME_LEN {
            Err(
                EmbedTooBigError::FieldTooBig {
                    field: "title",
                    length: opt_byte_len(self.title) as usize,
                    max: MAX_NAME_LEN,
                },
            )
        } else if opt_byte_len(self.description) > MAX_TEXT_LEN {
            Err(
                EmbedTooBigError::FieldTooBig {
                    field: "description",
                    length: opt_byte_len(self.description) as usize,
                    max: MAX_TEXT_LEN,
                },
            )
        } else if self.field_list().len() > MAX_FIELDS {
            Err(
                EmbedTooBigError::FieldTooBig {
                    field: "fields",
                    length: self.field_list().len() as usize,
                    max: MAX_FIELDS,
                },
            )
        } else if fields_check(self.field_list()) is Err {
            fields_check(self.field_list())
        } else if self.footer is Some && self.footer.unwrap().check() is Err {
            self.footer.unwrap().check()
        } else if self.size() > MAX_EMBED_SIZE {
            Err(EmbedTooBigError::WholeTooBig(capped(self.size())))
        } else {
            Ok(())
        }
    }

    pub fn set_color(&mut self, color: u32)
        ensures
            *final(self) == (Embed { color: Some(color), ..*old(self) }),
    {
        self.color = Some(color);
    }

    pub fn set_title(&mut self, title: String)
        ensures
            *final(self) == (Embed { title: Some(title), ..*old(self) }),
    {
        self.title = Some(title);
    }

    pub fn set_description(&mut self, description: String)
        ensures
            *final(self) == (Embed { description: Some(description), ..*old(self) }),
    {
        self.description = Some(description);
    }

    /// Replaces the fields of the embed.
    pub fn with_fields(&mut self, fields: Vec<EmbedField>)
        ensures
            *final(self) == (Embed { fields: Some(fields), ..*old(self) }),
    {
        self.fields = Some(fields);
    }

    /// Adds a field behind those that the embed has.
    pub fn push_field(&mut self, field: EmbedField)
        ensures
            final(self).field_list() == old(self).field_list().push(field),
            final(self).fields is Some,
            (Embed { fields: None, ..*final(self) }) == (Embed { fields: None, ..*old(self) }),
    {
        let mut fields = match self.fields.take() {
            Some(fields) => fields,
            None => Vec::new(),
        };
        fields.push(field);
        self.fields = Some(fields);
    }

    /// The bytes that count towards the size of the embed.
    pub fn data_size(&self) -> (n: usize)
        ensures
            n == capped(self.size()),
    {
        let fields_total = match &self.fields {
            Some(fields) => {
                let mut sum: usize = 0;
                let mut i: usize = 0;
                while i < fields.len()
                    invariant
                        i <= fields@.len(),
                        sum == capped(fields_size(fields@.take(i as int))),
                    decreases fields@.len() - i,
                {
                    proof {
                        assert(fields@.take(i + 1).drop_last() =~= fields@.take(i as int));
                        lemma_capped_sum(
                            fields_size(fields@.take(i as int)),
                            fields@[i as int].size(),
                        );
                    }
                    sum = add_sizes(sum, fields[i].data_size());
                    i = i + 1;
                }
                assert(fields@.take(i as int) =~= fields@);
                sum
            },
            None => 0,
        };
        let ghost mut total_size: nat = opt_byte_len(self.title);
        let mut total: usize = opt_text_len(&self.title);
        proof {
            lemma_capped_sum(total_size, opt_byte_len(self.description));
        }
        total = add_sizes(total, opt_text_len(&self.description));
        proof {
            total_size = total_size + opt_byte_len(self.description);
            lemma_capped_sum(total_size, opt_byte_len(self.url));
        }
        total = add_sizes(total, opt_text_len(&self.url));
        let part = match &self.footer {
            Some(p) => p.data_size(),
            None => 0,
        };
        let ghost part_size: nat = self.footer_size();
        proof {
            total_size = total_size + opt_byte_len(self.url);
            lemma_capped_sum(total_size, part_size);
        }
        total = add_sizes(total, part);
        let part = match &self.image {
            Some(p) => p.data_size(),
            None => 0,
        };
        proof {
            total_size = total_size + part_size;
        }
        let ghost part_size: nat = self.image_size();
        proof {
            lemma_capped_sum(total_size, part_size);
        }
        total = add_sizes(total, part);
        let part = match &self.thumbnail {
            Some(p) => p.data_size(),
            None => 0,
        };
        proof {
            total_size = total_size + part_size;
        }
        let ghost part_size: nat = self.thumbnail_size();
        proof {
            lemma_capped_sum(total_size, part_size);
        }
        total = add_sizes(total, part);
        let part = match &self.video {
            Some(p) => p.data_size(),
            None => 0,
        };
        proof {
            total_size = total_size + part_size;
        }
        let ghost part_size: nat = self.video_size();
        proof {
            lemma_capped_sum(total_size, part_size);
        }
        total = add_sizes(total, part);
        let part = match &self.provider {
            Some(p) => p.data_size(),
            None => 0,
        };
        proof {
            total_size = total_size + part_size;
        }
        let ghost part_size: nat = self.provider_size();
        proof {
            lemma_capped_sum(total_size, part_size);
        }
        total = add_sizes(total, part);
        let part = match &self.author {
            Some(p) => p.data_size(),
            None => 0,
        };
        proof {
            total_size = total_size + part_size;
        }
        let ghost part_size: nat = self.author_size();
        proof {
            lemma_capped_sum(total_size, part_size);
        }
        total = add_sizes(total, part);
        proof {
            total_size = total_size + part_size;
        }
        let ghost part_size: nat = fields_size(self.field_list());
        proof {
            lemma_capped_sum(total_size, part_size);
        }
        total = add_sizes(total, fields_total);
        proof {
            total_size = total_size + part_size;
            assert(total_size == self.size());
        }
        total
    }

    /// Checks the embed against the limits of the service: a title of at
    /// most 256 bytes, a description of at most 2048, at most 25 fields, each
    /// with a name of at most 256 and a value of at most 1024 bytes, a footer
    /// text of at most 2048 bytes, and at most 6000 bytes in all.
    #[verifier::loop_isolation(false)]
    pub fn enforce_embed_limits(&self) -> (r: Result<(), EmbedTooBigError>)
        ensures
            r == self.check(),
            r is Ok <==> self.within_limits(),
    {
        proof {
            lemma_fields_check(self.field_list());
        }
        let title_len = opt_text_len(&self.title);
        if title_len > MAX_NAME_LEN {
            return Err(
                EmbedTooBigError::FieldTooBig { field: "title", length: title_len, max: MAX_NAME_LEN },
            );
        }
        let description_len = opt_text_len(&self.description);
        if description_len > MAX_TEXT_LEN {
            return Err(
                EmbedTooBigError::FieldTooBig {
                    field: "description",
                    length: description_len,
                    max: MAX_TEXT_LEN,
                },
            );
        }
        match &self.fields {
            Some(fields) => {
                if fields.len() > MAX_FIELDS {
                    return Err(
                        EmbedTooBigError::FieldTooBig {
                            field: "fields",
                            length: fields.len(),
                            max: MAX_FIELDS,
                        },
                    );
                }
                let mut i: usize = 0;
                assert(fields@.skip(0) =~= fields@);
                while i < fields.len()
                    invariant
                        i <= fields@.len(),
                        fields_check(fields@) == fields_check(fields@.skip(i as int)),
                    decreases fields@.len() - i,
                {
                    assert(fields@.skip(i as int)[0] == fields@[i as int]);
                    assert(fields@.skip(i as int).skip(1) =~= fields@.skip(i + 1));
                    assert(fields_check(fields@.skip(i as int)) == match fields@[i as int].check() {
                        Err(e) => Err(e),
                        Ok(_) => fields_check(fields@.skip(i + 1)),
                    });
                    match fields[i].enforce_embed_limits() {
                        Err(e) => {
                            return Err(e);
                        },
                        Ok(_) => {},
                    }
                    i = i + 1;
                }
                assert(fields@.skip(i as int) =~= Seq::<EmbedField>::empty());
            },
            None => {},
        }
        match &self.footer {
            Some(footer) => {
                match footer.enforce_embed_limits() {
                    Err(e) => {
                        return Err(e);
                    },
                    Ok(_) => {},
                }
            },
            None => {},
        }
        let size = self.data_size();
        if size > MAX_EMBED_SIZE {
            return Err(EmbedTooBigError::WholeTooBig(size));
        }
        Ok(())
    }
}

impl EmbedThumbnail {
    /// The JSON object that this is sent as; what is not set is left out.
    pub open spec fn json(self) -> Json {
        let m = no_members();
        let m = with_member(m, "url"@, opt_str_json(self.url));
        let m = with_member(m, "proxy_url"@, opt_str_json(self.proxy_url));
        let m = with_member(m, "height"@, opt_u64_json(self.height));
        let m = with_member(m, "width"@, opt_u64_json(self.width));
        Json::Object(m)
    }

    pub fn to_json(&self) -> (r: serde_json::Value)
        ensures
            json_view(r) == self.json(),
    {
        let mut m = json_map_new();
        put_opt_str(&mut m, "url", &self.url);
        put_opt_str(&mut m, "proxy_url", &self.proxy_url);
        put_opt_u64(&mut m, "height", self.height);
        put_opt_u64(&mut m, "width", self.width);
        json_from_map(m)
    }
}

impl EmbedVideo {
    /// The JSON object that this is sent as; what is not set is left out.
    pub open spec fn json(self) -> Json {
        let m = no_members();
        let m = with_member(m, "url"@, opt_str_json(self.url));
        let m = with_member(m, "height"@, opt_u64_json(self.height));
        let m = with_member(m, "width"@, opt_u64_json(self.width));
        Json::Object(m)
    }

    pub fn to_json(&self) -> (r: serde_json::Value)
        ensures
            json_view(r) == self.json(),
    {
        let mut m = json_map_new();
        put_opt_str(&mut m, "url", &self.url);
        put_opt_u64(&mut m, "height", self.height);
        put_opt_u64(&mut m, "width", self.width);
        json_from_map(m)
    }
}

impl EmbedImage {
    /// The JSON object that this is sent as; what is not set is left out.
    pub open spec fn json(self) -> Json {
        let m = no_members();
        let m = with_member(m, "url"@, opt_str_json(self.url));
        let m = with_member(m, "proxy_url"@, opt_str_json(self.proxy_url));
        let m = with_member(m, "height"@, opt_u64_json(self.height));
        let m = with_member(m, "width"@, opt_u64_json(self.width));
        Json::Object(m)
    }

    pub fn to_json(&self) -> (r: serde_json::Value)
        ensures
            json_view(r) == self.json(),
    {
        let mut m = json_map_new();
        put_opt_str(&mut m, "url", &self.url);
        put_opt_str(&mut m, "proxy_url", &self.proxy_url);
        put_opt_u64(&mut m, "height", self.height);
        put_opt_u64(&mut m, "width", self.width);
        json_from_map(m)
    }
}

impl EmbedProvider {
    /// The JSON object that this is sent as; what is not set is left out.
    pub open spec fn json(self) -> Json {
        let m = no_members();
        let m = with_member(m, "name"@, opt_str_json(self.name));
        let m = with_member(m, "url"@, opt_str_json(self.url));
        Json::Object(m)
    }

    pub fn to_json(&self) -> (r: serde_json::Value)
        ensures
            json_view(r) == self.json(),
    {
        let mut m = json_map_new();
        put_opt_str(&mut m, "name", &self.name);
        put_opt_str(&mut m, "url", &self.url);
        json_from_map(m)
    }
}

impl EmbedAuthor {
    /// The JSON object that this is sent as; what is not set is left out.
    pub open spec fn json(self) -> Json {
        let m = no_members();
        let m = with_member(m, "name"@, opt_str_json(self.name));
        let m = with_member(m, "url"@, opt_str_json(self.url));
        let m = with_member(m, "icon_url"@, opt_str_json(self.icon_url));
        let m = with_member(m, "proxy_icon_url"@, opt_str_json(self.proxy_icon_url));
        Json::Object(m)
    }

    pub fn to_json(&self) -> (r: serde_json::Value)
        ensures
            json_view(r) == self.json(),
    {
        let mut m = json_map_new();
        put_opt_str(&mut m, "name", &self.name);
        put_opt_str(&mut m, "url", &self.url);
        put_opt_str(&mut m, "icon_url", &self.icon_url);
        put_opt_str(&mut m, "proxy_icon_url", &self.proxy_icon_url);
        json_from_map(m)
    }
}

impl EmbedFooter {
    /// The JSON object that this is sent as; what is not set is left out.
    pub open spec fn json(self) -> Json {
        let m = no_members();
        let m = m.insert("text"@, Json::Str(self.text@));
        let m = with_member(m, "icon_url"@, opt_str_json(self.icon_url));
        let m = with_member(m, "proxy_icon_url"@, opt_str_json(self.proxy_icon_url));
        Json::Object(m)
    }

    pub fn to_json(&self) -> (r: serde_json::Value)
        ensures
            json_view(r) == self.json(),
    {
        let mut m = json_map_new();
        put_str(&mut m, "text", self.text.as_str());
        put_opt_str(&mut m, "icon_url", &self.icon_url);
        put_opt_str(&mut m, "proxy_icon_url", &self.proxy_icon_url);
        json_from_map(m)
    }
}

impl EmbedField {
    /// The JSON object that this is sent as; what is not set is left out.
    pub open spec fn json(self) -> Json {
        let m = no_members();
        let m = m.insert("name"@, Json::Str(self.name@));
        let m = m.insert("value"@, Json::Str(self.value@));
        let m = with_member(m, "inline"@, opt_bool_json(self.inline));
        Json::Object(m)
    }

    pub fn to_json(&self) -> (r: serde_json::Value)
        ensures
            json_view(r) == self.json(),
    {
        let mut m = json_map_new();
        put_str(&mut m, "name", self.name.as_str());
        put_str(&mut m, "value", self.value.as_str());
        put_opt_bool(&mut m, "inline", self.inline);
        json_from_map(m)
    }
}

/// The JSON forms of a list of fields.
pub open spec fn fields_json(fields: Seq<EmbedField>) -> Seq<Json> {
    Seq::new(fields.len(), |i: int| fields[i].json())
}

impl Embed {
    /// The JSON object that this is sent as; what is not set is left out.
    pub open spec fn json(self) -> Json {
        let m = no_members();
        let m = with_member(m, "title"@, opt_str_json(self.title));
        let m = with_member(m, "type"@, opt_str_json(self.embed_type));
        let m = with_member(m, "description"@, opt_str_json(self.description));
        let m = with_member(m, "url"@, opt_str_json(self.url));
        let m = with_member(m, "timestamp"@, opt_str_json(self.timestamp));
        let m = with_member(
            m,
            "color"@,
            match self.color {
                Some(n) => Some(Json::PosInt(n as u64)),
                None => None,
            },
        );
        let m = with_member(
            m,
            "footer"@,
            match self.footer {
                Some(part) => Some(part.json()),
                None => None,
            },
        );
        let m = with_member(
            m,
            "image"@,
            match self.image {
                Some(part) => Some(part.json()),
                None => None,
            },
        );
        let m = with_member(
            m,
            "thumbnail"@,
            match self.thumbnail {
                Some(part) => Some(part.json()),
                None => None,
            },
        );
        let m = with_member(
            m,
            "video"@,
            match self.video {
                Some(part) => Some(part.json()),
                None => None,
            },
        );
        let m = with_member(
            m,
            "provider"@,
            match self.provider {
                Some(part) => Some(part.json()),
                None => None,
            },
        );
        let m = with_member(
            m,
            "author"@,
            match self.author {
                Some(part) => Some(part.json()),
                None => None,
            },
        );
        let m = with_member(
            m,
            "fields"@,
            match self.fields {
                Some(fields) => Some(Json::Array(fields_json(fields@))),
                None => None,
            },
        );
        Json::Object(m)
    }

    pub fn to_json(&self) -> (r: serde_json::Value)
        ensures
            json_view(r) == self.json(),
    {
        let mut m = json_map_new();
        put_opt_str(&mut m, "title", &self.title);
        put_opt_str(&mut m, "type", &self.embed_type);
        put_opt_str(&mut m, "description", &self.description);
        put_opt_str(&mut m, "url", &self.url);
        put_opt_str(&mut m, "timestamp", &self.timestamp);
        match self.color {
            Some(n) => {
                put_u64(&mut m, "color", n as u64);
            },
            None => {},
        }
        match &self.footer {
            Some(part) => {
                json_map_insert(&mut m, "footer", part.to_json());
            },
            None => {},
        }
        match &self.image {
            Some(part) => {
                json_map_insert(&mut m, "image", part.to_json());
            },
            None => {},
        }
        match &self.thumbnail {
            Some(part) => {
                json_map_insert(&mut m, "thumbnail", part.to_json());
            },
            None => {},
        }
        match &self.video {
            Some(part) => {
                json_map_insert(&mut m, "video", part.to_json());
            },
            None => {},
        }
        match &self.provider {
            Some(part) => {
                json_map_insert(&mut m, "provider", part.to_json());
            },
            None => {},
        }
        match &self.author {
            Some(part) => {
                json_map_insert(&mut m, "author", part.to_json());
            },
            None => {},
        }
        match &self.fields {
            Some(fields) => {
                let mut items: Vec<serde_json::Value> = Vec::new();
                let mut i: usize = 0;
                while i < fields.len()
                    invariant
                        i <= fields@.len(),
                        items@.len() == i,
                        forall|k: int|
                            0 <= k < i ==> json_view(#[trigger] items@[k]) == fields@[k].json(),
                    decreases fields@.len() - i,
                {
                    items.push(fields[i].to_json());
                    i = i + 1;
                }
                assert(json_views(items@) =~= fields_json(fields@));
                json_map_insert(&mut m, "fields", json_from_array(items));
            },
            None => {},
        }
        json_from_map(m)
    }
}

} // verus!
