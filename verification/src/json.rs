//! JSON text of the messages and replies the bot sends.

use vstd::prelude::*;
use vstd::string::*;
use crate::models::{
    Component, Container, DiscordWebhookV2, MediaGallery, MediaGalleryItem, Section, Separator,
    TextDisplay, Thumbnail,
};
use crate::text::{decimal, join, push_decimal};

verus! {

broadcast use vstd::string::group_string_axioms;

/// Lower-case hexadecimal digit for `d` (0 to 15).
pub open spec fn hex_lower(d: int) -> char {
    if d < 10 {
        (d + 48) as char
    } else {
        (d + 87) as char
    }
}

/// How one character is written inside a JSON string: quote, backslash
/// and control characters are escaped, everything else is kept.
pub open spec fn escape_char(c: char) -> Seq<char> {
    if c == '"' {
        seq!['\\', '"']
    } else if c == '\\' {
        seq!['\\', '\\']
    } else if c == '\n' {
        seq!['\\', 'n']
    } else if c == '\r' {
        seq!['\\', 'r']
    } else if c == '\t' {
        seq!['\\', 't']
    } else if c == '\x08' {
        seq!['\\', 'b']
    } else if c == '\x0c' {
        seq!['\\', 'f']
    } else if (c as u32) < 0x20 {
        seq![
            '\\',
            'u',
            '0',
            '0',
            hex_lower((c as u32 / 16) as int),
            hex_lower((c as u32 % 16) as int),
        ]
    } else {
        seq![c]
    }
}

/// The characters of `s`, escaped for a JSON string.
pub open spec fn escaped(s: Seq<char>) -> Seq<char>
    decreases s.len(),
{
    if s.len() == 0 {
        Seq::empty()
    } else {
        escaped(s.drop_last()) + escape_char(s.last())
    }
}

/// `s` as a JSON string literal.
pub open spec fn json_str(s: Seq<char>) -> Seq<char> {
    seq!['"'] + escaped(s) + seq!['"']
}

/// `true` or `false`.
pub open spec fn json_bool(b: bool) -> Seq<char> {
    if b {
        "true"@
    } else {
        "false"@
    }
}

/// `serde_json::to_string` on a string slice: the string as a JSON string
/// literal. serde_json escapes `"` and `\` with a backslash, writes
/// `\b`, `\t`, `\n`, `\f` and `\r` for those control characters and
/// `\u00xx` (lower-case hex) for the other ones below U+0020, and copies
/// every other character. Serializing a `str` cannot fail (it only writes
/// to a growing buffer), so the error arm is never taken.
#[verifier::external_body]
fn json_string_literal(s: &str) -> (r: String)
    ensures
        r@ == json_str(s@),
{
    serde_json::to_string(s).expect("a string always serializes")
}

/// Appends `s` as a JSON string literal.
pub fn push_json_str(out: &mut String, s: &str)
    ensures
        final(out)@ == old(out)@ + json_str(s@),
{
    let lit = json_string_literal(s);
    out.append(lit.as_str());
}

/// `",\"name\":\"value\""` for a present optional string; nothing otherwise.
pub open spec fn opt_str_member(key: Seq<char>, v: Option<String>) -> Seq<char> {
    match v {
        Some(s) => key + json_str(s@),
        None => Seq::empty(),
    }
}

/// JSON of a media reference.
pub open spec fn media_json(url: Seq<char>) -> Seq<char> {
    "{\"url\":"@ + json_str(url) + "}"@
}

/// JSON of a gallery image.
pub open spec fn gallery_item_json(it: MediaGalleryItem) -> Seq<char> {
    "{\"media\":"@ + media_json(it.media.url@) + opt_str_member(
        ",\"description\":"@,
        it.description,
    ) + "}"@
}

/// JSON of gallery images, comma-separated.
pub open spec fn gallery_items_json(items: Seq<MediaGalleryItem>) -> Seq<char>
    decreases items.len(),
{
    if items.len() == 0 {
        Seq::empty()
    } else if items.len() == 1 {
        gallery_item_json(items[0])
    } else {
        gallery_items_json(items.drop_last()) + ","@ + gallery_item_json(items.last())
    }
}

/// JSON of a thumbnail.
pub open spec fn thumbnail_json(t: Thumbnail) -> Seq<char> {
    "{\"type\":"@ + decimal(t.kind as nat) + ",\"media\":"@ + media_json(t.media.url@)
        + opt_str_member(",\"description\":"@, t.description) + "}"@
}

/// JSON of a container.
pub open spec fn container_json(k: Container) -> Seq<char>
    decreases k,
{
    "{\"type\":"@ + decimal(k.kind as nat) + match k.accent_color {
        Some(a) => ",\"accent_color\":"@ + decimal(a as nat),
        None => Seq::empty(),
    } + ",\"components\":["@ + components_json(k.components@) + "]}"@
}

/// JSON of a text display.
pub open spec fn text_display_json(t: TextDisplay) -> Seq<char> {
    "{\"type\":"@ + decimal(t.kind as nat) + ",\"content\":"@ + json_str(t.content@) + "}"@
}

/// JSON of a separator.
pub open spec fn separator_json(s: Separator) -> Seq<char> {
    "{\"type\":"@ + decimal(s.kind as nat) + match s.divider {
        Some(d) => ",\"divider\":"@ + json_bool(d),
        None => Seq::empty(),
    } + match s.spacing {
        Some(sp) => ",\"spacing\":"@ + decimal(sp as nat),
        None => Seq::empty(),
    } + "}"@
}

/// JSON of a media gallery.
pub open spec fn media_gallery_json(g: MediaGallery) -> Seq<char> {
    "{\"type\":"@ + decimal(g.kind as nat) + ",\"items\":["@ + gallery_items_json(g.items@)
        + "]}"@
}

/// JSON of a section.
pub open spec fn section_json(s: Section) -> Seq<char>
    decreases s,
{
    "{\"type\":"@ + decimal(s.kind as nat) + ",\"components\":["@ + components_json(
        s.components@,
    ) + "],\"accessory\":"@ + thumbnail_json(s.accessory) + "}"@
}

/// JSON of a component: an object with its `type` code and its members in
/// declaration order, absent optional members left out.
pub open spec fn component_json(c: Component) -> Seq<char>
    decreases c,
{
    match c {
        Component::Container(k) => container_json(k),
        Component::TextDisplay(t) => text_display_json(t),
        Component::Separator(s) => separator_json(s),
        Component::MediaGallery(g) => media_gallery_json(g),
        Component::Section(s) => section_json(s),
    }
}

/// JSON of components, comma-separated.
pub open spec fn components_json(cs: Seq<Component>) -> Seq<char>
    decreases cs,
{
    if cs.len() == 0 {
        Seq::empty()
    } else if cs.len() == 1 {
        component_json(cs[0])
    } else {
        components_json(cs.drop_last()) + ","@ + component_json(cs.last())
    }
}


fn push_media(out: &mut String, url: &String)
    ensures
        final(out)@ == old(out)@ + media_json(url@),
{
    out.append("{\"url\":");
    push_json_str(out, url.as_str());
    out.append("}");
    assert(final(out)@ =~= old(out)@ + media_json(url@));
}

fn push_opt_str_member(out: &mut String, key: &str, v: &Option<String>)
    ensures
        final(out)@ == old(out)@ + opt_str_member(key@, *v),
{
    match v {
        Some(s) => {
            out.append(key);
            push_json_str(out, s.as_str());
            assert(final(out)@ =~= old(out)@ + opt_str_member(key@, *v));
        },
        None => {
            assert(final(out)@ =~= old(out)@ + opt_str_member(key@, *v));
        },
    }
}

fn push_thumbnail(out: &mut String, t: &Thumbnail)
    ensures
        final(out)@ == old(out)@ + thumbnail_json(*t),
{
    out.append("{\"type\":");
    push_decimal(out, t.kind as u64);
    out.append(",\"media\":");
    push_media(out, &t.media.url);
    push_opt_str_member(out, ",\"description\":", &t.description);
    out.append("}");
    assert(final(out)@ =~= old(out)@ + thumbnail_json(*t));
}

fn push_gallery_items(out: &mut String, items: &Vec<MediaGalleryItem>)
    ensures
        final(out)@ == old(out)@ + gallery_items_json(items@),
{
    let ghost start = out@;
    let mut i: usize = 0;
    while i < items.len()
        invariant
            i <= items@.len(),
            out@ == start + gallery_items_json(items@.take(i as int)),
        decreases items@.len() - i,
    {
        assert(items@.take(i + 1).drop_last() == items@.take(i as int));
        let ghost before = out@;
        if i > 0 {
            out.append(",");
        }
        out.append("{\"media\":");
        push_media(out, &items[i].media.url);
        push_opt_str_member(out, ",\"description\":", &items[i].description);
        out.append("}");
        assert(out@ =~= start + gallery_items_json(items@.take(i + 1)));
        i = i + 1;
    }
    assert(items@.take(items@.len() as int) == items@);
}

fn push_text_display(out: &mut String, t: &TextDisplay)
    ensures
        final(out)@ == old(out)@ + text_display_json(*t),
{
    out.append("{\"type\":");
    push_decimal(out, t.kind as u64);
    out.append(",\"content\":");
    push_json_str(out, t.content.as_str());
    out.append("}");
    assert(final(out)@ =~= old(out)@ + text_display_json(*t));
}

fn push_separator(out: &mut String, s: &Separator)
    ensures
        final(out)@ == old(out)@ + separator_json(*s),
{
    out.append("{\"type\":");
    push_decimal(out, s.kind as u64);
    match s.divider {
        Some(d) => {
            out.append(",\"divider\":");
            if d {
                out.append("true");
            } else {
                out.append("false");
            }
        },
        None => {},
    }
    match s.spacing {
        Some(sp) => {
            out.append(",\"spacing\":");
            push_decimal(out, sp as u64);
        },
        None => {},
    }
    out.append("}");
    assert(final(out)@ =~= old(out)@ + separator_json(*s));
}

fn push_media_gallery(out: &mut String, g: &MediaGallery)
    ensures
        final(out)@ == old(out)@ + media_gallery_json(*g),
{
    out.append("{\"type\":");
    push_decimal(out, g.kind as u64);
    out.append(",\"items\":[");
    push_gallery_items(out, &g.items);
    out.append("]}");
    assert(final(out)@ =~= old(out)@ + media_gallery_json(*g));
}

fn push_container(out: &mut String, k: &Container)
    ensures
        final(out)@ == old(out)@ + container_json(*k),
    decreases k,
{
    out.append("{\"type\":");
    push_decimal(out, k.kind as u64);
    match k.accent_color {
        Some(a) => {
            out.append(",\"accent_color\":");
            push_decimal(out, a as u64);
        },
        None => {},
    }
    out.append(",\"components\":[");
    let ghost mid = out@;
    let mut i: usize = 0;
    while i < k.components.len()
        invariant
            i <= k.components@.len(),
            out@ == mid + components_json(k.components@.take(i as int)),
        decreases k.components@.len() - i,
    {
        assert(k.components@.take(i + 1).drop_last() == k.components@.take(i as int));
        if i > 0 {
            out.append(",");
        }
        proof {
            assert(decreases_to!(*k => k.components));
            assert(decreases_to!(k.components => k.components@));
            assert(decreases_to!(k.components@ => k.components@[i as int]));
        }
        push_component(out, &k.components[i]);
        assert(out@ =~= mid + components_json(k.components@.take(i + 1)));
        i = i + 1;
    }
    assert(k.components@.take(k.components@.len() as int) == k.components@);
    out.append("]}");
    assert(final(out)@ =~= old(out)@ + container_json(*k));
}

fn push_section(out: &mut String, s: &Section)
    ensures
        final(out)@ == old(out)@ + section_json(*s),
    decreases s,
{
    out.append("{\"type\":");
    push_decimal(out, s.kind as u64);
    out.append(",\"components\":[");
    let ghost mid = out@;
    let mut i: usize = 0;
    while i < s.components.len()
        invariant
            i <= s.components@.len(),
            out@ == mid + components_json(s.components@.take(i as int)),
        decreases s.components@.len() - i,
    {
        assert(s.components@.take(i + 1).drop_last() == s.components@.take(i as int));
        if i > 0 {
            out.append(",");
        }
        proof {
            assert(decreases_to!(*s => s.components));
            assert(decreases_to!(s.components => s.components@));
            assert(decreases_to!(s.components@ => s.components@[i as int]));
        }
        push_component(out, &s.components[i]);
        assert(out@ =~= mid + components_json(s.components@.take(i + 1)));
        i = i + 1;
    }
    assert(s.components@.take(s.components@.len() as int) == s.components@);
    out.append("],\"accessory\":");
    push_thumbnail(out, &s.accessory);
    out.append("}");
    assert(final(out)@ =~= old(out)@ + section_json(*s));
}

/// Appends the JSON of a component.
pub fn push_component(out: &mut String, c: &Component)
    ensures
        final(out)@ == old(out)@ + component_json(*c),
    decreases c,
{
    match c {
        Component::Container(k) => {
            proof {
                assert(decreases_to!(*c => (*c)->Container_0));
            }
            push_container(out, k)
        },
        Component::TextDisplay(t) => push_text_display(out, t),
        Component::Separator(s) => push_separator(out, s),
        Component::MediaGallery(g) => push_media_gallery(out, g),
        Component::Section(s) => {
            proof {
                assert(decreases_to!(*c => (*c)->Section_0));
            }
            push_section(out, s)
        },
    }
}

/// JSON of a webhook message: user name, avatar URL when there is one,
/// flags and components.
pub open spec fn webhook_json(w: DiscordWebhookV2) -> Seq<char> {
    "{\"username\":"@ + json_str(w.username@) + opt_str_member(",\"avatar_url\":"@, w.avatar_url)
        + ",\"flags\":"@ + decimal(w.flags as nat) + ",\"components\":["@ + components_json(
        w.components@,
    ) + "]}"@
}

impl DiscordWebhookV2 {
    /// The JSON text of this message, as posted to the webhook.
    pub fn to_json(&self) -> (r: String)
        ensures
            r@ == webhook_json(*self),
    {
        let mut out = String::new();
        out.append("{\"username\":");
        push_json_str(&mut out, self.username.as_str());
        push_opt_str_member(&mut out, ",\"avatar_url\":", &self.avatar_url);
        out.append(",\"flags\":");
        push_decimal(&mut out, self.flags as u64);
        out.append(",\"components\":[");
        let ghost mid = out@;
        let mut i: usize = 0;
        while i < self.components.len()
            invariant
                i <= self.components@.len(),
                out@ == mid + components_json(self.components@.take(i as int)),
            decreases self.components@.len() - i,
        {
            assert(self.components@.take(i + 1).drop_last() == self.components@.take(i as int));
            if i > 0 {
                out.append(",");
            }
            push_component(&mut out, &self.components[i]);
            assert(out@ =~= mid + components_json(self.components@.take(i + 1)));
            i = i + 1;
        }
        assert(self.components@.take(self.components@.len() as int) == self.components@);
        out.append("]}");
        assert(out@ =~= webhook_json(*self));
        out
    }
}

impl Component {
    /// The JSON text of this component.
    pub fn to_json(&self) -> (r: String)
        ensures
            r@ == component_json(*self),
    {
        let mut out = String::new();
        push_component(&mut out, self);
        assert(out@ =~= component_json(*self));
        out
    }
}

impl Container {
    /// The JSON text of this container.
    pub fn to_json(&self) -> (r: String)
        ensures
            r@ == container_json(*self),
    {
        let mut out = String::new();
        push_container(&mut out, self);
        assert(out@ =~= container_json(*self));
        out
    }
}

impl TextDisplay {
    /// The JSON text of this text display.
    pub fn to_json(&self) -> (r: String)
        ensures
            r@ == text_display_json(*self),
    {
        let mut out = String::new();
        push_text_display(&mut out, self);
        assert(out@ =~= text_display_json(*self));
        out
    }
}

impl Separator {
    /// The JSON text of this separator.
    pub fn to_json(&self) -> (r: String)
        ensures
            r@ == separator_json(*self),
    {
        let mut out = String::new();
        push_separator(&mut out, self);
        assert(out@ =~= separator_json(*self));
        out
    }
}

impl MediaGallery {
    /// The JSON text of this gallery.
    pub fn to_json(&self) -> (r: String)
        ensures
            r@ == media_gallery_json(*self),
    {
        let mut out = String::new();
        push_media_gallery(&mut out, self);
        assert(out@ =~= media_gallery_json(*self));
        out
    }
}

impl Section {
    /// The JSON text of this section.
    pub fn to_json(&self) -> (r: String)
        ensures
            r@ == section_json(*self),
    {
        let mut out = String::new();
        push_section(&mut out, self);
        assert(out@ =~= section_json(*self));
        out
    }
}


/// Whether `part` occurs in `text`.
pub open spec fn contains_text(text: Seq<char>, part: Seq<char>) -> bool {
    exists|i: int|
        #![trigger text.subrange(i, i + part.len())]
        0 <= i && i + part.len() <= text.len() && text.subrange(i, i + part.len()) == part
}

/// The JSON texts of components, in order.
pub open spec fn component_texts(cs: Seq<Component>) -> Seq<Seq<char>> {
    cs.map_values(|c: Component| component_json(c))
}

/// A `components` member listing the JSON of each component, in order,
/// separated by commas.
pub open spec fn components_member(cs: Seq<Component>) -> Seq<char> {
    "\"components\":["@ + join(component_texts(cs), ","@) + "]"@
}

proof fn lemma_contains_at(text: Seq<char>, pre: Seq<char>, part: Seq<char>, post: Seq<char>)
    requires
        text == pre + part + post,
    ensures
        contains_text(text, part),
{
    let i = pre.len() as int;
    assert(text.subrange(i, i + part.len()) =~= part);
}

proof fn lemma_contains_trans(text: Seq<char>, mid: Seq<char>, part: Seq<char>)
    requires
        contains_text(text, mid),
        contains_text(mid, part),
    ensures
        contains_text(text, part),
{
    let i = choose|i: int|
        #![trigger text.subrange(i, i + mid.len())]
        0 <= i && i + mid.len() <= text.len() && text.subrange(i, i + mid.len()) == mid;
    let j = choose|j: int|
        #![trigger mid.subrange(j, j + part.len())]
        0 <= j && j + part.len() <= mid.len() && mid.subrange(j, j + part.len()) == part;
    assert(text.subrange(i + j, i + j + part.len()) =~= part);
}

/// The comma-separated JSON of components is the JSON of each component,
/// in order, joined with commas.
pub proof fn lemma_components_json_join(cs: Seq<Component>)
    ensures
        components_json(cs) == join(component_texts(cs), ","@),
    decreases cs.len(),
{
    if cs.len() >= 2 {
        lemma_components_json_join(cs.drop_last());
        assert(component_texts(cs).drop_last() =~= component_texts(cs.drop_last()));
        assert(component_texts(cs).last() == component_json(cs.last()));
    } else if cs.len() == 1 {
        assert(component_texts(cs)[0] == component_json(cs[0]));
    } else {
        assert(component_texts(cs) =~= Seq::<Seq<char>>::empty());
    }
}

/// Each of the joined pieces occurs in the joined text.
proof fn lemma_join_contains(parts: Seq<Seq<char>>, sep: Seq<char>, j: int)
    requires
        0 <= j < parts.len(),
    ensures
        contains_text(join(parts, sep), parts[j]),
    decreases parts.len(),
{
    if parts.len() == 1 {
        lemma_contains_at(join(parts, sep), Seq::empty(), parts[0], Seq::empty());
    } else if j == parts.len() - 1 {
        lemma_contains_at(join(parts, sep), join(parts.drop_last(), sep) + sep, parts[j], Seq::empty());
    } else {
        lemma_join_contains(parts.drop_last(), sep, j);
        assert(join(parts, sep) =~= Seq::<char>::empty() + join(parts.drop_last(), sep) + (sep
            + parts.last()));
        lemma_contains_at(join(parts, sep), Seq::empty(), join(parts.drop_last(), sep), sep + parts.last());
        lemma_contains_trans(join(parts, sep), join(parts.drop_last(), sep), parts[j]);
    }
}

/// The JSON of every component occurs in a text that holds the
/// `components` member of those components.
proof fn lemma_member_holds_each(text: Seq<char>, cs: Seq<Component>)
    requires
        contains_text(text, components_member(cs)),
    ensures
        forall|j: int| 0 <= j < cs.len() ==> contains_text(text, #[trigger] component_json(cs[j])),
{
    assert forall|j: int| 0 <= j < cs.len() implies contains_text(text, #[trigger] component_json(cs[j])) by {
        let parts = component_texts(cs);
        lemma_join_contains(parts, ","@, j);
        lemma_contains_at(components_member(cs), "\"components\":["@, join(parts, ","@), "]"@);
        lemma_contains_trans(text, components_member(cs), join(parts, ","@));
        lemma_contains_trans(text, join(parts, ","@), parts[j]);
    }
}

/// A section's JSON lists its text components: it holds a `components`
/// member with the JSON of each of them, in order, and so the JSON of each
/// one.
pub proof fn lemma_section_json_components(s: Section)
    ensures
        contains_text(section_json(s), components_member(s.components@)),
        forall|j: int|
            0 <= j < s.components@.len() ==> contains_text(
                section_json(s),
                #[trigger] component_json(s.components@[j]),
            ),
{
    reveal_strlit(",\"components\":[");
    reveal_strlit("\"components\":[");
    reveal_strlit(",");
    reveal_strlit("]");
    reveal_strlit("}");
    reveal_strlit("],\"accessory\":");
    reveal_strlit(",\"accessory\":");
    lemma_components_json_join(s.components@);
    let head = "{\"type\":"@ + decimal(s.kind as nat);
    let tail = ",\"accessory\":"@ + thumbnail_json(s.accessory) + "}"@;
    assert(",\"components\":["@ =~= ","@ + "\"components\":["@);
    assert("],\"accessory\":"@ =~= "]"@ + ",\"accessory\":"@);
    assert(section_json(s) =~= (head + ","@) + components_member(s.components@) + tail);
    lemma_contains_at(section_json(s), head + ","@, components_member(s.components@), tail);
    lemma_member_holds_each(section_json(s), s.components@);
}

/// A container's JSON lists its components in the same way.
pub proof fn lemma_container_json_components(k: Container)
    ensures
        contains_text(container_json(k), components_member(k.components@)),
        forall|j: int|
            0 <= j < k.components@.len() ==> contains_text(
                container_json(k),
                #[trigger] component_json(k.components@[j]),
            ),
{
    reveal_strlit(",\"components\":[");
    reveal_strlit("\"components\":[");
    reveal_strlit(",");
    reveal_strlit("]");
    reveal_strlit("}");
    reveal_strlit("]}");
    lemma_components_json_join(k.components@);
    let head = "{\"type\":"@ + decimal(k.kind as nat) + match k.accent_color {
        Some(a) => ",\"accent_color\":"@ + decimal(a as nat),
        None => Seq::empty(),
    };
    assert(",\"components\":["@ =~= ","@ + "\"components\":["@);
    assert("]}"@ =~= "]"@ + "}"@);
    assert(container_json(k) =~= (head + ","@) + components_member(k.components@) + "}"@);
    lemma_contains_at(container_json(k), head + ","@, components_member(k.components@), "}"@);
    lemma_member_holds_each(container_json(k), k.components@);
}

/// A message's JSON lists its components in the same way.
pub proof fn lemma_webhook_json_components(w: DiscordWebhookV2)
    ensures
        contains_text(webhook_json(w), components_member(w.components@)),
        forall|j: int|
            0 <= j < w.components@.len() ==> contains_text(
                webhook_json(w),
                #[trigger] component_json(w.components@[j]),
            ),
{
    reveal_strlit(",\"components\":[");
    reveal_strlit("\"components\":[");
    reveal_strlit(",");
    reveal_strlit("]");
    reveal_strlit("}");
    reveal_strlit("]}");
    lemma_components_json_join(w.components@);
    let head = "{\"username\":"@ + json_str(w.username@) + opt_str_member(
        ",\"avatar_url\":"@,
        w.avatar_url,
    ) + ",\"flags\":"@ + decimal(w.flags as nat);
    assert(",\"components\":["@ =~= ","@ + "\"components\":["@);
    assert("]}"@ =~= "]"@ + "}"@);
    assert(webhook_json(w) =~= (head + ","@) + components_member(w.components@) + "}"@);
    lemma_contains_at(webhook_json(w), head + ","@, components_member(w.components@), "}"@);
    lemma_member_holds_each(webhook_json(w), w.components@);
}

/// Whether the JSON text `text` has a member named `key` whose value is
/// written `value` (followed by the next member or the end of its object).
pub open spec fn json_member(text: Seq<char>, key: Seq<char>, value: Seq<char>) -> bool {
    exists|i: int|
        #![trigger text.subrange(i, i + key.len() + 3 + value.len())]
        0 <= i && i + key.len() + 3 + value.len() < text.len() && text.subrange(
            i,
            i + key.len() + 3 + value.len(),
        ) == seq!['"'] + key + seq!['"', ':'] + value && (text[i + key.len() + 3 + value.len()]
            == ',' || text[i + key.len() + 3 + value.len()] == '}')
}

pub proof fn lemma_member_at(
    text: Seq<char>,
    pre: Seq<char>,
    key: Seq<char>,
    value: Seq<char>,
    post: Seq<char>,
)
    requires
        text == pre + (seq!['"'] + key + seq!['"', ':']) + value + post,
        post.len() > 0,
        post[0] == ',' || post[0] == '}',
    ensures
        json_member(text, key, value),
{
    let i = pre.len() as int;
    assert(text.subrange(i, i + key.len() + 3 + value.len()) =~= seq!['"'] + key + seq!['"', ':']
        + value);
    assert(text[i + key.len() + 3 + value.len()] == post[0]);
    assert(0 <= i && i + key.len() + 3 + value.len() < text.len());
}

/// Appending or prepending text keeps a member in place.
pub proof fn lemma_member_extend(x: Seq<char>, y: Seq<char>, key: Seq<char>, value: Seq<char>)
    requires
        json_member(x, key, value),
    ensures
        json_member(x + y, key, value),
        json_member(y + x, key, value),
{
    let m = key.len() + 3 + value.len();
    let i = choose|i: int|
        #![trigger x.subrange(i, i + key.len() + 3 + value.len())]
        0 <= i && i + key.len() + 3 + value.len() < x.len() && x.subrange(
            i,
            i + key.len() + 3 + value.len(),
        ) == seq!['"'] + key + seq!['"', ':'] + value && (x[i + key.len() + 3 + value.len()]
            == ',' || x[i + key.len() + 3 + value.len()] == '}');
    assert((x + y).subrange(i, i + key.len() + 3 + value.len()) =~= x.subrange(i, i + m));
    assert((x + y)[i + m] == x[i + m]);
    let j = i + y.len();
    assert((y + x).subrange(j, j + key.len() + 3 + value.len()) =~= x.subrange(i, i + m));
    assert((y + x)[j + m] == x[i + m]);
}

/// A text display's JSON carries its text under `content`.
pub proof fn lemma_text_display_json_content(t: TextDisplay)
    ensures
        json_member(text_display_json(t), "content"@, json_str(t.content@)),
        json_member(text_display_json(t), "type"@, decimal(t.kind as nat)),
{
    reveal_strlit("{\"type\":");
    reveal_strlit(",\"content\":");
    reveal_strlit("}");
    reveal_strlit("type");
    reveal_strlit("content");
    let m1 = seq!['"'] + "type"@ + seq!['"', ':'];
    let m2 = seq!['"'] + "content"@ + seq!['"', ':'];
    let k = decimal(t.kind as nat);
    let v = json_str(t.content@);
    assert("{\"type\":"@ =~= seq!['{'] + m1);
    assert(",\"content\":"@ =~= seq![','] + m2);
    let x = text_display_json(t);
    assert(x =~= seq!['{'] + m1 + k + (seq![','] + m2 + v + "}"@));
    lemma_member_at(x, seq!['{'], "type"@, k, seq![','] + m2 + v + "}"@);
    assert(x =~= (seq!['{'] + m1 + k + seq![',']) + m2 + v + "}"@);
    lemma_member_at(x, seq!['{'] + m1 + k + seq![','], "content"@, v, "}"@);
}

/// A separator's JSON carries its divider under `divider` and its spacing
/// under `spacing`, each when it is set.
pub proof fn lemma_separator_json_members(sep: Separator)
    ensures
        sep.divider matches Some(d) ==> json_member(separator_json(sep), "divider"@, json_bool(d)),
        sep.spacing matches Some(sp) ==> json_member(
            separator_json(sep),
            "spacing"@,
            decimal(sp as nat),
        ),
{
    reveal_strlit("{\"type\":");
    reveal_strlit(",\"divider\":");
    reveal_strlit(",\"spacing\":");
    reveal_strlit("}");
    reveal_strlit("divider");
    reveal_strlit("spacing");
    let head = "{\"type\":"@ + decimal(sep.kind as nat);
    let md = seq!['"'] + "divider"@ + seq!['"', ':'];
    let ms = seq!['"'] + "spacing"@ + seq!['"', ':'];
    assert(",\"divider\":"@ =~= seq![','] + md);
    assert(",\"spacing\":"@ =~= seq![','] + ms);
    let sp_part = match sep.spacing {
        Some(sp) => ",\"spacing\":"@ + decimal(sp as nat),
        None => Seq::empty(),
    };
    let x = separator_json(sep);
    match sep.divider {
        Some(d) => {
            let rest = sp_part + "}"@;
            assert(rest.len() > 0 && (rest[0] == ',' || rest[0] == '}')) by {
                match sep.spacing {
                    Some(sp) => {
                        assert(rest[0] == ",\"spacing\":"@[0]);
                    },
                    None => {
                        assert(rest =~= "}"@);
                    },
                }
            }
            assert(x =~= (head + seq![',']) + md + json_bool(d) + rest);
            lemma_member_at(x, head + seq![','], "divider"@, json_bool(d), rest);
        },
        None => {},
    }
    match sep.spacing {
        Some(sp) => {
            let dv = match sep.divider {
                Some(d) => ",\"divider\":"@ + json_bool(d),
                None => Seq::empty(),
            };
            assert(x =~= (head + dv + seq![',']) + ms + decimal(sp as nat) + "}"@);
            lemma_member_at(x, head + dv + seq![','], "spacing"@, decimal(sp as nat), "}"@);
        },
        None => {},
    }
}

} // verus!
