//! Discord "Components V2" message parts and the AniList records they are
//! built from.

use vstd::prelude::*;
use vstd::string::*;

verus! {

broadcast use vstd::string::group_string_axioms;

// =====================================================
//                DISCORD COMPONENTS V2
// =====================================================

/// Message flag that switches a webhook message to Components V2.
pub const COMPONENTS_V2_FLAG: u32 = 32768;

/// Component type code of a container.
pub const CONTAINER_KIND: u8 = 17;

/// Component type code of a text display.
pub const TEXT_DISPLAY_KIND: u8 = 10;

/// Component type code of a separator.
pub const SEPARATOR_KIND: u8 = 14;

/// Component type code of a media gallery.
pub const MEDIA_GALLERY_KIND: u8 = 12;

/// Component type code of a section.
pub const SECTION_KIND: u8 = 9;

/// Component type code of a thumbnail.
pub const THUMBNAIL_KIND: u8 = 11;

/// Separator spacing code: small.
pub const SPACING_SMALL: u8 = 1;

/// Separator spacing code: large.
pub const SPACING_LARGE: u8 = 2;

/// A webhook message made of components.
#[derive(Debug)]
pub struct DiscordWebhookV2 {
    pub username: String,
    pub avatar_url: Option<String>,
    pub flags: u32,
    pub components: Vec<Component>,
}

/// One component of a message.
#[derive(Debug)]
pub enum Component {
    Container(Container),
    TextDisplay(TextDisplay),
    Separator(Separator),
    MediaGallery(MediaGallery),
    Section(Section),
}

/// A box with an optional accent colour around other components.
#[derive(Debug)]
pub struct Container {
    pub kind: u8,
    pub accent_color: Option<u32>,
    pub components: Vec<Component>,
}

/// A block of markdown text.
#[derive(Debug)]
pub struct TextDisplay {
    pub kind: u8,
    pub content: String,
}

/// A horizontal separator.
#[derive(Debug)]
pub struct Separator {
    pub kind: u8,
    pub divider: Option<bool>,
    pub spacing: Option<u8>,
}

/// A gallery of images.
#[derive(Debug)]
pub struct MediaGallery {
    pub kind: u8,
    pub items: Vec<MediaGalleryItem>,
}

/// One image of a gallery.
#[derive(Debug)]
pub struct MediaGalleryItem {
    pub media: UnfurledMediaItem,
    pub description: Option<String>,
}

/// A media reference by URL.
#[derive(Debug)]
pub struct UnfurledMediaItem {
    pub url: String,
}

/// Text components with a thumbnail beside them.
#[derive(Debug)]
pub struct Section {
    pub kind: u8,
    pub components: Vec<Component>,
    pub accessory: Thumbnail,
}

/// A small image.
#[derive(Debug)]
pub struct Thumbnail {
    pub kind: u8,
    pub media: UnfurledMediaItem,
    pub description: Option<String>,
}

/// Whether `c` is a text display that shows exactly `text`.
pub open spec fn is_text_display(c: Component, text: Seq<char>) -> bool {
    c matches Component::TextDisplay(td) && td.kind == TEXT_DISPLAY_KIND && td.content@ == text
}

/// Whether `cs` are text displays showing `texts`, one for one.
pub open spec fn are_text_displays(cs: Seq<Component>, texts: Seq<Seq<char>>) -> bool {
    cs.len() == texts.len() && forall|i: int|
        0 <= i < cs.len() ==> is_text_display(#[trigger] cs[i], texts[i])
}

impl Container {
    /// A container with the given accent colour around `components`.
    pub fn new(accent_color: Option<u32>, components: Vec<Component>) -> (r: Self)
        ensures
            r.kind == CONTAINER_KIND,
            r.accent_color == accent_color,
            r.components == components,
    {
        Self { kind: CONTAINER_KIND, accent_color, components }
    }
}

impl TextDisplay {
    /// A text display showing `content`.
    pub fn new(content: &str) -> (r: Self)
        ensures
            r.kind == TEXT_DISPLAY_KIND,
            r.content@ == content@,
    {
        Self { kind: TEXT_DISPLAY_KIND, content: content.to_string() }
    }
}

impl Separator {
    /// A separator, with or without a visible divider, small or large.
    pub fn new(divider: bool, large: bool) -> (r: Self)
        ensures
            r.kind == SEPARATOR_KIND,
            r.divider == Some(divider),
            r.spacing == Some(
                if large {
                    SPACING_LARGE
                } else {
                    SPACING_SMALL
                },
            ),
    {
        Self {
            kind: SEPARATOR_KIND,
            divider: Some(divider),
            spacing: Some(
                if large {
                    SPACING_LARGE
                } else {
                    SPACING_SMALL
                },
            ),
        }
    }
}

impl MediaGallery {
    /// A gallery of the single image at `url`.
    pub fn single(url: &str) -> (r: Self)
        ensures
            r.kind == MEDIA_GALLERY_KIND,
            r.items@.len() == 1,
            r.items@[0].media.url@ == url@,
            r.items@[0].description is None,
    {
        let mut items: Vec<MediaGalleryItem> = Vec::new();
        items.push(
            MediaGalleryItem { media: UnfurledMediaItem { url: url.to_string() }, description: None },
        );
        Self { kind: MEDIA_GALLERY_KIND, items }
    }
}

impl Section {
    /// `text_components` with the image at `thumb_url` as thumbnail.
    pub fn with_thumbnail(text_components: Vec<Component>, thumb_url: &str) -> (r: Self)
        ensures
            r.kind == SECTION_KIND,
            r.components == text_components,
            r.accessory.kind == THUMBNAIL_KIND,
            r.accessory.media.url@ == thumb_url@,
            r.accessory.description is None,
    {
        Self {
            kind: SECTION_KIND,
            components: text_components,
            accessory: Thumbnail {
                kind: THUMBNAIL_KIND,
                media: UnfurledMediaItem { url: thumb_url.to_string() },
                description: None,
            },
        }
    }
}

// =====================================================
//                       ANILIST
// =====================================================

/// Reply to the airing-schedule query.
#[derive(Debug)]
pub struct AniListResponse {
    pub data: AniListData,
}

/// The `data` member of the reply.
#[derive(Debug)]
pub struct AniListData {
    pub page: AniListPage,
}

/// One page of airing schedules.
#[derive(Debug)]
pub struct AniListPage {
    pub airing_schedules: Vec<AiringSchedule>,
}

/// One aired episode.
#[derive(Debug)]
pub struct AiringSchedule {
    pub id: i64,
    pub episode: i32,
    pub airing_at: i64,
    pub media: AniListMedia,
}

/// The show an episode belongs to.
#[derive(Debug)]
pub struct AniListMedia {
    pub title: AniListTitle,
    pub site_url: String,
    pub cover_image: Option<AniListCover>,
    pub description: Option<String>,
    pub average_score: Option<i32>,
    pub studios: Option<AniListStudios>,
}

/// The studios of a show.
#[derive(Debug)]
pub struct AniListStudios {
    pub nodes: Vec<AniListStudio>,
}

/// One studio.
#[derive(Debug)]
pub struct AniListStudio {
    pub name: String,
}

/// Titles of a show.
#[derive(Debug)]
pub struct AniListTitle {
    pub romaji: Option<String>,
    pub english: Option<String>,
}

/// Cover images of a show.
#[derive(Debug)]
pub struct AniListCover {
    pub large: Option<String>,
}

} // verus!
