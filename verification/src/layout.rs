//! Turns a configured list of message sections into message components.

use vstd::prelude::*;
use vstd::string::*;
use crate::config::SectionConfig;
use crate::models::{
    are_text_displays, is_text_display, Component, Section, Separator, TextDisplay,
    SECTION_KIND, SEPARATOR_KIND, SPACING_SMALL, THUMBNAIL_KIND,
};
use crate::template::{lookup, render, render_template, TemplateVars};
use crate::text::str_equal;

verus! {

broadcast use vstd::string::group_string_axioms;

/// What one top-level component of a message shows.
pub enum Block {
    /// A text display.
    Text(Seq<char>),
    /// A small separator, with or without a visible divider.
    Divider(bool),
    /// Text displays beside a thumbnail image.
    Thumb(Seq<Seq<char>>, Seq<char>),
}

/// Whether component `c` shows block `b`.
pub open spec fn shows(c: Component, b: Block) -> bool {
    match b {
        Block::Text(t) => is_text_display(c, t),
        Block::Divider(d) => c matches Component::Separator(s) && s.kind == SEPARATOR_KIND
            && s.divider == Some(d) && s.spacing == Some(SPACING_SMALL),
        Block::Thumb(ts, u) => c matches Component::Section(sec) && sec.kind == SECTION_KIND
            && are_text_displays(sec.components@, ts) && sec.accessory.kind == THUMBNAIL_KIND
            && sec.accessory.media.url@ == u && sec.accessory.description is None,
    }
}

/// Whether `cs` show `bs`, one for one.
pub open spec fn shows_all(cs: Seq<Component>, bs: Seq<Block>) -> bool {
    cs.len() == bs.len() && forall|i: int| 0 <= i < cs.len() ==> shows(#[trigger] cs[i], bs[i])
}

/// Text blocks for the given texts.
pub open spec fn text_blocks(ts: Seq<Seq<char>>) -> Seq<Block> {
    ts.map_values(|t: Seq<char>| Block::Text(t))
}

/// Layout progress: texts waiting for their group to close, and the
/// blocks already placed.
pub struct LayoutState {
    pub pending: Seq<Seq<char>>,
    pub done: Seq<Block>,
}

/// The message contents a layout is filled with.
pub struct LayoutInput {
    /// Values for the templates.
    pub vars: Seq<(Seq<char>, Seq<char>)>,
    /// Text of a `description` section that has no template.
    pub description: Seq<char>,
    /// The variable that a `link` section needs to be non-empty.
    pub link_key: Seq<char>,
    /// Whether `thumbnail` sections may show an image.
    pub thumbnails: bool,
}

/// Whether every section from index `from` on is a `metadata` or
/// `footer` section.
pub open spec fn trailer_only(sections: Seq<SectionConfig>, from: int) -> bool {
    forall|k: int|
        from <= k < sections.len() ==> (#[trigger] sections[k].kind@ == "metadata"@
            || sections[k].kind@ == "footer"@)
}

/// A text section: `header`, `description`, `metadata` or `footer`.
pub open spec fn is_text_kind(k: Seq<char>) -> bool {
    k == "header"@ || k == "description"@ || k == "metadata"@ || k == "footer"@
}

/// The image of a `thumbnail` section: the non-empty value of the variable
/// that its URL field names, when thumbnails are allowed.
pub open spec fn thumb_url(sec: SectionConfig, input: LayoutInput) -> Option<Seq<char>> {
    if input.thumbnails && sec.url_field is Some {
        match lookup(input.vars, sec.url_field->0@) {
            Some(u) => if u.len() > 0 {
                Some(u)
            } else {
                None
            },
            None => None,
        }
    } else {
        None
    }
}

/// The state after the section at `idx`:
/// - a text section adds its rendered template when that is not empty; a
///   `description` section without template adds the description when that
///   is not empty;
/// - a `link` section adds its rendered template when the link variable is
///   set and not empty;
/// - a `separator` places the pending texts, then a divider, visible unless
///   configured otherwise or followed only by `metadata` and `footer`
///   sections;
/// - a `thumbnail` groups the pending texts beside the image that its URL
///   variable names, when thumbnails are allowed and that variable is set
///   and not empty, and otherwise places them as they are;
/// - any other section is ignored.
pub open spec fn layout_step(
    st: LayoutState,
    sections: Seq<SectionConfig>,
    idx: int,
    input: LayoutInput,
) -> LayoutState {
    let sec = sections[idx];
    let k = sec.kind@;
    if is_text_kind(k) {
        match sec.format {
            Some(f) => {
                let r = render(f@, input.vars);
                if r.len() > 0 {
                    LayoutState { pending: st.pending.push(r), done: st.done }
                } else {
                    st
                }
            },
            None => {
                if k == "description"@ && input.description.len() > 0 {
                    LayoutState { pending: st.pending.push(input.description), done: st.done }
                } else {
                    st
                }
            },
        }
    } else if k == "link"@ {
        if lookup(input.vars, input.link_key) matches Some(v) && v.len() > 0 && sec.format is Some
            && render(sec.format->0@, input.vars).len() > 0 {
            LayoutState {
                pending: st.pending.push(render(sec.format->0@, input.vars)),
                done: st.done,
            }
        } else {
            st
        }
    } else if k == "separator"@ {
        let d = match sec.divider {
            Some(d) => d,
            None => !trailer_only(sections, idx + 1),
        };
        LayoutState {
            pending: Seq::empty(),
            done: st.done + text_blocks(st.pending) + seq![Block::Divider(d)],
        }
    } else if k == "thumbnail"@ {
        match thumb_url(sec, input) {
            Some(u) => LayoutState {
                pending: Seq::empty(),
                done: st.done.push(Block::Thumb(st.pending, u)),
            },
            None => LayoutState { pending: Seq::empty(), done: st.done + text_blocks(st.pending) },
        }
    } else {
        st
    }
}

/// The state after the first `n` sections.
pub open spec fn layout_prefix(sections: Seq<SectionConfig>, n: nat, input: LayoutInput) -> LayoutState
    decreases n,
{
    if n == 0 || n > sections.len() {
        LayoutState { pending: Seq::empty(), done: Seq::empty() }
    } else {
        layout_step(layout_prefix(sections, (n - 1) as nat, input), sections, n - 1, input)
    }
}

/// The blocks of a whole layout: the placed blocks, then the texts still
/// pending.
pub open spec fn layout(sections: Seq<SectionConfig>, input: LayoutInput) -> Seq<Block> {
    let st = layout_prefix(sections, sections.len(), input);
    st.done + text_blocks(st.pending)
}

/// One layout step only adds blocks after those already placed.
proof fn lemma_step_extends(st: LayoutState, sections: Seq<SectionConfig>, idx: int, input: LayoutInput)
    requires
        0 <= idx < sections.len(),
    ensures
        layout_step(st, sections, idx, input).done.len() >= st.done.len(),
        layout_step(st, sections, idx, input).done.take(st.done.len() as int) == st.done,
{
    let nx = layout_step(st, sections, idx, input);
    assert(nx.done.take(st.done.len() as int) =~= st.done);
}

/// Blocks placed after the first `n` sections stay where they are.
proof fn lemma_prefix_extends(sections: Seq<SectionConfig>, n: nat, m: nat, input: LayoutInput)
    requires
        n <= m <= sections.len(),
    ensures
        layout_prefix(sections, m, input).done.len() >= layout_prefix(sections, n, input).done.len(),
        layout_prefix(sections, m, input).done.take(
            layout_prefix(sections, n, input).done.len() as int,
        ) == layout_prefix(sections, n, input).done,
    decreases m - n,
{
    let a = layout_prefix(sections, n, input).done;
    if n == m {
        assert(a.take(a.len() as int) =~= a);
    } else {
        lemma_prefix_extends(sections, n, (m - 1) as nat, input);
        let b = layout_prefix(sections, (m - 1) as nat, input);
        lemma_step_extends(b, sections, m - 1, input);
        let c = layout_prefix(sections, m, input).done;
        assert(c.take(a.len() as int) =~= b.done.take(a.len() as int));
    }
}

/// Each `separator` section puts a separator in the message, right after
/// the texts gathered before it. Its divider is the configured one when the
/// section sets `divider`; only when it does not, the divider is shown
/// unless every later section is a `metadata` or `footer` section.
pub proof fn lemma_separator_divider(sections: Seq<SectionConfig>, input: LayoutInput, idx: int)
    requires
        0 <= idx < sections.len(),
        sections[idx].kind@ == "separator"@,
    ensures
        ({
            let k = layout_prefix(sections, (idx + 1) as nat, input).done.len();
            let d = match sections[idx].divider {
                Some(d) => d,
                None => !trailer_only(sections, idx + 1),
            };
            &&& 1 <= k <= layout(sections, input).len()
            &&& layout(sections, input)[k - 1] == Block::Divider(d)
            &&& layout_prefix(sections, (idx + 1) as nat, input).pending.len() == 0
        }),
        sections[idx].divider matches Some(d) ==> layout(sections, input).contains(
            Block::Divider(d),
        ),
{
    reveal_strlit("separator");
    reveal_strlit("header");
    reveal_strlit("description");
    reveal_strlit("metadata");
    reveal_strlit("footer");
    reveal_strlit("link");
    let k = sections[idx].kind@;
    assert(k[0] == 's');
    assert(k != "header"@ && k != "description"@ && k != "metadata"@ && k != "footer"@ && k
        != "link"@) by {
        assert("header"@[0] == 'h');
        assert("description"@[0] == 'd');
        assert("metadata"@[0] == 'm');
        assert("footer"@[0] == 'f');
        assert("link"@[0] == 'l');
    }
    let st = layout_prefix(sections, idx as nat, input);
    let nx = layout_prefix(sections, (idx + 1) as nat, input);
    assert(nx == layout_step(st, sections, idx, input));
    let d = match sections[idx].divider {
        Some(d) => d,
        None => !trailer_only(sections, idx + 1),
    };
    assert(nx.done.last() == Block::Divider(d));
    lemma_prefix_extends(sections, (idx + 1) as nat, sections.len(), input);
    let fin = layout_prefix(sections, sections.len(), input);
    let all = layout(sections, input);
    assert(all[nx.done.len() - 1] == fin.done[nx.done.len() - 1]);
    assert(fin.done.take(nx.done.len() as int)[nx.done.len() - 1] == nx.done[nx.done.len() - 1]);
}

proof fn lemma_shows_all_concat(a: Seq<Component>, x: Seq<Block>, b: Seq<Component>, y: Seq<Block>)
    requires
        shows_all(a, x),
        shows_all(b, y),
    ensures
        shows_all(a + b, x + y),
{
    assert forall|i: int| 0 <= i < (a + b).len() implies shows(#[trigger] (a + b)[i], (x + y)[i]) by {
        if i < a.len() {
            assert((a + b)[i] == a[i]);
            assert((x + y)[i] == x[i]);
        } else {
            assert((a + b)[i] == b[i - a.len()]);
            assert((x + y)[i] == y[i - x.len()]);
        }
    }
}

proof fn lemma_texts_show(p: Seq<Component>, ts: Seq<Seq<char>>)
    requires
        are_text_displays(p, ts),
    ensures
        shows_all(p, text_blocks(ts)),
{
    assert forall|i: int| 0 <= i < p.len() implies shows(#[trigger] p[i], text_blocks(ts)[i]) by {
        assert(is_text_display(p[i], ts[i]));
    }
}

/// Whether the sections after `idx` are all `metadata` or `footer`.
fn only_trailer_after(sections: &Vec<SectionConfig>, idx: usize) -> (r: bool)
    requires
        idx < sections@.len(),
    ensures
        r == trailer_only(sections@, idx + 1),
{
    let n = sections.len();
    let mut j: usize = idx + 1;
    while j < n
        invariant
            idx < j <= sections@.len(),
            n == sections@.len(),
            trailer_only(sections@, idx + 1) == trailer_only(sections@, j as int),
        decreases sections@.len() - j,
    {
        let k = sections[j].kind.as_str();
        if !str_equal(k, "metadata") && !str_equal(k, "footer") {
            assert(!(sections@[j as int].kind@ == "metadata"@ || sections@[j as int].kind@
                == "footer"@));
            return false;
        }
        assert(sections@[j as int].kind@ == "metadata"@ || sections@[j as int].kind@ == "footer"@);
        j = j + 1;
    }
    true
}

/// Moves the pending text displays to the end of `done`.
fn flush(done: &mut Vec<Component>, pending: &mut Vec<Component>)
    ensures
        final(done)@ == old(done)@ + old(pending)@,
        final(pending)@.len() == 0,
{
    done.append(pending);
}

/// Lays out the configured sections into components (see `layout_step`
/// for what each kind of section does).
pub fn layout_sections(
    sections: &Vec<SectionConfig>,
    vars: &TemplateVars,
    description: &str,
    link_key: &str,
    thumbnails: bool,
) -> (r: Vec<Component>)
    ensures
        shows_all(
            r@,
            layout(
                sections@,
                LayoutInput {
                    vars: vars.pairs(),
                    description: description@,
                    link_key: link_key@,
                    thumbnails,
                },
            ),
        ),
{
    let ghost input = LayoutInput {
        vars: vars.pairs(),
        description: description@,
        link_key: link_key@,
        thumbnails,
    };
    let mut done: Vec<Component> = Vec::new();
    let mut pending: Vec<Component> = Vec::new();
    let mut i: usize = 0;
    while i < sections.len()
        invariant
            i <= sections@.len(),
            input == (LayoutInput {
                vars: vars.pairs(),
                description: description@,
                link_key: link_key@,
                thumbnails,
            }),
            shows_all(done@, layout_prefix(sections@, i as nat, input).done),
            are_text_displays(pending@, layout_prefix(sections@, i as nat, input).pending),
        decreases sections@.len() - i,
    {
        let ghost st = layout_prefix(sections@, i as nat, input);
        let ghost next = layout_step(st, sections@, i as int, input);
        assert(layout_prefix(sections@, (i + 1) as nat, input) == next);
        let ghost old_done = done@;
        let ghost old_pending = pending@;
        proof {
            lemma_texts_show(old_pending, st.pending);
        }
        let sec = &sections[i];
        let k = sec.kind.as_str();
        if str_equal(k, "header") || str_equal(k, "description") || str_equal(k, "metadata")
            || str_equal(k, "footer") {
            match &sec.format {
                Some(f) => {
                    let rendered = render_template(f.as_str(), vars);
                    if !rendered.as_str().is_empty() {
                        pending.push(Component::TextDisplay(TextDisplay::new(rendered.as_str())));
                    }
                },
                None => {
                    if str_equal(k, "description") && !description.is_empty() {
                        pending.push(Component::TextDisplay(TextDisplay::new(description)));
                    }
                },
            }
        } else if str_equal(k, "link") {
            match vars.get(link_key) {
                Some(v) => {
                    if !v.as_str().is_empty() {
                        match &sec.format {
                            Some(f) => {
                                let rendered = render_template(f.as_str(), vars);
                                if !rendered.as_str().is_empty() {
                                    pending.push(
                                        Component::TextDisplay(TextDisplay::new(rendered.as_str())),
                                    );
                                }
                            },
                            None => {},
                        }
                    }
                },
                None => {},
            }
        } else if str_equal(k, "separator") {
            flush(&mut done, &mut pending);
            proof {
                lemma_shows_all_concat(old_done, st.done, old_pending, text_blocks(st.pending));
            }
            let divider = match sec.divider {
                Some(d) => d,
                None => !only_trailer_after(sections, i),
            };
            let ghost mid = done@;
            done.push(Component::Separator(Separator::new(divider, false)));
            proof {
                let sep_blocks = seq![Block::Divider(divider)];
                assert(shows_all(seq![done@.last()], sep_blocks));
                assert(done@ == mid + seq![done@.last()]);
                lemma_shows_all_concat(
                    mid,
                    st.done + text_blocks(st.pending),
                    seq![done@.last()],
                    sep_blocks,
                );
                assert(are_text_displays(pending@, next.pending));
            }
        } else if str_equal(k, "thumbnail") {
            let mut thumb: Option<&String> = None;
            if thumbnails {
                match &sec.url_field {
                    Some(field) => {
                        match vars.get(field.as_str()) {
                            Some(v) => {
                                if !v.as_str().is_empty() {
                                    thumb = Some(v);
                                }
                            },
                            None => {},
                        }
                    },
                    None => {},
                }
            }
            match thumb {
                Some(url) => {
                    let texts = pending;
                    pending = Vec::new();
                    let section = Section::with_thumbnail(texts, url.as_str());
                    done.push(Component::Section(section));
                    proof {
                        assert(shows(done@.last(), Block::Thumb(st.pending, url@)));
                        assert(shows_all(seq![done@.last()], seq![Block::Thumb(st.pending, url@)]));
                        assert(done@ == old_done + seq![done@.last()]);
                        lemma_shows_all_concat(
                            old_done,
                            st.done,
                            seq![done@.last()],
                            seq![Block::Thumb(st.pending, url@)],
                        );
                        assert(st.done.push(Block::Thumb(st.pending, url@)) == st.done + seq![
                            Block::Thumb(st.pending, url@),
                        ]);
                        assert(are_text_displays(pending@, next.pending));
                    }
                },
                None => {
                    flush(&mut done, &mut pending);
                    proof {
                        lemma_shows_all_concat(old_done, st.done, old_pending, text_blocks(st.pending));
                        assert(are_text_displays(pending@, next.pending));
                    }
                },
            }
        }
        i = i + 1;
    }
    let ghost st = layout_prefix(sections@, sections@.len(), input);
    let ghost old_done = done@;
    let ghost old_pending = pending@;
    proof {
        lemma_texts_show(old_pending, st.pending);
        lemma_shows_all_concat(old_done, st.done, old_pending, text_blocks(st.pending));
    }
    flush(&mut done, &mut pending);
    done
}

} // verus!
