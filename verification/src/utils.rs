//! Plain text from the HTML found in feeds: markup is dropped, structure
//! becomes line breaks and bullets, and character references are decoded.

use vstd::prelude::*;
use vstd::string::*;
use crate::text::{
    is_ws, join, lemma_split_on_concat, lemma_split_on_without_sep, lemma_trim_piece,
    lemma_trim_with_space, parse_unsigned, parse_u32, unsigned_digits, push_char, split_on, split_trimmed, str_equal, trim,
    trim_str, trimmed_nonempty, views,
};

verus! {

broadcast use vstd::string::group_string_axioms;

// ---------------------------------------------------------------------
// HTML nodes
// ---------------------------------------------------------------------

/// One node of a parsed HTML fragment.
#[derive(Debug)]
pub enum HtmlNode {
    /// Character data.
    Text(String),
    /// An element, by tag name.
    Element(String),
    /// Anything else (comments, doctypes, processing instructions).
    Other,
}

/// The view of an HTML node.
pub enum HtmlNodeView {
    Text(Seq<char>),
    Element(Seq<char>),
    Other,
}

impl View for HtmlNode {
    type V = HtmlNodeView;

    open spec fn view(&self) -> HtmlNodeView {
        match self {
            HtmlNode::Text(t) => HtmlNodeView::Text(t@),
            HtmlNode::Element(n) => HtmlNodeView::Element(n@),
            HtmlNode::Other => HtmlNodeView::Other,
        }
    }
}

/// The nodes below the root of the HTML fragment `fragment`, in document
/// order (each node before its children), as the HTML5 fragment parser of
/// the `scraper` crate builds them.
pub uninterp spec fn html_fragment_nodes(fragment: Seq<char>) -> Seq<HtmlNodeView>;

/// Parses an HTML fragment with `scraper::Html::parse_fragment` and lists
/// the nodes below its root element in document order
/// (`root_element().descendants()`, the root itself left out). The contract
/// only names the result: what the HTML5 parser builds is not restated.
#[verifier::external_body]
fn parse_fragment_nodes(fragment: &str) -> (r: Vec<HtmlNode>)
    ensures
        r@.map_values(|n: HtmlNode| n@) == html_fragment_nodes(fragment@),
{
    let html = scraper::Html::parse_fragment(fragment);
    let mut nodes = Vec::new();
    for node in html.root_element().descendants().skip(1) {
        nodes.push(match node.value() {
            scraper::Node::Text(t) => HtmlNode::Text(t.to_string()),
            scraper::Node::Element(e) => HtmlNode::Element(e.name().to_string()),
            _ => HtmlNode::Other,
        });
    }
    nodes
}

/// What one node contributes to the extracted text: trimmed non-empty
/// text followed by a space; a line break for `<br>` and `<p>`; a line
/// break and a bullet for `<li>`; nothing otherwise.
pub open spec fn node_text(n: HtmlNodeView) -> Seq<char> {
    match n {
        HtmlNodeView::Text(t) => if trim(t).len() > 0 {
            trim(t) + seq![' ']
        } else {
            Seq::empty()
        },
        HtmlNodeView::Element(name) => if name == "br"@ || name == "p"@ {
            "\n"@
        } else if name == "li"@ {
            "\n• "@
        } else {
            Seq::empty()
        },
        HtmlNodeView::Other => Seq::empty(),
    }
}

/// The text extracted from nodes in document order.
pub open spec fn extracted(nodes: Seq<HtmlNodeView>) -> Seq<char>
    decreases nodes.len(),
{
    if nodes.len() == 0 {
        Seq::empty()
    } else {
        extracted(nodes.drop_last()) + node_text(nodes.last())
    }
}

/// Extracts the text of parsed nodes, taken in document order.
pub fn extract_text(nodes: &Vec<HtmlNode>) -> (r: String)
    ensures
        r@ == extracted(nodes@.map_values(|n: HtmlNode| n@)),
{
    let ghost vs = nodes@.map_values(|n: HtmlNode| n@);
    let mut text = String::new();
    let mut i: usize = 0;
    assert(vs.take(0) =~= Seq::<HtmlNodeView>::empty());
    while i < nodes.len()
        invariant
            i <= nodes@.len(),
            vs == nodes@.map_values(|n: HtmlNode| n@),
            text@ == extracted(vs.take(i as int)),
        decreases nodes@.len() - i,
    {
        assert(vs.take(i + 1).drop_last() == vs.take(i as int));
        assert(vs.take(i + 1).last() == nodes@[i as int]@);
        match &nodes[i] {
            HtmlNode::Text(t) => {
                let content = trim_str(t.as_str());
                if !content.as_str().is_empty() {
                    text.append(content.as_str());
                    push_char(&mut text, ' ');
                }
            },
            HtmlNode::Element(name) => {
                if str_equal(name.as_str(), "br") || str_equal(name.as_str(), "p") {
                    text.append("\n");
                } else if str_equal(name.as_str(), "li") {
                    text.append("\n• ");
                }
            },
            HtmlNode::Other => {},
        }
        assert(text@ =~= extracted(vs.take(i + 1)));
        i = i + 1;
    }
    assert(vs.take(nodes@.len() as int) == vs);
    text
}

/// Every `<br>` and `<p>` element starts a new line of the extracted text,
/// and every `<li>` a new line with a bullet, wherever it stands.
pub proof fn lemma_line_break_elements(nodes: Seq<HtmlNodeView>, name: Seq<char>)
    ensures
        (name == "br"@ || name == "p"@) ==> extracted(nodes.push(HtmlNodeView::Element(name)))
            == extracted(nodes) + "\n"@,
        name == "li"@ ==> extracted(nodes.push(HtmlNodeView::Element(name))) == extracted(nodes)
            + "\n• "@,
{
    reveal_strlit("br");
    reveal_strlit("p");
    reveal_strlit("li");
    assert("li"@[0] != "br"@[0] && "li"@[0] != "p"@[0]);
    assert("li"@ != "br"@ && "li"@ != "p"@);
    let x = nodes.push(HtmlNodeView::Element(name));
    assert(x.drop_last() =~= nodes);
    assert(x.last() == HtmlNodeView::Element(name));
}

/// Two pieces of text separated by a line break come out as the two
/// trimmed texts on two lines: the plain-text lines of text `a`, `<br>`,
/// text `b` (each with something besides whitespace, and no line break of
/// its own) are `trim(a)`, a line break, `trim(b)`.
pub proof fn lemma_text_break_text(a: Seq<char>, b: Seq<char>)
    requires
        trim(a).len() > 0,
        trim(b).len() > 0,
        !a.contains('\n'),
        !b.contains('\n'),
    ensures
        normalized_lines(
            extracted(
                seq![
                    HtmlNodeView::Text(a),
                    HtmlNodeView::Element("br"@),
                    HtmlNodeView::Text(b),
                ],
            ),
        ) == trim(a) + "\n"@ + trim(b),
{
    let ta = trim(a);
    let tb = trim(b);
    let n1 = seq![HtmlNodeView::Text(a)];
    let n2 = n1.push(HtmlNodeView::Element("br"@));
    let n3 = n2.push(HtmlNodeView::Text(b));
    assert(n3 =~= seq![HtmlNodeView::Text(a), HtmlNodeView::Element("br"@), HtmlNodeView::Text(b)]);
    assert(n1.drop_last() =~= Seq::<HtmlNodeView>::empty());
    assert(extracted(n1) =~= ta + seq![' ']) by {
        reveal_with_fuel(extracted, 2);
        assert(n1.last() == HtmlNodeView::Text(a));
    }
    lemma_line_break_elements(n1, "br"@);
    assert(n3.drop_last() =~= n2);
    assert(extracted(n3) == ta + seq![' '] + "\n"@ + (tb + seq![' ']));
    lemma_trim_piece(a);
    lemma_trim_piece(b);
    let x = ta + seq![' '];
    let y = tb + seq![' '];
    reveal_strlit("\n");
    assert("\n"@ =~= seq!['\n']);
    assert(extracted(n3) =~= x + seq!['\n'] + y);
    assert(!x.contains('\n')) by {
        if x.contains('\n') {
            let i = choose|i: int| 0 <= i < x.len() && x[i] == '\n';
            if i < ta.len() {
                assert(ta[i] == '\n');
                assert(ta.contains('\n'));
            }
        }
    }
    assert(!y.contains('\n')) by {
        if y.contains('\n') {
            let i = choose|i: int| 0 <= i < y.len() && y[i] == '\n';
            if i < tb.len() {
                assert(tb[i] == '\n');
                assert(tb.contains('\n'));
            }
        }
    }
    lemma_split_on_concat(x, y, '\n');
    lemma_split_on_without_sep(x, '\n');
    lemma_split_on_without_sep(y, '\n');
    let pieces = split_on(extracted(n3), '\n');
    assert(pieces =~= seq![x, y]);
    lemma_trim_with_space(ta);
    lemma_trim_with_space(tb);
    assert(trimmed_nonempty(pieces) =~= seq![ta, tb]) by {
        reveal_with_fuel(trimmed_nonempty, 3);
        assert(pieces.drop_last() =~= seq![x]);
        assert(seq![x].drop_last() =~= Seq::<Seq<char>>::empty());
    }
    assert(join(seq![ta, tb], "\n"@) == ta + "\n"@ + tb) by {
        reveal_with_fuel(join, 2);
        assert(seq![ta, tb].drop_last() =~= seq![ta]);
    }
}

// ---------------------------------------------------------------------
// Lines
// ---------------------------------------------------------------------

/// The lines of `text`, each trimmed, without the empty ones, joined with
/// line breaks.
pub open spec fn normalized_lines(text: Seq<char>) -> Seq<char> {
    join(trimmed_nonempty(split_on(text, '\n')), "\n"@)
}

/// Joins strings with `sep` between them.
pub fn join_strings(pieces: &Vec<String>, sep: &str) -> (r: String)
    ensures
        r@ == join(views(pieces@), sep@),
{
    let ghost vs = views(pieces@);
    let mut out = String::new();
    let mut i: usize = 0;
    while i < pieces.len()
        invariant
            i <= pieces@.len(),
            vs == views(pieces@),
            out@ == join(vs.take(i as int), sep@),
        decreases pieces@.len() - i,
    {
        assert(vs.take(i + 1).drop_last() == vs.take(i as int));
        if i > 0 {
            out.append(sep);
        }
        out.append(pieces[i].as_str());
        assert(out@ =~= join(vs.take(i + 1), sep@));
        i = i + 1;
    }
    assert(vs.take(pieces@.len() as int) == vs);
    out
}

/// Trims every line, drops the empty ones and joins the rest with line
/// breaks.
pub fn normalize_lines(text: &str) -> (r: String)
    ensures
        r@ == normalized_lines(text@),
{
    let lines = split_trimmed(text, '\n');
    join_strings(&lines, "\n")
}

// ---------------------------------------------------------------------
// Character references
// ---------------------------------------------------------------------

/// A character reference found in text, with the text before it.
#[derive(Debug)]
pub struct EntityMatch {
    /// The text between the previous reference (or the start) and this one.
    pub before: String,
    /// The digits of a decimal reference `&#digits;`.
    pub decimal: Option<String>,
    /// The digits of a hexadecimal reference `&#xdigits;`.
    pub hex: Option<String>,
    /// The name of a named reference `&name;`.
    pub named: Option<String>,
}

/// The view of a found reference.
pub struct EntityMatchView {
    pub before: Seq<char>,
    pub decimal: Option<Seq<char>>,
    pub hex: Option<Seq<char>>,
    pub named: Option<Seq<char>>,
}

/// The view of an optional string.
pub open spec fn opt_view(o: Option<String>) -> Option<Seq<char>> {
    match o {
        Some(s) => Some(s@),
        None => None,
    }
}

/// The view of a found reference.
pub open spec fn entity_view(m: EntityMatch) -> EntityMatchView {
    EntityMatchView {
        before: m.before@,
        decimal: opt_view(m.decimal),
        hex: opt_view(m.hex),
        named: opt_view(m.named),
    }
}

/// Whether `c` is an ASCII letter.
pub open spec fn is_ascii_letter(c: char) -> bool {
    ('a' <= c && c <= 'z') || ('A' <= c && c <= 'Z')
}

/// Exactly one kind of reference matched, with a non-empty body (letters
/// only for a named one).
pub open spec fn well_formed_entity(m: EntityMatchView) -> bool {
    ||| (m.decimal matches Some(d) && d.len() > 0 && m.hex is None && m.named is None)
    ||| (m.hex matches Some(h) && h.len() > 0 && m.decimal is None && m.named is None)
    ||| (m.named matches Some(n) && n.len() > 0 && m.decimal is None && m.hex is None && forall|
        i: int,
    | 0 <= i < n.len() ==> is_ascii_letter(#[trigger] n[i]))
}

/// The reference as written in the text.
pub open spec fn entity_source(m: EntityMatchView) -> Seq<char> {
    match m.decimal {
        Some(d) => "&#"@ + d + ";"@,
        None => match m.hex {
            Some(h) => "&#x"@ + h + ";"@,
            None => match m.named {
                Some(n) => "&"@ + n + ";"@,
                None => Seq::empty(),
            },
        },
    }
}

/// The text that the found references and the tail came from.
pub open spec fn matches_source(found: Seq<EntityMatchView>, tail: Seq<char>) -> Seq<char>
    decreases found.len(),
{
    if found.len() == 0 {
        tail
    } else {
        found[0].before + entity_source(found[0]) + matches_source(found.drop_first(), tail)
    }
}

/// The character references in `text`, left to right, as found by the
/// pattern `&(?:#(\d+)|#x([0-9a-fA-F]+)|([a-zA-Z]+));` of the `regex`
/// crate, and the text after the last one.
pub uninterp spec fn entity_matches(text: Seq<char>) -> (Seq<EntityMatchView>, Seq<char>);

/// Finds character references with `regex::Regex::captures_iter` and the
/// pattern `&(?:#(\d+)|#x([0-9a-fA-F]+)|([a-zA-Z]+));`. The contract names
/// the result, and states what the pattern and the iteration over
/// successive non-overlapping matches give: the pieces put back together
/// are the text, and each match is one of the three forms. Where the
/// matches lie (leftmost-first search) is not restated.
#[verifier::external_body]
fn find_entities(text: &str) -> (r: (Vec<EntityMatch>, String))
    ensures
        (r.0@.map_values(|m: EntityMatch| entity_view(m)), r.1@) == entity_matches(text@),
        matches_source(r.0@.map_values(|m: EntityMatch| entity_view(m)), r.1@) == text@,
        forall|i: int|
            0 <= i < r.0@.len() ==> well_formed_entity(#[trigger] entity_view(r.0@[i])),
{
    let re = regex::Regex::new(r"&(?:#(\d+)|#x([0-9a-fA-F]+)|([a-zA-Z]+));").unwrap();
    let mut found = Vec::new();
    let mut last: usize = 0;
    for caps in re.captures_iter(text) {
        let m = caps.get(0).unwrap();
        found.push(EntityMatch {
            before: text[last..m.start()].to_string(),
            decimal: caps.get(1).map(|g| g.as_str().to_string()),
            hex: caps.get(2).map(|g| g.as_str().to_string()),
            named: caps.get(3).map(|g| g.as_str().to_string()),
        });
        last = m.end();
    }
    (found, text[last..].to_string())
}

/// Whether `code` is a Unicode scalar value (what a `char` can hold).
pub open spec fn is_scalar(code: u32) -> bool {
    code <= 0x10FFFF && !(0xD800 <= code && code <= 0xDFFF)
}

/// `char::from_u32`: the character with the given code, if it is a
/// Unicode scalar value, as std documents.
#[verifier::external_body]
fn char_from_u32(code: u32) -> (r: Option<char>)
    ensures
        r == (if is_scalar(code) {
            Some(code as char)
        } else {
            None
        }),
{
    char::from_u32(code)
}

/// Value of a hexadecimal digit.
pub open spec fn hex_value(c: char) -> int {
    if '0' <= c && c <= '9' {
        (c as int) - 48
    } else if 'a' <= c && c <= 'f' {
        (c as int) - 87
    } else {
        (c as int) - 55
    }
}

/// Whether `c` is a hexadecimal digit.
pub open spec fn is_hex_digit(c: char) -> bool {
    ('0' <= c && c <= '9') || ('a' <= c && c <= 'f') || ('A' <= c && c <= 'F')
}

/// Value of a sequence of hexadecimal digits.
pub open spec fn hex_digits_value(d: Seq<char>) -> nat
    decreases d.len(),
{
    if d.len() == 0 {
        0
    } else {
        hex_digits_value(d.drop_last()) * 16 + hex_value(d.last()) as nat
    }
}

/// `u32::from_str_radix(s, 16)`: like `parse_unsigned`, with hexadecimal
/// digits.
pub open spec fn parse_hex_u32_spec(s: Seq<char>) -> Option<nat> {
    let d = unsigned_digits(s);
    if d.len() > 0 && (forall|i: int| 0 <= i < d.len() ==> is_hex_digit(#[trigger] d[i]))
        && hex_digits_value(d) <= u32::MAX {
        Some(hex_digits_value(d))
    } else {
        None
    }
}

proof fn lemma_hex_value_prefix(d: Seq<char>, k: int)
    requires
        0 <= k <= d.len(),
        forall|i: int| 0 <= i < d.len() ==> is_hex_digit(#[trigger] d[i]),
    ensures
        hex_digits_value(d.take(k)) <= hex_digits_value(d),
    decreases d.len(),
{
    if k < d.len() {
        assert(d.drop_last().take(k) == d.take(k));
        assert forall|i: int| 0 <= i < d.drop_last().len() implies is_hex_digit(
            #[trigger] d.drop_last()[i],
        ) by {
            assert(d.drop_last()[i] == d[i]);
        }
        lemma_hex_value_prefix(d.drop_last(), k);
    } else {
        assert(d.take(k) == d);
    }
}

/// `u32::from_str_radix(s, 16)`.
pub fn parse_hex_u32(s: &str) -> (r: Option<u32>)
    ensures
        r == (match parse_hex_u32_spec(s@) {
            Some(v) => Some(v as u32),
            None => None,
        }),
{
    let cs = crate::text::chars_of(s);
    let n = cs.len();
    let start: usize = if n > 1 && cs[0] == '+' {
        1
    } else {
        0
    };
    let ghost d = unsigned_digits(s@);
    assert(d == cs@.skip(start as int));
    if start == n {
        return None;
    }
    let mut v: u32 = 0;
    let mut i: usize = start;
    while i < n
        invariant
            start <= i <= n == cs@.len(),
            cs@ == s@,
            d == cs@.skip(start as int),
            d == unsigned_digits(s@),
            forall|k: int| 0 <= k < i - start ==> is_hex_digit(#[trigger] d[k]),
            v as nat == hex_digits_value(d.take(i - start)),
        decreases n - i,
    {
        let c = cs[i];
        assert(d[i - start] == c);
        let dv: u32 = if '0' <= c && c <= '9' {
            c as u32 - 48
        } else if 'a' <= c && c <= 'f' {
            c as u32 - 87
        } else if 'A' <= c && c <= 'F' {
            c as u32 - 55
        } else {
            assert(!is_hex_digit(d[i - start]));
            return None;
        };
        assert(d.take(i - start + 1).drop_last() == d.take(i - start));
        assert(d.take(i - start + 1).last() == c);
        assert(hex_digits_value(d.take(i - start + 1)) == v * 16 + dv);
        if v > (u32::MAX - dv) / 16 {
            proof {
                assert(hex_digits_value(d.take(i - start + 1)) > u32::MAX) by (nonlinear_arith)
                    requires
                        hex_digits_value(d.take(i - start + 1)) == v * 16 + dv,
                        v > (u32::MAX - dv) / 16,
                        dv <= 15,
                ;
                if forall|k: int| 0 <= k < d.len() ==> is_hex_digit(#[trigger] d[k]) {
                    lemma_hex_value_prefix(d, i - start + 1);
                }
            }
            return None;
        }
        v = v * 16 + dv;
        i = i + 1;
    }
    assert(d.take(n - start) == d);
    Some(v)
}

/// The replacement text of a named reference this bot decodes.
pub open spec fn named_entity(name: Seq<char>) -> Option<Seq<char>> {
    if name == "amp"@ {
        Some("&"@)
    } else if name == "lt"@ {
        Some("<"@)
    } else if name == "gt"@ {
        Some(">"@)
    } else if name == "quot"@ {
        Some("\""@)
    } else if name == "apos"@ || name == "#39"@ {
        Some("'"@)
    } else if name == "nbsp"@ {
        Some(" "@)
    } else {
        None
    }
}

/// The character with code `code`, if there is one.
pub open spec fn code_char(code: Option<nat>) -> Option<char> {
    match code {
        Some(c) => if c <= u32::MAX && is_scalar(c as u32) {
            Some((c as u32) as char)
        } else {
            None
        },
        None => None,
    }
}

/// What a reference decodes to: the character it names, or the reference
/// as written when it names none.
pub open spec fn decoded_entity(m: EntityMatchView) -> Seq<char> {
    match m.decimal {
        Some(d) => match code_char(parse_unsigned(d, u32::MAX as nat)) {
            Some(c) => seq![c],
            None => entity_source(m),
        },
        None => match m.hex {
            Some(h) => match code_char(parse_hex_u32_spec(h)) {
                Some(c) => seq![c],
                None => entity_source(m),
            },
            None => match m.named {
                Some(n) => match named_entity(n) {
                    Some(r) => r,
                    None => entity_source(m),
                },
                None => entity_source(m),
            },
        },
    }
}

/// The text with each found reference decoded.
pub open spec fn decoded_text(found: Seq<EntityMatchView>, tail: Seq<char>) -> Seq<char>
    decreases found.len(),
{
    if found.len() == 0 {
        tail
    } else {
        found[0].before + decoded_entity(found[0]) + decoded_text(found.drop_first(), tail)
    }
}

/// The text with its character references decoded.
pub open spec fn decode_entities_spec(text: Seq<char>) -> Seq<char> {
    decoded_text(entity_matches(text).0, entity_matches(text).1)
}

/// What one found reference decodes to: the character it names, or the
/// reference as written when it names none.
pub fn decode_entity(m: &EntityMatch) -> (r: String)
    ensures
        r@ == decoded_entity(entity_view(*m)),
{
    match &m.decimal {
        Some(d) => {
            match parse_u32(d.as_str()) {
                Some(code) => match char_from_u32(code) {
                    Some(c) => {
                        let mut r = String::new();
                        push_char(&mut r, c);
                        return r;
                    },
                    None => {},
                },
                None => {},
            }
            let mut r = "&#".to_string();
            r.append(d.as_str());
            r.append(";");
            r
        },
        None => match &m.hex {
            Some(h) => {
                match parse_hex_u32(h.as_str()) {
                    Some(code) => match char_from_u32(code) {
                        Some(c) => {
                            let mut r = String::new();
                            push_char(&mut r, c);
                            return r;
                        },
                        None => {},
                    },
                    None => {},
                }
                let mut r = "&#x".to_string();
                r.append(h.as_str());
                r.append(";");
                r
            },
            None => match &m.named {
                Some(n) => {
                    let name = n.as_str();
                    if str_equal(name, "amp") {
                        "&".to_string()
                    } else if str_equal(name, "lt") {
                        "<".to_string()
                    } else if str_equal(name, "gt") {
                        ">".to_string()
                    } else if str_equal(name, "quot") {
                        "\"".to_string()
                    } else if str_equal(name, "apos") || str_equal(name, "#39") {
                        "'".to_string()
                    } else if str_equal(name, "nbsp") {
                        " ".to_string()
                    } else {
                        let mut r = "&".to_string();
                        r.append(name);
                        r.append(";");
                        r
                    }
                },
                None => String::new(),
            },
        },
    }
}

/// Decodes the character references of `text`: `&#NNN;`, `&#xHHH;` and
/// the names `amp`, `lt`, `gt`, `quot`, `apos` and `nbsp`. A reference to a
/// code that is not a character, or to another name, is kept as written.
pub fn decode_html_entities(text: &str) -> (r: String)
    ensures
        r@ == decode_entities_spec(text@),
        !text@.contains('&') ==> r@ == text@,
{
    let (found, tail) = find_entities(text);
    let ghost fv = found@.map_values(|m: EntityMatch| entity_view(m));
    proof {
        if !text@.contains('&') && fv.len() > 0 {
            assert(well_formed_entity(entity_view(found@[0])));
            lemma_source_has_amp(fv[0]);
            let p = fv[0].before + entity_source(fv[0]);
            assert(matches_source(fv, tail@) == p + matches_source(fv.drop_first(), tail@));
            assert(text@[fv[0].before.len() as int] == '&');
            assert(false);
        }
        if fv.len() == 0 {
            assert(matches_source(fv, tail@) == tail@);
        }
    }
    decode_found_entities(&found, tail.as_str())
}

/// The text that the found references and the tail came from, with each
/// reference decoded.
pub fn decode_found_entities(found: &Vec<EntityMatch>, tail: &str) -> (r: String)
    ensures
        r@ == decoded_text(found@.map_values(|m: EntityMatch| entity_view(m)), tail@),
{
    let ghost fv = found@.map_values(|m: EntityMatch| entity_view(m));
    let mut out = String::new();
    let mut i: usize = 0;
    assert(fv.skip(0) =~= fv);
    while i < found.len()
        invariant
            i <= found@.len(),
            fv == found@.map_values(|m: EntityMatch| entity_view(m)),
            out@ + decoded_text(fv.skip(i as int), tail@) == decoded_text(fv, tail@),
        decreases found@.len() - i,
    {
        let ghost before = out@;
        assert(fv.skip(i as int).drop_first() == fv.skip(i + 1));
        assert(fv.skip(i as int)[0] == entity_view(found@[i as int]));
        out.append(found[i].before.as_str());
        let d = decode_entity(&found[i]);
        out.append(d.as_str());
        assert(out@ + decoded_text(fv.skip(i + 1), tail@) =~= before + decoded_text(
            fv.skip(i as int),
            tail@,
        ));
        i = i + 1;
    }
    out.append(tail);
    assert(out@ =~= decoded_text(fv, tail@));
    out
}

// ---------------------------------------------------------------------
// Whole pipeline
// ---------------------------------------------------------------------

/// The plain text of an HTML fragment: its text and structure extracted,
/// lines trimmed with the empty ones dropped, references decoded.
pub open spec fn cleaned(s: Seq<char>) -> Seq<char> {
    if s.len() == 0 {
        Seq::empty()
    } else {
        decode_entities_spec(normalized_lines(extracted(html_fragment_nodes(s))))
    }
}

/// Strips HTML tags and decodes HTML entities from a string, keeping
/// paragraphs, line breaks and list items as lines.
pub fn clean_html(s: &str) -> (r: String)
    ensures
        r@ == cleaned(s@),
{
    if s.is_empty() {
        return String::new();
    }
    let nodes = parse_fragment_nodes(s);
    let text = extract_text(&nodes);
    let text = normalize_lines(text.as_str());
    decode_html_entities(text.as_str())
}


proof fn lemma_source_has_amp(m: EntityMatchView)
    requires
        well_formed_entity(m),
    ensures
        m.before.len() < (m.before + entity_source(m)).len(),
        (m.before + entity_source(m))[m.before.len() as int] == '&',
{
    reveal_strlit("&#");
    reveal_strlit("&#x");
    reveal_strlit("&");
}

} // verus!
