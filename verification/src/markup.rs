//! Rendering of Telegram formatted text (text plus entities whose offsets
//! and lengths count UTF-16 code units) into Pango markup.

use vstd::prelude::*;
use crate::text::{chars_of, string_from_chars, push_str, push_chars, escape_chars};
use crate::text;

verus! {

/// Whether the `regex` crate finds the pattern `^\w+://` in the text, that is
/// whether the text starts with a URL scheme. What counts as a word
/// character follows Unicode and is left to this name.
pub uninterp spec fn scheme_prefix_match(text: Seq<char>) -> bool;

/// A character that `\w` matches whatever the Unicode tables say: an ASCII
/// letter, digit or underscore.
pub open spec fn is_ascii_word_char(c: char) -> bool {
    ('a' <= c && c <= 'z') || ('A' <= c && c <= 'Z') || ('0' <= c && c <= '9') || c == '_'
}

/// Compiles the pattern `^\w+://` with `regex::Regex::new` and calls
/// `Regex::is_match` on `text`. The contract names the result; beside the
/// name it states two facts that the pattern shows: one or more ASCII word
/// characters followed by `://` at the start always match, and a match
/// always has `://` after at least one character. Which other characters
/// `\w` accepts is not stated.
#[verifier::external_body]
fn has_scheme_prefix(text: &str) -> (b: bool)
    ensures
        b == scheme_prefix_match(text@),
        (exists|n: int|
            1 <= n && n + 3 <= text@.len()
            && (forall|i: int| 0 <= i < n ==> #[trigger] is_ascii_word_char(text@[i]))
            && #[trigger] text@.subrange(n, n + 3) == "://"@) ==> b,
        b ==> exists|n: int| 1 <= n && n + 3 <= text@.len() && #[trigger] text@.subrange(n, n + 3) == "://"@,
{
    regex::Regex::new(r"^\w+://").unwrap().is_match(text)
}

/// The link target for a URL entity: the text itself when it starts with a
/// scheme, and `http://` followed by the text otherwise.
pub open spec fn linkified(text: Seq<char>) -> Seq<char> {
    if scheme_prefix_match(text) {
        text
    } else {
        "http://"@ + text
    }
}

/// Makes a link target out of `text`, adding `http://` when it has no
/// scheme.
pub fn linkify(text: &str) -> (res: String)
    ensures
        res@ == linkified(text@),
        exists|n: int| 0 <= n && n + 3 <= res@.len() && #[trigger] res@.subrange(n, n + 3) == "://"@,
{
    let cs = chars_of(text);
    let has_scheme = has_scheme_prefix(text);
    if !has_scheme {
        let mut out: Vec<char> = Vec::new();
        push_str(&mut out, "http://");
        push_chars(&mut out, &cs);
        proof {
            reveal_strlit("http://");
            reveal_strlit("://");
            assert(out@.subrange(4, 7) =~= "://"@);
        }
        let res = string_from_chars(&out);
        proof {
            let n: int = 4;
            assert(res@.subrange(n, n + 3) == "://"@);
        }
        assert(exists|n: int| 0 <= n && n + 3 <= res@.len() && #[trigger] res@.subrange(n, n + 3) == "://"@);
        res
    } else {
        let res = string_from_chars(&cs);
        proof {
            let n = choose|n: int| 1 <= n && n + 3 <= text@.len() && #[trigger] text@.subrange(n, n + 3) == "://"@;
            assert(res@.subrange(n, n + 3) == "://"@);
        }
        assert(exists|n: int| 0 <= n && n + 3 <= res@.len() && #[trigger] res@.subrange(n, n + 3) == "://"@);
        res
    }
}

/// The kinds of text entity of Telegram formatted text.
pub enum TextEntityKind {
    Mention,
    Hashtag,
    Cashtag,
    BotCommand,
    Url,
    EmailAddress,
    PhoneNumber,
    BankCardNumber,
    Bold,
    Italic,
    Underline,
    Strikethrough,
    Spoiler,
    Code,
    Pre,
    /// Preformatted code in the given language.
    PreCode(String),
    /// A link with the given target.
    TextUrl(String),
    /// A mention of the user with the given identifier.
    MentionName(i64),
    /// A custom emoji with the given identifier.
    CustomEmoji(i64),
    /// A timestamp in a media file, in seconds.
    MediaTimestamp(i32),
    BlockQuote,
}

/// A text entity: its offset and length count UTF-16 code units.
pub struct TextEntity {
    pub offset: i32,
    pub length: i32,
    pub kind: TextEntityKind,
}

/// Text and the entities that format it, in the order they are applied.
pub struct FormattedText {
    pub text: String,
    pub entities: Vec<TextEntity>,
}

/// `open` + text + `close`.
pub open spec fn wrapped(open: Seq<char>, text: Seq<char>, close: Seq<char>) -> Seq<char> {
    open + text + close
}

/// A link to `target` that shows `text`.
pub open spec fn link(target: Seq<char>, text: Seq<char>) -> Seq<char> {
    "<a href='"@ + target + "'>"@ + text + "</a>"@
}

/// The markup that formats (already escaped) `text` as an entity of `kind`.
pub open spec fn entity_markup(text: Seq<char>, kind: TextEntityKind) -> Seq<char> {
    match kind {
        TextEntityKind::Url => link(linkified(text), text),
        TextEntityKind::EmailAddress => link("mailto:"@ + text, text),
        TextEntityKind::PhoneNumber => link("tel:"@ + text, text),
        TextEntityKind::Bold => wrapped("<b>"@, text, "</b>"@),
        TextEntityKind::Italic => wrapped("<i>"@, text, "</i>"@),
        TextEntityKind::Underline => wrapped("<u>"@, text, "</u>"@),
        TextEntityKind::Strikethrough => wrapped("<s>"@, text, "</s>"@),
        TextEntityKind::Code => wrapped("<tt>"@, text, "</tt>"@),
        TextEntityKind::Pre => wrapped("<tt>"@, text, "</tt>"@),
        TextEntityKind::PreCode(_) => wrapped("<tt>"@, text, "</tt>"@),
        TextEntityKind::TextUrl(url) => link(text::escaped(url@), text),
        _ => text,
    }
}

/// Appends a link to `target` showing `text`.
fn push_link(out: &mut Vec<char>, target: &Vec<char>, text: &Vec<char>)
    ensures
        final(out)@ == old(out)@ + link(target@, text@),
{
    push_str(out, "<a href='");
    push_chars(out, target);
    push_str(out, "'>");
    push_chars(out, text);
    push_str(out, "</a>");
    assert(final(out)@ =~= old(out)@ + link(target@, text@));
}

/// Appends `open`, `text` and `close`.
fn push_wrapped(out: &mut Vec<char>, open: &str, text: &Vec<char>, close: &str)
    ensures
        final(out)@ == old(out)@ + wrapped(open@, text@, close@),
{
    push_str(out, open);
    push_chars(out, text);
    push_str(out, close);
    assert(final(out)@ =~= old(out)@ + wrapped(open@, text@, close@));
}

/// Formats escaped text held as characters.
fn markup_chars(text: &Vec<char>, kind: &TextEntityKind) -> (out: Vec<char>)
    ensures
        out@ == entity_markup(text@, *kind),
{
    let mut out: Vec<char> = Vec::new();
    match kind {
        TextEntityKind::Url => {
            let s = string_from_chars(text);
            let target = linkify(s.as_str());
            let target_chars = chars_of(target.as_str());
            push_link(&mut out, &target_chars, text);
        },
        TextEntityKind::EmailAddress => {
            let mut target: Vec<char> = Vec::new();
            push_str(&mut target, "mailto:");
            push_chars(&mut target, text);
            push_link(&mut out, &target, text);
        },
        TextEntityKind::PhoneNumber => {
            let mut target: Vec<char> = Vec::new();
            push_str(&mut target, "tel:");
            push_chars(&mut target, text);
            push_link(&mut out, &target, text);
        },
        TextEntityKind::Bold => push_wrapped(&mut out, "<b>", text, "</b>"),
        TextEntityKind::Italic => push_wrapped(&mut out, "<i>", text, "</i>"),
        TextEntityKind::Underline => push_wrapped(&mut out, "<u>", text, "</u>"),
        TextEntityKind::Strikethrough => push_wrapped(&mut out, "<s>", text, "</s>"),
        TextEntityKind::Code => push_wrapped(&mut out, "<tt>", text, "</tt>"),
        TextEntityKind::Pre => push_wrapped(&mut out, "<tt>", text, "</tt>"),
        TextEntityKind::PreCode(_) => push_wrapped(&mut out, "<tt>", text, "</tt>"),
        TextEntityKind::TextUrl(url) => {
            let url_chars = chars_of(url.as_str());
            let target = escape_chars(&url_chars);
            push_link(&mut out, &target, text);
        },
        _ => {
            push_chars(&mut out, text);
        },
    }
    out
}

/// Wraps `text` in the markup of an entity of kind `entity`; `text` is
/// expected to be escaped already.
pub fn convert_to_markup(text: String, entity: &TextEntityKind) -> (res: String)
    ensures
        res@ == entity_markup(text@, *entity),
{
    let cs = chars_of(text.as_str());
    let out = markup_chars(&cs, entity);
    string_from_chars(&out)
}


/// The number of UTF-16 code units that encode `c`.
pub open spec fn utf16_len(c: char) -> nat {
    if (c as u32) < 0x10000 {
        1
    } else {
        2
    }
}

/// The number of UTF-16 code units that encode `s`.
pub open spec fn utf16_count(s: Seq<char>) -> nat
    decreases s.len(),
{
    if s.len() == 0 {
        0
    } else {
        utf16_count(s.drop_last()) + utf16_len(s.last())
    }
}

/// Where the rendering stands after a prefix of the text: the index of the
/// next entity to apply, the markup written so far, the characters read
/// since then, whether they belong to an entity, and how many UTF-16 code
/// units have been read.
pub struct RenderState {
    pub next: nat,
    pub output: Seq<char>,
    pub buffer: Seq<char>,
    pub inside: bool,
    pub units: nat,
}

/// The code unit at which entity `e` ends, as an index.
pub open spec fn entity_end(e: TextEntity) -> usize {
    (e.offset + e.length) as usize
}

/// Applies, to `buf`, the entities from index `j` on that start where the
/// entity at index `first` starts; gives the result and the index of the
/// first entity that starts elsewhere.
pub open spec fn apply_nested(ents: Seq<TextEntity>, first: int, j: int, buf: Seq<char>) -> (Seq<char>, int)
    decreases ents.len() - j,
{
    if 0 <= j < ents.len() && ents[j].offset == ents[first].offset {
        apply_nested(ents, first, j + 1, entity_markup(buf, ents[j].kind))
    } else {
        (buf, j)
    }
}

/// Reading one more character `c`. The current entity opens once the code
/// units read reach its offset: the plain text before it is written out
/// escaped. It closes once the code units read reach its end: its text is
/// escaped, formatted by the entities that start at the same offset (in
/// their order), then by the entity itself, and written out.
pub open spec fn render_step(ents: Seq<TextEntity>, st: RenderState, c: char) -> RenderState {
    let k = st.next as int;
    let opens = !st.inside && k < ents.len() && st.units >= (ents[k].offset as usize);
    let output = if opens && st.buffer.len() > 0 {
        st.output + text::escaped(st.buffer)
    } else {
        st.output
    };
    let buffer = if opens {
        Seq::<char>::empty()
    } else {
        st.buffer
    };
    let inside = st.inside || opens;
    let buf = buffer.push(c);
    let units = st.units + utf16_len(c);
    if k < ents.len() && units >= entity_end(ents[k]) {
        let (formatted, after) = apply_nested(ents, k, k + 1, text::escaped(buf));
        RenderState {
            next: after as nat,
            output: output + entity_markup(formatted, ents[k].kind),
            buffer: Seq::empty(),
            inside: false,
            units,
        }
    } else {
        RenderState { next: st.next, output, buffer: buf, inside, units }
    }
}

/// The state after reading all of `s`.
pub open spec fn render_run(ents: Seq<TextEntity>, s: Seq<char>) -> RenderState
    decreases s.len(),
{
    if s.len() == 0 {
        RenderState { next: 0, output: Seq::empty(), buffer: Seq::empty(), inside: false, units: 0 }
    } else {
        render_step(ents, render_run(ents, s.drop_last()), s.last())
    }
}

/// The markup of formatted text: what was written, then the characters
/// left over, escaped.
pub open spec fn rendered(ents: Seq<TextEntity>, s: Seq<char>) -> Seq<char> {
    let st = render_run(ents, s);
    if st.buffer.len() > 0 {
        st.output + text::escaped(st.buffer)
    } else {
        st.output
    }
}

proof fn lemma_apply_nested_bounds(ents: Seq<TextEntity>, first: int, j: int, buf: Seq<char>)
    requires
        0 <= j <= ents.len(),
    ensures
        j <= apply_nested(ents, first, j, buf).1 <= ents.len(),
    decreases ents.len() - j,
{
    if 0 <= j < ents.len() && ents[j].offset == ents[first].offset {
        lemma_apply_nested_bounds(ents, first, j + 1, entity_markup(buf, ents[j].kind));
    }
}

proof fn lemma_render_run_bounds(ents: Seq<TextEntity>, s: Seq<char>)
    ensures
        render_run(ents, s).next <= ents.len(),
        render_run(ents, s).units == utf16_count(s),
        utf16_count(s) <= 2 * s.len(),
    decreases s.len(),
{
    if s.len() > 0 {
        lemma_render_run_bounds(ents, s.drop_last());
        let st = render_run(ents, s.drop_last());
        if st.next < ents.len() {
            let k = st.next as int;
            let opens = !st.inside && st.units >= (ents[k].offset as usize);
            let buffer = if opens { Seq::<char>::empty() } else { st.buffer };
            lemma_apply_nested_bounds(ents, k, k + 1, text::escaped(buffer.push(s.last())));
        }
    }
}

/// The code unit at which entity `e` ends, computed without overflow.
fn end_of(e: &TextEntity) -> (r: usize)
    ensures
        r == entity_end(*e),
{
    (e.offset as i64 + e.length as i64) as usize
}

/// The number of UTF-16 code units that encode `c` (`char::len_utf16`).
fn len_utf16(c: char) -> (n: usize)
    ensures
        n == utf16_len(c),
{
    if (c as u32) < 0x10000 {
        1
    } else {
        2
    }
}

/// Renders formatted text into Pango markup: the plain text is escaped, and
/// the text of each entity is escaped and formatted as the entity says.
/// Entities that start where the previous one started are nested inside it.
pub fn parse_formatted_text(formatted_text: &FormattedText) -> (res: String)
    requires
        formatted_text.text@.len() <= usize::MAX / 2,
    ensures
        res@ == rendered(formatted_text.entities@, formatted_text.text@),
{
    let ents = &formatted_text.entities;
    let cs = chars_of(formatted_text.text.as_str());
    let ghost es = ents@;
    let mut next: usize = 0;
    let mut output: Vec<char> = Vec::new();
    let mut buffer: Vec<char> = Vec::new();
    let mut inside = false;
    let mut units: usize = 0;
    let mut i: usize = 0;
    proof {
        assert(cs@.take(0) =~= Seq::<char>::empty());
    }
    while i < cs.len()
        invariant
            i <= cs.len(),
            cs@ == formatted_text.text@,
            cs.len() <= usize::MAX / 2,
            es == ents@,
            next <= ents.len(),
            units <= 2 * i,
            (RenderState { next: next as nat, output: output@, buffer: buffer@, inside, units: units as nat })
                == render_run(es, cs@.take(i as int)),
        decreases cs.len() - i,
    {
        let c = cs[i];
        let ghost before = RenderState { next: next as nat, output: output@, buffer: buffer@, inside, units: units as nat };
        if !inside && next < ents.len() && units >= (ents[next].offset as usize) {
            inside = true;
            if buffer.len() > 0 {
                let esc = escape_chars(&buffer);
                push_chars(&mut output, &esc);
                buffer = Vec::new();
            }
        }
        buffer.push(c);
        units = units + len_utf16(c);
        if next < ents.len() && units >= end_of(&ents[next]) {
            let k = next;
            let mut buf = escape_chars(&buffer);
            let mut j = k + 1;
            let ghost start = buf@;
            while j < ents.len() && ents[j].offset == ents[k].offset
                invariant
                    k < j <= ents.len(),
                    es == ents@,
                    apply_nested(es, k as int, j as int, buf@) == apply_nested(es, k as int, k + 1, start),
                decreases ents.len() - j,
            {
                buf = markup_chars(&buf, &ents[j].kind);
                j = j + 1;
            }
            let m = markup_chars(&buf, &ents[k].kind);
            push_chars(&mut output, &m);
            buffer = Vec::new();
            inside = false;
            next = j;
        }
        proof {
            assert(cs@.take((i + 1) as int).drop_last() =~= cs@.take(i as int));
            assert(buffer@ =~= render_run(es, cs@.take((i + 1) as int)).buffer);
        }
        i = i + 1;
    }
    proof {
        assert(cs@.take(i as int) =~= cs@);
    }
    if buffer.len() > 0 {
        let esc = escape_chars(&buffer);
        push_chars(&mut output, &esc);
    }
    string_from_chars(&output)
}


/// Text without entities renders as the escaped text.
pub proof fn lemma_plain_text_renders_escaped(s: Seq<char>)
    ensures
        rendered(Seq::<TextEntity>::empty(), s) == text::escaped(s),
{
    lemma_plain_run(s);
    if s.len() == 0 {
        assert(text::escaped(s) =~= Seq::<char>::empty());
    }
}

proof fn lemma_plain_run(s: Seq<char>)
    ensures
        render_run(Seq::<TextEntity>::empty(), s).buffer == s,
        render_run(Seq::<TextEntity>::empty(), s).output == Seq::<char>::empty(),
        render_run(Seq::<TextEntity>::empty(), s).next == 0,
    decreases s.len(),
{
    if s.len() > 0 {
        lemma_plain_run(s.drop_last());
        assert(s.drop_last().push(s.last()) =~= s);
    } else {
        assert(render_run(Seq::<TextEntity>::empty(), s).buffer =~= s);
    }
}

proof fn lemma_utf16_count_prefix(s: Seq<char>, n: int)
    requires
        0 <= n < s.len(),
    ensures
        utf16_count(s.take(n)) < utf16_count(s),
    decreases s.len(),
{
    if n < s.len() - 1 {
        lemma_utf16_count_prefix(s.drop_last(), n);
        assert(s.drop_last().take(n) =~= s.take(n));
    } else {
        assert(s.drop_last() =~= s.take(n));
    }
}

proof fn lemma_whole_entity_run(s: Seq<char>, e: TextEntity, whole: Seq<char>)
    requires
        e.offset == 0,
        e.length == utf16_count(whole),
        s.len() < whole.len(),
        s == whole.take(s.len() as int),
    ensures
        render_run(seq![e], s) == (RenderState {
            next: 0,
            output: Seq::empty(),
            buffer: s,
            inside: s.len() > 0,
            units: utf16_count(s),
        }),
    decreases s.len(),
{
    if s.len() > 0 {
        let p = s.drop_last();
        assert(p == whole.take(p.len() as int));
        lemma_whole_entity_run(p, e, whole);
        lemma_utf16_count_prefix(whole, s.len() as int);
        assert(s =~= whole.take(s.len() as int));
        assert(p.push(s.last()) =~= s);
        assert(utf16_count(s) < utf16_count(whole));
        assert(entity_end(e) == utf16_count(whole));
    } else {
        assert(s =~= Seq::<char>::empty());
    }
}

/// One entity that starts at the first code unit and spans the whole
/// nonempty text renders as the escaped text formatted by that entity.
pub proof fn lemma_whole_text_entity(s: Seq<char>, e: TextEntity)
    requires
        s.len() > 0,
        e.offset == 0,
        e.length == utf16_count(s),
    ensures
        rendered(seq![e], s) == entity_markup(text::escaped(s), e.kind),
{
    let p = s.drop_last();
    assert(p =~= s.take(p.len() as int));
    lemma_whole_entity_run(p, e, s);
    assert(p.push(s.last()) =~= s);
    assert(entity_end(e) == utf16_count(s));
    let st = render_run(seq![e], p);
    let opens = !st.inside && st.units >= (e.offset as usize);
    let buffer = if opens { Seq::<char>::empty() } else { st.buffer };
    assert(buffer.push(s.last()) =~= s);
    assert(apply_nested(seq![e], 0, 1, text::escaped(s)) == (text::escaped(s), 1int));
    assert(Seq::<char>::empty() + entity_markup(text::escaped(s), e.kind) =~= entity_markup(text::escaped(s), e.kind));
}

/// The text of a layout of formatted text: each part's plain text followed
/// by the text of its entity, part after part.
pub open spec fn layout_text(parts: Seq<(Seq<char>, Seq<char>)>) -> Seq<char>
    decreases parts.len(),
{
    if parts.len() == 0 {
        Seq::empty()
    } else {
        layout_text(parts.drop_last()) + parts.last().0 + parts.last().1
    }
}

/// The markup of a layout: each part's plain text escaped, then the escaped
/// text of its entity formatted by the entity (the entity of part `i` is
/// `ents[i]`).
pub open spec fn layout_markup(parts: Seq<(Seq<char>, Seq<char>)>, ents: Seq<TextEntity>) -> Seq<char>
    decreases parts.len(),
{
    if parts.len() == 0 {
        Seq::empty()
    } else {
        layout_markup(parts.drop_last(), ents) + text::escaped(parts.last().0)
            + entity_markup(text::escaped(parts.last().1), ents[parts.len() - 1].kind)
    }
}

/// Whether the entities cover the entity texts of the layout one by one:
/// entity `i` starts at the code unit that follows part `i`'s plain text
/// and spans exactly the (nonempty) text of part `i`.
pub open spec fn well_placed(parts: Seq<(Seq<char>, Seq<char>)>, ents: Seq<TextEntity>) -> bool {
    &&& parts.len() == ents.len()
    &&& forall|i: int| 0 <= i < parts.len() ==> {
        &&& (#[trigger] parts[i]).1.len() > 0
        &&& ents[i].offset == utf16_count(layout_text(parts.take(i)) + parts[i].0)
        &&& ents[i].length == utf16_count(parts[i].1)
        &&& ents[i].offset + ents[i].length <= i32::MAX
    }
}

/// Reading `t` from the state `st`.
pub open spec fn render_from(ents: Seq<TextEntity>, st: RenderState, t: Seq<char>) -> RenderState
    decreases t.len(),
{
    if t.len() == 0 {
        st
    } else {
        render_step(ents, render_from(ents, st, t.drop_last()), t.last())
    }
}

proof fn lemma_run_concat(ents: Seq<TextEntity>, s: Seq<char>, t: Seq<char>)
    ensures
        render_run(ents, s + t) == render_from(ents, render_run(ents, s), t),
    decreases t.len(),
{
    if t.len() == 0 {
        assert(s + t =~= s);
    } else {
        lemma_run_concat(ents, s, t.drop_last());
        assert((s + t).drop_last() =~= s + t.drop_last());
        assert((s + t).last() == t.last());
    }
}

proof fn lemma_from_concat(ents: Seq<TextEntity>, st: RenderState, a: Seq<char>, b: Seq<char>)
    ensures
        render_from(ents, st, a + b) == render_from(ents, render_from(ents, st, a), b),
    decreases b.len(),
{
    if b.len() == 0 {
        assert(a + b =~= a);
    } else {
        lemma_from_concat(ents, st, a, b.drop_last());
        assert((a + b).drop_last() =~= a + b.drop_last());
        assert((a + b).last() == b.last());
    }
}

proof fn lemma_utf16_concat(a: Seq<char>, b: Seq<char>)
    ensures
        utf16_count(a + b) == utf16_count(a) + utf16_count(b),
    decreases b.len(),
{
    if b.len() == 0 {
        assert(a + b =~= a);
    } else {
        lemma_utf16_concat(a, b.drop_last());
        assert((a + b).drop_last() =~= a + b.drop_last());
        assert((a + b).last() == b.last());
    }
}

proof fn lemma_utf16_at_least_len(s: Seq<char>)
    ensures
        utf16_count(s) >= s.len(),
    decreases s.len(),
{
    if s.len() > 0 {
        lemma_utf16_at_least_len(s.drop_last());
    }
}

proof fn lemma_escaped_empty()
    ensures
        text::escaped(Seq::<char>::empty()) == Seq::<char>::empty(),
{
}

/// Plain text read before the next entity opens goes to the buffer.
proof fn lemma_plain_from(ents: Seq<TextEntity>, st: RenderState, m: Seq<char>)
    requires
        !st.inside,
        st.next <= ents.len(),
        st.next < ents.len() ==> st.units + utf16_count(m) <= ents[st.next as int].offset,
        st.next < ents.len() ==> ents[st.next as int].length >= 1,
        st.next < ents.len() ==> ents[st.next as int].offset + ents[st.next as int].length <= i32::MAX,
    ensures
        render_from(ents, st, m) == (RenderState {
            next: st.next,
            output: st.output,
            buffer: st.buffer + m,
            inside: false,
            units: st.units + utf16_count(m),
        }),
    decreases m.len(),
{
    if m.len() == 0 {
        assert(st.buffer + m =~= st.buffer);
    } else {
        let p = m.drop_last();
        let c = m.last();
        lemma_plain_from(ents, st, p);
        assert(utf16_count(m) == utf16_count(p) + utf16_len(c));
        assert((st.buffer + p).push(c) =~= st.buffer + m);
    }
}

/// An entity's text read before its last character: the plain text before
/// it was written out, and the entity's text is in the buffer.
proof fn lemma_entity_prefix(ents: Seq<TextEntity>, st: RenderState, y: Seq<char>)
    requires
        !st.inside,
        st.next < ents.len(),
        st.units == ents[st.next as int].offset,
        y.len() > 0,
        utf16_count(y) < ents[st.next as int].length,
        ents[st.next as int].offset + ents[st.next as int].length <= i32::MAX,
    ensures
        render_from(ents, st, y) == (RenderState {
            next: st.next,
            output: st.output + text::escaped(st.buffer),
            buffer: y,
            inside: true,
            units: st.units + utf16_count(y),
        }),
    decreases y.len(),
{
    let p = y.drop_last();
    let c = y.last();
    assert(utf16_count(y) == utf16_count(p) + utf16_len(c));
    if p.len() == 0 {
        assert(render_from(ents, st, p) == st);
        lemma_escaped_empty();
        assert(Seq::<char>::empty().push(c) =~= y);
        assert(utf16_count(p) == 0);
        if st.buffer.len() == 0 {
            assert(st.buffer =~= Seq::<char>::empty());
            assert(st.output + text::escaped(st.buffer) =~= st.output);
        }
    } else {
        lemma_entity_prefix(ents, st, p);
        assert(p.push(c) =~= y);
    }
}

/// Reading an entity's whole text from where it starts writes out the
/// plain text before it, escaped, then the entity's escaped and formatted
/// text, and moves on to the next entity.
proof fn lemma_entity_from(ents: Seq<TextEntity>, st: RenderState, x: Seq<char>)
    requires
        !st.inside,
        st.next < ents.len(),
        st.units == ents[st.next as int].offset,
        x.len() > 0,
        utf16_count(x) == ents[st.next as int].length,
        ents[st.next as int].offset + ents[st.next as int].length <= i32::MAX,
        st.next + 1 < ents.len() ==> ents[st.next + 1int].offset != ents[st.next as int].offset,
    ensures
        render_from(ents, st, x) == (RenderState {
            next: st.next + 1,
            output: st.output + text::escaped(st.buffer) + entity_markup(text::escaped(x), ents[st.next as int].kind),
            buffer: Seq::empty(),
            inside: false,
            units: st.units + utf16_count(x),
        }),
{
    let k = st.next as int;
    let p = x.drop_last();
    let c = x.last();
    assert(utf16_count(x) == utf16_count(p) + utf16_len(c));
    assert(apply_nested(ents, k, k + 1, text::escaped(x)) == (text::escaped(x), k + 1));
    if p.len() == 0 {
        assert(render_from(ents, st, p) == st);
        assert(utf16_count(p) == 0);
        assert(Seq::<char>::empty().push(c) =~= x);
        lemma_escaped_empty();
        if st.buffer.len() == 0 {
            assert(st.buffer =~= Seq::<char>::empty());
            assert(st.output + text::escaped(st.buffer) =~= st.output);
        }
    } else {
        lemma_entity_prefix(ents, st, p);
        assert(p.push(c) =~= x);
    }
}

/// One part of a layout: its plain text, then its entity's text.
proof fn lemma_part_from(ents: Seq<TextEntity>, st0: RenderState, pl: Seq<char>, x: Seq<char>)
    requires
        !st0.inside,
        st0.buffer == Seq::<char>::empty(),
        st0.next < ents.len(),
        ents[st0.next as int].offset == st0.units + utf16_count(pl),
        ents[st0.next as int].length == utf16_count(x),
        x.len() > 0,
        ents[st0.next as int].offset + ents[st0.next as int].length <= i32::MAX,
        st0.next + 1 < ents.len() ==> ents[st0.next + 1int].offset != ents[st0.next as int].offset,
    ensures
        render_from(ents, st0, pl + x) == (RenderState {
            next: st0.next + 1,
            output: st0.output + text::escaped(pl) + entity_markup(text::escaped(x), ents[st0.next as int].kind),
            buffer: Seq::empty(),
            inside: false,
            units: st0.units + utf16_count(pl) + utf16_count(x),
        }),
{
    lemma_from_concat(ents, st0, pl, x);
    lemma_utf16_at_least_len(x);
    lemma_plain_from(ents, st0, pl);
    let st1 = render_from(ents, st0, pl);
    assert(Seq::<char>::empty() + pl =~= pl);
    lemma_entity_from(ents, st1, x);
}

proof fn lemma_layout_run(parts: Seq<(Seq<char>, Seq<char>)>, ents: Seq<TextEntity>, i: int)
    requires
        well_placed(parts, ents),
        0 <= i <= parts.len(),
    ensures
        render_run(ents, layout_text(parts.take(i))) == (RenderState {
            next: i as nat,
            output: layout_markup(parts.take(i), ents),
            buffer: Seq::empty(),
            inside: false,
            units: utf16_count(layout_text(parts.take(i))),
        }),
    decreases i,
{
    if i == 0 {
        assert(parts.take(0) =~= Seq::<(Seq<char>, Seq<char>)>::empty());
        assert(render_run(ents, Seq::<char>::empty()).buffer =~= Seq::<char>::empty());
    } else {
        lemma_layout_run(parts, ents, i - 1);
        let big = parts.take(i);
        let small = parts.take(i - 1);
        assert(big.drop_last() =~= small);
        assert(big.last() == parts[i - 1]);
        let l = layout_text(small);
        let pl = parts[i - 1].0;
        let x = parts[i - 1].1;
        let st0 = render_run(ents, l);
        assert(layout_text(big) == l + pl + x);
        assert(l + pl + x =~= l + (pl + x));
        lemma_run_concat(ents, l, pl + x);
        lemma_utf16_concat(l, pl);
        lemma_utf16_concat(l + pl, x);
        assert(x.len() > 0);
        assert(ents[i - 1].offset == utf16_count(l + pl));
        if i < ents.len() {
            let nl = layout_text(parts.take(i));
            assert(parts[i].1.len() > 0);
            assert(ents[i].offset == utf16_count(nl + parts[i].0));
            lemma_utf16_concat(nl, parts[i].0);
            assert(parts.take(i) =~= big);
            lemma_utf16_at_least_len(x);
        }
        lemma_part_from(ents, st0, pl, x);
        assert(layout_markup(big, ents) == layout_markup(small, ents) + text::escaped(pl)
            + entity_markup(text::escaped(x), ents[i - 1].kind));
    }
}

/// Rendering keeps every character of the text: for entities that each
/// cover one part of the text, one after the other and not overlapping,
/// the markup is, part by part, the escaped plain text before the entity
/// followed by the entity's escaped and formatted text, and then the
/// escaped text after the last entity. In particular the plain text
/// between two entities stands escaped between their markups.
pub proof fn lemma_entities_keep_the_text(parts: Seq<(Seq<char>, Seq<char>)>, ents: Seq<TextEntity>, tail: Seq<char>)
    requires
        well_placed(parts, ents),
    ensures
        rendered(ents, layout_text(parts) + tail) == layout_markup(parts, ents) + text::escaped(tail),
{
    let n = parts.len() as int;
    lemma_layout_run(parts, ents, n);
    assert(parts.take(n) =~= parts);
    let st = render_run(ents, layout_text(parts));
    lemma_run_concat(ents, layout_text(parts), tail);
    lemma_plain_from(ents, st, tail);
    assert(Seq::<char>::empty() + tail =~= tail);
    lemma_escaped_empty();
    if tail.len() == 0 {
        assert(tail =~= Seq::<char>::empty());
        assert(layout_markup(parts, ents) + text::escaped(tail) =~= layout_markup(parts, ents));
    }
}

} // verus!
