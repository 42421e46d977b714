//! The document format: the target document read once at run start, and the
//! progress document flushed after every processed entry.
//!
//! A document is the root element `OrdemTargets` holding any number of
//! `Service` elements; each `Service` holds the entry's fields as child
//! elements with text content, absent fields omitted. Text content carries
//! the five standard character entities. The grammar below is the format's
//! definition; parsing and serialization are proved against it.

use vstd::prelude::*;

use crate::model::{empty_entry, opt_str_view, views_of, OrdemTargets, ServiceEntry, ServiceEntryView};
use crate::textmatch::match_at;

verus! {

/// The input document could not be read as a target document.
#[derive(Debug)]
pub struct XmlError {}

// ---------------------------------------------------------------------------
// Escaping
// ---------------------------------------------------------------------------

/// How one character of text content is written.
pub open spec fn esc_char(c: char) -> Seq<char> {
    if c == '&' {
        "&amp;"@
    } else if c == '<' {
        "&lt;"@
    } else if c == '>' {
        "&gt;"@
    } else if c == '"' {
        "&quot;"@
    } else if c == '\'' {
        "&apos;"@
    } else {
        seq![c]
    }
}

/// Text content as it is written: every character escaped.
pub open spec fn xml_escape(s: Seq<char>) -> Seq<char>
    decreases s.len(),
{
    if s.len() == 0 {
        Seq::empty()
    } else {
        xml_escape(s.drop_last()) + esc_char(s.last())
    }
}

/// Escapes text content for serialization.
fn escape_text(s: &str) -> (r: String)
    ensures
        r@ == xml_escape(s@),
{
    let n = s.unicode_len();
    let mut out = String::new();
    let mut i: usize = 0;
    while i < n
        invariant
            i <= n,
            n == s@.len(),
            out@ == xml_escape(s@.subrange(0, i as int)),
        decreases n - i,
    {
        let c = s.get_char(i);
        if c == '&' {
            out.append("&amp;");
        } else if c == '<' {
            out.append("&lt;");
        } else if c == '>' {
            out.append("&gt;");
        } else if c == '"' {
            out.append("&quot;");
        } else if c == '\'' {
            out.append("&apos;");
        } else {
            let piece = s.substring_char(i, i + 1);
            out.append(piece);
            proof {
                assert(s@.subrange(i as int, (i + 1) as int) =~= seq![s@[i as int]]);
            }
        }
        proof {
            assert(s@.subrange(0, (i + 1) as int).drop_last() =~= s@.subrange(0, i as int));
            assert(s@.subrange(0, (i + 1) as int).last() == s@[i as int]);
        }
        i += 1;
    }
    proof {
        assert(s@.subrange(0, n as int) =~= s@);
    }
    out
}

// ---------------------------------------------------------------------------
// Serialization
// ---------------------------------------------------------------------------

/// One optional field as it is written: nothing when absent, otherwise the
/// open tag, the escaped content, and the close tag.
pub open spec fn field_xml(open: Seq<char>, close: Seq<char>, v: Option<Seq<char>>) -> Seq<char> {
    match v {
        None => Seq::empty(),
        Some(t) => open + xml_escape(t) + close,
    }
}

/// One entry as it is written: a `Service` element holding its present
/// fields, in the model's order.
pub open spec fn entry_xml(e: ServiceEntryView) -> Seq<char> {
    "<Service>"@ + field_xml("<name>"@, "</name>"@, e.name) + field_xml(
        "<description>"@,
        "</description>"@,
        e.description,
    ) + field_xml("<status>"@, "</status>"@, e.status) + field_xml(
        "<start_mode>"@,
        "</start_mode>"@,
        e.start_mode,
    ) + field_xml("<end_mode>"@, "</end_mode>"@, e.end_mode) + field_xml(
        "<log_on_as>"@,
        "</log_on_as>"@,
        e.log_on_as,
    ) + field_xml("<path>"@, "</path>"@, e.path) + field_xml(
        "<start_processing_time>"@,
        "</start_processing_time>"@,
        e.start_processing_time,
    ) + field_xml("<stop_time>"@, "</stop_time>"@, e.stop_time) + field_xml(
        "<end_time>"@,
        "</end_time>"@,
        e.end_time,
    ) + field_xml("<cpu_responsive_time>"@, "</cpu_responsive_time>"@, e.cpu_responsive_time)
        + "</Service>"@
}

/// A run of entries as it is written, in order.
pub open spec fn entries_xml(es: Seq<ServiceEntryView>) -> Seq<char>
    decreases es.len(),
{
    if es.len() == 0 {
        Seq::empty()
    } else {
        entries_xml(es.drop_last()) + entry_xml(es.last())
    }
}

/// A whole document as it is written: a self-closed root when it holds no
/// entries, otherwise the root element around the entries.
pub open spec fn document_xml(es: Seq<ServiceEntryView>) -> Seq<char> {
    if es.len() == 0 {
        "<OrdemTargets/>"@
    } else {
        "<OrdemTargets>"@ + entries_xml(es) + "</OrdemTargets>"@
    }
}

/// Appends one optional field to the output.
fn append_field(out: &mut String, open: &str, close: &str, v: &Option<String>)
    ensures
        final(out)@ == old(out)@ + field_xml(open@, close@, opt_str_view(*v)),
{
    match v {
        None => {
            proof {
                assert(old(out)@ + field_xml(open@, close@, opt_str_view(*v)) =~= old(out)@);
            }
        },
        Some(t) => {
            out.append(open);
            let escaped = escape_text(t.as_str());
            out.append(escaped.as_str());
            out.append(close);
            proof {
                assert(final(out)@ =~= old(out)@ + field_xml(open@, close@, opt_str_view(*v)));
            }
        },
    }
}

/// Serializes one entry.
fn entry_to_xml(e: &ServiceEntry) -> (r: String)
    ensures
        r@ == entry_xml(e@),
{
    let mut out = String::from_str("<Service>");
    append_field(&mut out, "<name>", "</name>", &e.name);
    append_field(&mut out, "<description>", "</description>", &e.description);
    append_field(&mut out, "<status>", "</status>", &e.status);
    append_field(&mut out, "<start_mode>", "</start_mode>", &e.start_mode);
    append_field(&mut out, "<end_mode>", "</end_mode>", &e.end_mode);
    append_field(&mut out, "<log_on_as>", "</log_on_as>", &e.log_on_as);
    append_field(&mut out, "<path>", "</path>", &e.path);
    append_field(
        &mut out,
        "<start_processing_time>",
        "</start_processing_time>",
        &e.start_processing_time,
    );
    append_field(&mut out, "<stop_time>", "</stop_time>", &e.stop_time);
    append_field(&mut out, "<end_time>", "</end_time>", &e.end_time);
    append_field(
        &mut out,
        "<cpu_responsive_time>",
        "</cpu_responsive_time>",
        &e.cpu_responsive_time,
    );
    out.append("</Service>");
    proof {
        assert(out@ =~= entry_xml(e@));
    }
    out
}

/// Serializes the whole progress document. Serialization is owed for every
/// document: the result is always the document's text under the grammar.
pub fn write_progress_xml(progress: &OrdemTargets) -> (r: Result<String, XmlError>)
    ensures
        r matches Ok(t) && t@ == document_xml(progress@),
{
    let n = progress.services.len();
    if n == 0 {
        return Ok(String::from_str("<OrdemTargets/>"));
    }
    let mut out = String::from_str("<OrdemTargets>");
    let mut i: usize = 0;
    while i < n
        invariant
            i <= n,
            n == progress.services@.len(),
            out@ == "<OrdemTargets>"@ + entries_xml(progress@.subrange(0, i as int)),
        decreases n - i,
    {
        let piece = entry_to_xml(&progress.services[i]);
        out.append(piece.as_str());
        proof {
            assert(progress@.subrange(0, (i + 1) as int).drop_last() =~= progress@.subrange(
                0,
                i as int,
            ));
            assert(progress@.subrange(0, (i + 1) as int).last() == progress@[i as int]);
            assert(progress@[i as int] == progress.services@[i as int]@);
        }
        i += 1;
    }
    out.append("</OrdemTargets>");
    proof {
        assert(progress@.subrange(0, n as int) =~= progress@);
        assert(out@ =~= document_xml(progress@));
    }
    Ok(out)
}

/// The progress artifact's whole text: the standard document header, then
/// the serialized document.
pub fn progress_document_text(progress: &OrdemTargets) -> (r: Result<String, XmlError>)
    ensures
        r matches Ok(t) && t@ == "<?xml version=\"1.0\" encoding=\"utf-8\"?>\n"@ + document_xml(
            progress@,
        ),
{
    let body = match write_progress_xml(progress) {
        Ok(b) => b,
        Err(e) => {
            return Err(e);
        },
    };
    let mut out = String::from_str("<?xml version=\"1.0\" encoding=\"utf-8\"?>\n");
    out.append(body.as_str());
    Ok(out)
}

// ---------------------------------------------------------------------------
// Parsing: the grammar
// ---------------------------------------------------------------------------

/// Whitespace between elements.
pub open spec fn is_xml_ws(c: char) -> bool {
    c == ' ' || c == '\t' || c == '\r' || c == '\n'
}

/// The first position at or after `i` that does not hold whitespace.
pub open spec fn sp_ws(s: Seq<char>, i: int) -> int
    decreases s.len() - i,
{
    if 0 <= i < s.len() && is_xml_ws(s[i]) {
        sp_ws(s, i + 1)
    } else {
        i
    }
}

/// Whether `lit` stands at position `i` of `s`.
pub open spec fn sp_lit(s: Seq<char>, i: int, lit: Seq<char>) -> bool {
    0 <= i && i + lit.len() <= s.len() && s.subrange(i, i + lit.len() as int) == lit
}

/// The end of a run of text content: the first position at or after `i`
/// that holds `<`, or the end of the input.
pub open spec fn sp_text_end(s: Seq<char>, i: int) -> int
    decreases s.len() - i,
{
    if 0 <= i < s.len() && s[i] != '<' {
        sp_text_end(s, i + 1)
    } else {
        i
    }
}

/// Text content as it is read: the five standard entities decoded, any
/// other use of `&` refused.
pub open spec fn sp_unescape(t: Seq<char>) -> Option<Seq<char>>
    decreases t.len(),
{
    if t.len() == 0 {
        Some(Seq::empty())
    } else if t[0] == '&' {
        if t.len() >= 5 && t[1] == 'a' && t[2] == 'm' && t[3] == 'p' && t[4] == ';' {
            cons_decoded(seq!['&'], sp_unescape(t.subrange(5, t.len() as int)))
        } else if t.len() >= 4 && t[1] == 'l' && t[2] == 't' && t[3] == ';' {
            cons_decoded(seq!['<'], sp_unescape(t.subrange(4, t.len() as int)))
        } else if t.len() >= 4 && t[1] == 'g' && t[2] == 't' && t[3] == ';' {
            cons_decoded(seq!['>'], sp_unescape(t.subrange(4, t.len() as int)))
        } else if t.len() >= 6 && t[1] == 'q' && t[2] == 'u' && t[3] == 'o' && t[4] == 't' && t[5]
            == ';' {
            cons_decoded(seq!['"'], sp_unescape(t.subrange(6, t.len() as int)))
        } else if t.len() >= 6 && t[1] == 'a' && t[2] == 'p' && t[3] == 'o' && t[4] == 's' && t[5]
            == ';' {
            cons_decoded(seq!['\''], sp_unescape(t.subrange(6, t.len() as int)))
        } else {
            None
        }
    } else {
        cons_decoded(t.subrange(0, 1), sp_unescape(t.subrange(1, t.len() as int)))
    }
}

/// A decoded head in front of the decoded rest, where the rest decoded at
/// all.
pub open spec fn cons_decoded(head: Seq<char>, rest: Option<Seq<char>>) -> Option<Seq<char>> {
    match rest {
        Some(u) => Some(head + u),
        None => None,
    }
}

/// One element with text content: the self-closing form stands for empty
/// content; otherwise the open tag, the content up to the next `<`, and the
/// close tag.
pub open spec fn sp_tagged(
    s: Seq<char>,
    j: int,
    open: Seq<char>,
    close: Seq<char>,
    selfc: Seq<char>,
) -> Option<(Seq<char>, int)> {
    if sp_lit(s, j, selfc) {
        Some((Seq::empty(), j + selfc.len() as int))
    } else if sp_lit(s, j, open) {
        let b = j + open.len() as int;
        let e = sp_text_end(s, b);
        if !(b <= e <= s.len()) {
            None
        } else if sp_lit(s, e, close) {
            match sp_unescape(s.subrange(b, e)) {
                Some(v) => Some((v, e + close.len() as int)),
                None => None,
            }
        } else {
            None
        }
    } else {
        None
    }
}

/// One field of a `Service` element, whichever of the entry's fields it is,
/// written into the entry under construction.
pub open spec fn sp_entry_field(s: Seq<char>, j: int, acc: ServiceEntryView) -> Option<
    (ServiceEntryView, int),
> {
    if sp_tagged(s, j, "<name>"@, "</name>"@, "<name/>"@).is_some() {
        let r = sp_tagged(s, j, "<name>"@, "</name>"@, "<name/>"@).unwrap();
        Some((ServiceEntryView { name: Some(r.0), ..acc }, r.1))
    } else if sp_tagged(s, j, "<description>"@, "</description>"@, "<description/>"@).is_some() {
        let r = sp_tagged(s, j, "<description>"@, "</description>"@, "<description/>"@).unwrap();
        Some((ServiceEntryView { description: Some(r.0), ..acc }, r.1))
    } else if sp_tagged(s, j, "<status>"@, "</status>"@, "<status/>"@).is_some() {
        let r = sp_tagged(s, j, "<status>"@, "</status>"@, "<status/>"@).unwrap();
        Some((ServiceEntryView { status: Some(r.0), ..acc }, r.1))
    } else if sp_tagged(s, j, "<start_mode>"@, "</start_mode>"@, "<start_mode/>"@).is_some() {
        let r = sp_tagged(s, j, "<start_mode>"@, "</start_mode>"@, "<start_mode/>"@).unwrap();
        Some((ServiceEntryView { start_mode: Some(r.0), ..acc }, r.1))
    } else if sp_tagged(s, j, "<end_mode>"@, "</end_mode>"@, "<end_mode/>"@).is_some() {
        let r = sp_tagged(s, j, "<end_mode>"@, "</end_mode>"@, "<end_mode/>"@).unwrap();
        Some((ServiceEntryView { end_mode: Some(r.0), ..acc }, r.1))
    } else if sp_tagged(s, j, "<log_on_as>"@, "</log_on_as>"@, "<log_on_as/>"@).is_some() {
        let r = sp_tagged(s, j, "<log_on_as>"@, "</log_on_as>"@, "<log_on_as/>"@).unwrap();
        Some((ServiceEntryView { log_on_as: Some(r.0), ..acc }, r.1))
    } else if sp_tagged(s, j, "<path>"@, "</path>"@, "<path/>"@).is_some() {
        let r = sp_tagged(s, j, "<path>"@, "</path>"@, "<path/>"@).unwrap();
        Some((ServiceEntryView { path: Some(r.0), ..acc }, r.1))
    } else if sp_tagged(
        s,
        j,
        "<start_processing_time>"@,
        "</start_processing_time>"@,
        "<start_processing_time/>"@,
    ).is_some() {
        let r = sp_tagged(
            s,
            j,
            "<start_processing_time>"@,
            "</start_processing_time>"@,
            "<start_processing_time/>"@,
        ).unwrap();
        Some((ServiceEntryView { start_processing_time: Some(r.0), ..acc }, r.1))
    } else if sp_tagged(s, j, "<stop_time>"@, "</stop_time>"@, "<stop_time/>"@).is_some() {
        let r = sp_tagged(s, j, "<stop_time>"@, "</stop_time>"@, "<stop_time/>"@).unwrap();
        Some((ServiceEntryView { stop_time: Some(r.0), ..acc }, r.1))
    } else if sp_tagged(s, j, "<end_time>"@, "</end_time>"@, "<end_time/>"@).is_some() {
        let r = sp_tagged(s, j, "<end_time>"@, "</end_time>"@, "<end_time/>"@).unwrap();
        Some((ServiceEntryView { end_time: Some(r.0), ..acc }, r.1))
    } else if sp_tagged(
        s,
        j,
        "<cpu_responsive_time>"@,
        "</cpu_responsive_time>"@,
        "<cpu_responsive_time/>"@,
    ).is_some() {
        let r = sp_tagged(
            s,
            j,
            "<cpu_responsive_time>"@,
            "</cpu_responsive_time>"@,
            "<cpu_responsive_time/>"@,
        ).unwrap();
        Some((ServiceEntryView { cpu_responsive_time: Some(r.0), ..acc }, r.1))
    } else {
        None
    }
}

/// The fields of one `Service` element, any number in any order, up to its
/// close tag.
pub open spec fn sp_fields(s: Seq<char>, i: int, acc: ServiceEntryView) -> Option<
    (ServiceEntryView, int),
>
    decreases s.len() - i,
{
    let j = sp_ws(s, i);
    if !(i <= j <= s.len()) {
        None
    } else if sp_lit(s, j, "</Service>"@) {
        Some((acc, j + "</Service>"@.len() as int))
    } else if sp_entry_field(s, j, acc).is_some() {
        let r = sp_entry_field(s, j, acc).unwrap();
        if j < r.1 <= s.len() {
            sp_fields(s, r.1, r.0)
        } else {
            None
        }
    } else {
        None
    }
}

/// One `Service` element: self-closing for an entry with every field
/// absent, otherwise its fields up to the close tag.
pub open spec fn sp_service(s: Seq<char>, j: int) -> Option<(ServiceEntryView, int)> {
    if sp_lit(s, j, "<Service/>"@) {
        Some((empty_entry(), j + "<Service/>"@.len() as int))
    } else if sp_lit(s, j, "<Service>"@) {
        sp_fields(s, j + "<Service>"@.len() as int, empty_entry())
    } else {
        None
    }
}

/// The `Service` elements inside the root, in order, up to the root's close
/// tag.
pub open spec fn sp_items(s: Seq<char>, i: int, acc: Seq<ServiceEntryView>) -> Option<
    (Seq<ServiceEntryView>, int),
>
    decreases s.len() - i,
{
    let j = sp_ws(s, i);
    if !(i <= j <= s.len()) {
        None
    } else if sp_lit(s, j, "</OrdemTargets>"@) {
        Some((acc, j + "</OrdemTargets>"@.len() as int))
    } else if sp_service(s, j).is_some() {
        let r = sp_service(s, j).unwrap();
        if j < r.1 <= s.len() {
            sp_items(s, r.1, acc.push(r.0))
        } else {
            None
        }
    } else {
        None
    }
}

/// The position after the document declaration's closing `?>`, if one is
/// found at or after `i`.
pub open spec fn sp_decl_end(s: Seq<char>, i: int) -> Option<int>
    decreases s.len() - i,
{
    if !(0 <= i) || i + 2 > s.len() {
        None
    } else if s[i] == '?' && s[i + 1] == '>' {
        Some(i + 2)
    } else {
        sp_decl_end(s, i + 1)
    }
}

/// A whole target document: optional whitespace and document declaration,
/// then the root element, then nothing but whitespace.
pub open spec fn sp_document(s: Seq<char>) -> Option<Seq<ServiceEntryView>> {
    let i = sp_ws(s, 0);
    if !(0 <= i <= s.len()) {
        None
    } else {
        let after_decl = if sp_lit(s, i, "<?xml"@) {
            sp_decl_end(s, i)
        } else {
            Some(i)
        };
        match after_decl {
            None => None,
            Some(b) => {
                if !(0 <= b <= s.len()) {
                    None
                } else {
                    let j = sp_ws(s, b);
                    if !(b <= j <= s.len()) {
                        None
                    } else if sp_lit(s, j, "<OrdemTargets/>"@) {
                        if sp_ws(s, j + "<OrdemTargets/>"@.len() as int) == s.len() {
                            Some(Seq::empty())
                        } else {
                            None
                        }
                    } else if sp_lit(s, j, "<OrdemTargets>"@) {
                        match sp_items(s, j + "<OrdemTargets>"@.len() as int, Seq::empty()) {
                            Some(r) => {
                                if !(0 <= r.1 <= s.len()) {
                                    None
                                } else if sp_ws(s, r.1) == s.len() {
                                    Some(r.0)
                                } else {
                                    None
                                }
                            },
                            None => None,
                        }
                    } else {
                        None
                    }
                }
            },
        }
    }
}

// ---------------------------------------------------------------------------
// Parsing: the implementation
// ---------------------------------------------------------------------------

/// Whether the character is whitespace between elements.
fn is_ws_char(c: char) -> (r: bool)
    ensures
        r == is_xml_ws(c),
{
    c == ' ' || c == '\t' || c == '\r' || c == '\n'
}

/// Skips whitespace from `i` on.
fn skip_ws(s: &str, i: usize, n: usize) -> (j: usize)
    requires
        n == s@.len(),
        i <= n,
    ensures
        j == sp_ws(s@, i as int),
        i <= j <= n,
    decreases n - i,
{
    if i < n {
        let c = s.get_char(i);
        if is_ws_char(c) {
            skip_ws(s, i + 1, n)
        } else {
            i
        }
    } else {
        i
    }
}

/// Whether `lit` stands at position `i` of `s`.
fn has_lit(s: &str, i: usize, n: usize, lit: &str) -> (r: bool)
    requires
        n == s@.len(),
        i <= n,
    ensures
        r == sp_lit(s@, i as int, lit@),
{
    let m = lit.unicode_len();
    if m > n - i {
        return false;
    }
    match_at(s, lit, i)
}

/// Finds the end of a run of text content from `i` on.
fn text_end(s: &str, i: usize, n: usize) -> (j: usize)
    requires
        n == s@.len(),
        i <= n,
    ensures
        j == sp_text_end(s@, i as int),
        i <= j <= n,
    decreases n - i,
{
    if i < n {
        let c = s.get_char(i);
        if c != '<' {
            text_end(s, i + 1, n)
        } else {
            i
        }
    } else {
        i
    }
}

/// Finds the position after the document declaration's closing `?>`.
fn find_decl_end(s: &str, i: usize, n: usize) -> (r: Option<usize>)
    requires
        n == s@.len(),
        i <= n,
    ensures
        match sp_decl_end(s@, i as int) {
            Some(p) => r matches Some(q) && q == p && q <= n,
            None => r is None,
        },
    decreases n - i,
{
    if n < 2 || i > n - 2 {
        return None;
    }
    let c0 = s.get_char(i);
    let c1 = s.get_char(i + 1);
    if c0 == '?' && c1 == '>' {
        Some(i + 2)
    } else {
        find_decl_end(s, i + 1, n)
    }
}

/// Decodes text content, refusing any `&` that opens no standard entity.
fn unescape_text(t: &str) -> (r: Option<String>)
    ensures
        match sp_unescape(t@) {
            Some(u) => r matches Some(x) && x@ == u,
            None => r is None,
        },
    decreases t@.len(),
{
    let n = t.unicode_len();
    if n == 0 {
        return Some(String::new());
    }
    let c0 = t.get_char(0);
    if c0 == '&' {
        if n >= 5 && t.get_char(1) == 'a' && t.get_char(2) == 'm' && t.get_char(3) == 'p'
            && t.get_char(4) == ';' {
            let rest = t.substring_char(5, n);
            match unescape_text(rest) {
                Some(u) => {
                    let mut out = String::from_str("&");
                    out.append(u.as_str());
                    proof {
                        reveal_strlit("&");
                        assert(out@ =~= seq!['&'] + u@);
                    }
                    Some(out)
                },
                None => None,
            }
        } else if n >= 4 && t.get_char(1) == 'l' && t.get_char(2) == 't' && t.get_char(3) == ';' {
            let rest = t.substring_char(4, n);
            match unescape_text(rest) {
                Some(u) => {
                    let mut out = String::from_str("<");
                    out.append(u.as_str());
                    proof {
                        reveal_strlit("<");
                        assert(out@ =~= seq!['<'] + u@);
                    }
                    Some(out)
                },
                None => None,
            }
        } else if n >= 4 && t.get_char(1) == 'g' && t.get_char(2) == 't' && t.get_char(3) == ';' {
            let rest = t.substring_char(4, n);
            match unescape_text(rest) {
                Some(u) => {
                    let mut out = String::from_str(">");
                    out.append(u.as_str());
                    proof {
                        reveal_strlit(">");
                        assert(out@ =~= seq!['>'] + u@);
                    }
                    Some(out)
                },
                None => None,
            }
        } else if n >= 6 && t.get_char(1) == 'q' && t.get_char(2) == 'u' && t.get_char(3) == 'o'
            && t.get_char(4) == 't' && t.get_char(5) == ';' {
            let rest = t.substring_char(6, n);
            match unescape_text(rest) {
                Some(u) => {
                    let mut out = String::from_str("\"");
                    out.append(u.as_str());
                    proof {
                        reveal_strlit("\"");
                        assert(out@ =~= seq!['"'] + u@);
                    }
                    Some(out)
                },
                None => None,
            }
        } else if n >= 6 && t.get_char(1) == 'a' && t.get_char(2) == 'p' && t.get_char(3) == 'o'
            && t.get_char(4) == 's' && t.get_char(5) == ';' {
            let rest = t.substring_char(6, n);
            match unescape_text(rest) {
                Some(u) => {
                    let mut out = String::from_str("'");
                    out.append(u.as_str());
                    proof {
                        reveal_strlit("'");
                        assert(out@ =~= seq!['\''] + u@);
                    }
                    Some(out)
                },
                None => None,
            }
        } else {
            None
        }
    } else {
        let head = t.substring_char(0, 1);
        let rest = t.substring_char(1, n);
        match unescape_text(rest) {
            Some(u) => {
                let mut out = String::from_str(head);
                out.append(u.as_str());
                Some(out)
            },
            None => None,
        }
    }
}

/// Reads one element with text content, in either of its forms.
fn parse_tagged(s: &str, j: usize, n: usize, open: &str, close: &str, selfc: &str) -> (r: Option<
    (String, usize),
>)
    requires
        n == s@.len(),
        j <= n,
    ensures
        match sp_tagged(s@, j as int, open@, close@, selfc@) {
            Some(p) => r matches Some(q) && q.0@ == p.0 && q.1 == p.1 && q.1 <= n,
            None => r is None,
        },
{
    if has_lit(s, j, n, selfc) {
        let m = selfc.unicode_len();
        return Some((String::new(), j + m));
    }
    if has_lit(s, j, n, open) {
        let b = j + open.unicode_len();
        let e = text_end(s, b, n);
        if has_lit(s, e, n, close) {
            let body = s.substring_char(b, e);
            match unescape_text(body) {
                Some(v) => {
                    let m = close.unicode_len();
                    Some((v, e + m))
                },
                None => None,
            }
        } else {
            None
        }
    } else {
        None
    }
}

/// Reads one field of a `Service` element into the entry under
/// construction.
fn parse_entry_field(s: &str, j: usize, n: usize, acc: ServiceEntry) -> (r: Option<
    (ServiceEntry, usize),
>)
    requires
        n == s@.len(),
        j <= n,
    ensures
        match sp_entry_field(s@, j as int, acc@) {
            Some(p) => r matches Some(q) && q.0@ == p.0 && q.1 == p.1 && q.1 <= n,
            None => r is None,
        },
{
    let mut acc = acc;
    match parse_tagged(s, j, n, "<name>", "</name>", "<name/>") {
        Some((v, k)) => {
            acc.name = Some(v);
            return Some((acc, k));
        },
        None => {},
    }
    match parse_tagged(s, j, n, "<description>", "</description>", "<description/>") {
        Some((v, k)) => {
            acc.description = Some(v);
            return Some((acc, k));
        },
        None => {},
    }
    match parse_tagged(s, j, n, "<status>", "</status>", "<status/>") {
        Some((v, k)) => {
            acc.status = Some(v);
            return Some((acc, k));
        },
        None => {},
    }
    match parse_tagged(s, j, n, "<start_mode>", "</start_mode>", "<start_mode/>") {
        Some((v, k)) => {
            acc.start_mode = Some(v);
            return Some((acc, k));
        },
        None => {},
    }
    match parse_tagged(s, j, n, "<end_mode>", "</end_mode>", "<end_mode/>") {
        Some((v, k)) => {
            acc.end_mode = Some(v);
            return Some((acc, k));
        },
        None => {},
    }
    match parse_tagged(s, j, n, "<log_on_as>", "</log_on_as>", "<log_on_as/>") {
        Some((v, k)) => {
            acc.log_on_as = Some(v);
            return Some((acc, k));
        },
        None => {},
    }
    match parse_tagged(s, j, n, "<path>", "</path>", "<path/>") {
        Some((v, k)) => {
            acc.path = Some(v);
            return Some((acc, k));
        },
        None => {},
    }
    match parse_tagged(
        s,
        j,
        n,
        "<start_processing_time>",
        "</start_processing_time>",
        "<start_processing_time/>",
    ) {
        Some((v, k)) => {
            acc.start_processing_time = Some(v);
            return Some((acc, k));
        },
        None => {},
    }
    match parse_tagged(s, j, n, "<stop_time>", "</stop_time>", "<stop_time/>") {
        Some((v, k)) => {
            acc.stop_time = Some(v);
            return Some((acc, k));
        },
        None => {},
    }
    match parse_tagged(s, j, n, "<end_time>", "</end_time>", "<end_time/>") {
        Some((v, k)) => {
            acc.end_time = Some(v);
            return Some((acc, k));
        },
        None => {},
    }
    match parse_tagged(
        s,
        j,
        n,
        "<cpu_responsive_time>",
        "</cpu_responsive_time>",
        "<cpu_responsive_time/>",
    ) {
        Some((v, k)) => {
            acc.cpu_responsive_time = Some(v);
            return Some((acc, k));
        },
        None => {},
    }
    None
}

/// Reads the fields of one `Service` element up to its close tag.
fn parse_fields(s: &str, i: usize, n: usize, acc: ServiceEntry) -> (r: Option<
    (ServiceEntry, usize),
>)
    requires
        n == s@.len(),
        i <= n,
    ensures
        match sp_fields(s@, i as int, acc@) {
            Some(p) => r matches Some(q) && q.0@ == p.0 && q.1 == p.1 && q.1 <= n,
            None => r is None,
        },
    decreases n - i,
{
    let j = skip_ws(s, i, n);
    if has_lit(s, j, n, "</Service>") {
        let m = "</Service>".unicode_len();
        return Some((acc, j + m));
    }
    match parse_entry_field(s, j, n, acc) {
        Some((acc2, k)) => {
            if j < k && k <= n {
                parse_fields(s, k, n, acc2)
            } else {
                None
            }
        },
        None => None,
    }
}

/// Reads one `Service` element.
fn parse_service(s: &str, j: usize, n: usize) -> (r: Option<(ServiceEntry, usize)>)
    requires
        n == s@.len(),
        j <= n,
    ensures
        match sp_service(s@, j as int) {
            Some(p) => r matches Some(q) && q.0@ == p.0 && q.1 == p.1 && q.1 <= n,
            None => r is None,
        },
{
    if has_lit(s, j, n, "<Service/>") {
        let m = "<Service/>".unicode_len();
        return Some((ServiceEntry::default(), j + m));
    }
    if has_lit(s, j, n, "<Service>") {
        let m = "<Service>".unicode_len();
        parse_fields(s, j + m, n, ServiceEntry::default())
    } else {
        None
    }
}

/// Reads the `Service` elements inside the root up to the root's close tag.
fn parse_items(s: &str, i: usize, n: usize, acc: Vec<ServiceEntry>) -> (r: Option<
    (Vec<ServiceEntry>, usize),
>)
    requires
        n == s@.len(),
        i <= n,
    ensures
        match sp_items(s@, i as int, views_of(acc@)) {
            Some(p) => r matches Some(q) && views_of(q.0@) == p.0 && q.1 == p.1 && q.1 <= n,
            None => r is None,
        },
    decreases n - i,
{
    let j = skip_ws(s, i, n);
    if has_lit(s, j, n, "</OrdemTargets>") {
        let m = "</OrdemTargets>".unicode_len();
        return Some((acc, j + m));
    }
    match parse_service(s, j, n) {
        Some((e, k)) => {
            if j < k && k <= n {
                let mut acc2 = acc;
                acc2.push(e);
                proof {
                    assert(views_of(acc2@) =~= views_of(acc@).push(e@));
                }
                parse_items(s, k, n, acc2)
            } else {
                None
            }
        },
        None => None,
    }
}

/// Reads a whole target document. The result is pinned by the grammar: the
/// entries the grammar gives for the input, and an error exactly on the
/// inputs the grammar refuses.
pub fn parse_ordem(xml: &str) -> (r: Result<OrdemTargets, XmlError>)
    ensures
        match sp_document(xml@) {
            Some(views) => r matches Ok(d) && d@ == views,
            None => r is Err,
        },
{
    let n = xml.unicode_len();
    let i = skip_ws(xml, 0, n);
    let b: usize;
    if has_lit(xml, i, n, "<?xml") {
        match find_decl_end(xml, i, n) {
            Some(x) => {
                b = x;
            },
            None => {
                return Err(XmlError {});
            },
        }
    } else {
        b = i;
    }
    let j = skip_ws(xml, b, n);
    if has_lit(xml, j, n, "<OrdemTargets/>") {
        let m = "<OrdemTargets/>".unicode_len();
        let e = skip_ws(xml, j + m, n);
        if e == n {
            let d = OrdemTargets::new();
            proof {
                assert(d@ =~= Seq::<ServiceEntryView>::empty());
            }
            Ok(d)
        } else {
            Err(XmlError {})
        }
    } else if has_lit(xml, j, n, "<OrdemTargets>") {
        let m = "<OrdemTargets>".unicode_len();
        let start: Vec<ServiceEntry> = Vec::new();
        proof {
            assert(views_of(start@) =~= Seq::<ServiceEntryView>::empty());
        }
        match parse_items(xml, j + m, n, start) {
            Some((v, k)) => {
                let e = skip_ws(xml, k, n);
                if e == n {
                    Ok(OrdemTargets { services: v })
                } else {
                    Err(XmlError {})
                }
            },
            None => Err(XmlError {}),
        }
    } else {
        Err(XmlError {})
    }
}

} // verus!
