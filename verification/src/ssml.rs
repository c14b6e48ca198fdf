//! Making a text into an SSML document.
//!
//! The document names the voice, wraps the text in the style to speak it in,
//! where one is asked for, and sets pitch and rate. Whatever the caller
//! supplies is escaped, so that it cannot change the document's structure.

use vstd::prelude::*;
use vstd::string::StringExecFns;
use crate::errors::SsmlError;
use crate::text::{decimal, decimal_string, digit_char, digit_str, push_char};
use crate::types::Role;

verus! {

/// What stands for a character in a document: the five characters that mark
/// up a document are written as entities, every other character as itself.
pub open spec fn escaped_char(c: char) -> Seq<char> {
    if c == '&' {
        "&amp;"@
    } else if c == '<' {
        "&lt;"@
    } else if c == '>' {
        "&gt;"@
    } else if c == '"' {
        "&quot;"@
    } else if c == '\'' {
        "&apos;"@
    } else {
        seq![c]
    }
}

/// A character that marks up a document: it opens or closes a tag, or quotes
/// the value of an attribute.
pub open spec fn is_markup(c: char) -> bool {
    c == '<' || c == '>' || c == '"' || c == '\''
}

/// A text as it stands in a document, with each of its characters escaped.
pub open spec fn escaped(text: Seq<char>) -> Seq<char>
    decreases text.len(),
{
    if text.len() == 0 {
        Seq::empty()
    } else {
        escaped(text.drop_last()) + escaped_char(text.last())
    }
}

/// An escaped text holds no markup, so it cannot end the tag or the value it
/// stands in, nor open another.
pub proof fn lemma_escaped_holds_no_markup(text: Seq<char>)
    ensures
        forall|i: int| 0 <= i < escaped(text).len() ==> !is_markup(#[trigger] escaped(text)[i]),
    decreases text.len(),
{
    if text.len() > 0 {
        lemma_escaped_holds_no_markup(text.drop_last());
        reveal_strlit("&amp;");
        reveal_strlit("&lt;");
        reveal_strlit("&gt;");
        reveal_strlit("&quot;");
        reveal_strlit("&apos;");
        let head = escaped(text.drop_last());
        let tail = escaped_char(text.last());
        assert forall|i: int| 0 <= i < escaped(text).len() implies !is_markup(
            #[trigger] escaped(text)[i],
        ) by {
            if i < head.len() {
                assert(escaped(text)[i] == head[i]);
            } else {
                assert(escaped(text)[i] == tail[i - head.len()]);
            }
        }
    }
}

/// Writes a text as it stands in a document.
pub fn escape_into(text: &str, out: &mut String)
    ensures
        final(out)@ == old(out)@ + escaped(text@),
{
    let ghost start = out@;
    assert(out@ =~= start + escaped(text@.take(0)));
    for c in it: text.chars()
        invariant
            it.seq() == text@,
            out@ == start + escaped(text@.take(it.index() as int)),
    {
        assert(c == it.seq()[it.index() as int]);
        let ghost before = text@.take(it.index() as int);
        let ghost after = text@.take(it.index() + 1);
        assert(after.drop_last() =~= before);
        assert(after.last() == c);
        if c == '&' {
            out.append("&amp;");
        } else if c == '<' {
            out.append("&lt;");
        } else if c == '>' {
            out.append("&gt;");
        } else if c == '"' {
            out.append("&quot;");
        } else if c == '\'' {
            out.append("&apos;");
        } else {
            push_char(out, c);
        }
        assert(out@ =~= start + escaped(after));
    }
    assert(text@.take(text@.len() as int) =~= text@);
}

/// How a text is to be spoken.
#[derive(Debug, Clone)]
pub struct TextOptions {
    /// The name of the voice.
    pub voice: String,
    /// The pitch, as the service takes it.
    pub pitch: Option<String>,
    /// The rate, as the service takes it.
    pub rate: Option<String>,
    /// The style to speak in.
    pub style: Option<String>,
    /// The role that the voice plays.
    pub role: Option<Role>,
    /// How strong the style is, in hundredths: 150 stands for 1.5.
    pub style_degree: Option<u16>,
}

/// Options as mathematical values.
pub struct TextOptionsView {
    pub voice: Seq<char>,
    pub pitch: Option<Seq<char>>,
    pub rate: Option<Seq<char>>,
    pub style: Option<Seq<char>>,
    pub role: Option<Role>,
    pub style_degree: Option<u16>,
}

impl View for TextOptions {
    type V = TextOptionsView;

    open spec fn view(&self) -> TextOptionsView {
        TextOptionsView {
            voice: self.voice@,
            pitch: self.pitch.deep_view(),
            rate: self.rate.deep_view(),
            style: self.style.deep_view(),
            role: self.role,
            style_degree: self.style_degree,
        }
    }
}

/// The least style degree, in hundredths.
pub const MIN_STYLE_DEGREE: u16 = 1;

/// The greatest style degree, in hundredths.
pub const MAX_STYLE_DEGREE: u16 = 200;

/// What is wrong with the options, if anything: a style degree and a role
/// refine a style and cannot stand without one, and a style degree lies
/// between 0.01 and 2.
pub open spec fn options_fault(options: TextOptionsView) -> Option<SsmlError> {
    if options.style is None && options.style_degree is Some {
        Some(SsmlError::StyleDegreeWithoutStyle)
    } else if options.style is None && options.role is Some {
        Some(SsmlError::RoleWithoutStyle)
    } else {
        match options.style_degree {
            Some(degree) => if MIN_STYLE_DEGREE <= degree <= MAX_STYLE_DEGREE {
                None
            } else {
                Some(SsmlError::StyleDegreeOutOfRange { hundredths: degree })
            },
            None => None,
        }
    }
}

/// An attribute as it stands in a tag: a space, the name, and the escaped
/// value between quotes.
pub open spec fn attribute(name: Seq<char>, value: Seq<char>) -> Seq<char> {
    " "@ + name + "=\""@ + escaped(value) + "\""@
}

/// An attribute that is left out where it has no value.
pub open spec fn optional_attribute(name: Seq<char>, value: Option<Seq<char>>) -> Seq<char> {
    match value {
        Some(value) => attribute(name, value),
        None => Seq::empty(),
    }
}

/// A style degree as it is written: the whole part, a dot, and two decimals.
pub open spec fn degree_text(hundredths: u16) -> Seq<char> {
    decimal((hundredths / 100) as nat) + "."@ + seq![
        digit_char((hundredths / 10 % 10) as nat),
        digit_char((hundredths % 10) as nat),
    ]
}

/// The start of every document: the root with its namespaces, and the start
/// of the tag that names the voice.
pub open spec fn document_head() -> Seq<char> {
    "<speak xmlns=\"http://www.w3.org/2001/10/synthesis\" xmlns:mstts=\"http://www.w3.org/2001/mstts\" xmlns:emo=\"http://www.w3.org/2009/10/emotionml\" version=\"1.0\" xml:lang=\"en-US\"><voice"@
}

/// The tag that opens the style, where there is one.
pub open spec fn style_open(options: TextOptionsView) -> Seq<char> {
    match options.style {
        Some(style) => "<mstts:express-as"@ + attribute("style"@, style) + optional_attribute(
            "styledegree"@,
            match options.style_degree {
                Some(degree) => Some(degree_text(degree)),
                None => None,
            },
        ) + optional_attribute(
            "role"@,
            match options.role {
                Some(role) => Some(role.name()),
                None => None,
            },
        ) + ">"@,
        None => Seq::empty(),
    }
}

/// The tag that closes the style, where there is one.
pub open spec fn style_close(options: TextOptionsView) -> Seq<char> {
    match options.style {
        Some(_) => "</mstts:express-as>"@,
        None => Seq::empty(),
    }
}

/// The document for a text and options with which nothing is wrong.
pub open spec fn document(text: Seq<char>, options: TextOptionsView) -> Seq<char> {
    document_head() + attribute("name"@, options.voice) + ">"@ + style_open(options)
        + "<prosody"@ + optional_attribute("pitch"@, options.pitch) + optional_attribute(
        "rate"@,
        options.rate,
    ) + ">"@ + escaped(text) + "</prosody>"@ + style_close(options) + "</voice></speak>"@
}

/// What making a text into a document gives.
pub open spec fn ssml_document(text: Seq<char>, options: TextOptionsView) -> Result<
    Seq<char>,
    SsmlError,
> {
    match options_fault(options) {
        Some(fault) => Err(fault),
        None => Ok(document(text, options)),
    }
}

/// What `interpolate_ssml` returned, as mathematical values.
pub open spec fn document_view(r: Result<String, SsmlError>) -> Result<Seq<char>, SsmlError> {
    match r {
        Ok(document) => Ok(document@),
        Err(e) => Err(e),
    }
}

/// Writes an attribute.
fn write_attribute(name: &str, value: &str, out: &mut String)
    ensures
        final(out)@ == old(out)@ + attribute(name@, value@),
{
    out.append(" ");
    out.append(name);
    out.append("=\"");
    escape_into(value, out);
    out.append("\"");
    assert(out@ =~= old(out)@ + attribute(name@, value@));
}

/// Writes a style degree.
pub fn degree_string(hundredths: u16) -> (r: String)
    ensures
        r@ == degree_text(hundredths),
{
    let mut text = decimal_string(hundredths / 100);
    text.append(".");
    text.append(digit_str(hundredths / 10 % 10));
    text.append(digit_str(hundredths % 10));
    assert(text@ =~= degree_text(hundredths));
    text
}

/// Holds the options to the rules for what goes together.
pub fn check_options(options: &TextOptions) -> (r: Result<(), SsmlError>)
    ensures
        match r {
            Ok(_) => options_fault(options@) is None,
            Err(e) => options_fault(options@) == Some(e),
        },
{
    if options.style.is_none() && options.style_degree.is_some() {
        return Err(SsmlError::StyleDegreeWithoutStyle);
    }
    if options.style.is_none() && options.role.is_some() {
        return Err(SsmlError::RoleWithoutStyle);
    }
    match options.style_degree {
        Some(degree) => {
            if degree < MIN_STYLE_DEGREE || degree > MAX_STYLE_DEGREE {
                return Err(SsmlError::StyleDegreeOutOfRange { hundredths: degree });
            }
        },
        None => {},
    }
    Ok(())
}

/// Makes a text into an SSML document that asks for it to be spoken as the
/// options say.
pub fn interpolate_ssml(text: &str, options: &TextOptions) -> (r: Result<String, SsmlError>)
    ensures
        document_view(r) == ssml_document(text@, options@),
{
    match check_options(options) {
        Ok(_) => {},
        Err(e) => {
            return Err(e);
        },
    }
    let mut out = String::from_str(
        "<speak xmlns=\"http://www.w3.org/2001/10/synthesis\" xmlns:mstts=\"http://www.w3.org/2001/mstts\" xmlns:emo=\"http://www.w3.org/2009/10/emotionml\" version=\"1.0\" xml:lang=\"en-US\"><voice",
    );
    write_attribute("name", options.voice.as_str(), &mut out);
    out.append(">");
    let ghost opened = out@;
    match &options.style {
        Some(style) => {
            out.append("<mstts:express-as");
            write_attribute("style", style.as_str(), &mut out);
            match options.style_degree {
                Some(degree) => {
                    write_attribute("styledegree", degree_string(degree).as_str(), &mut out);
                },
                None => {},
            }
            match &options.role {
                Some(role) => {
                    write_attribute("role", role.as_str(), &mut out);
                },
                None => {},
            }
            out.append(">");
        },
        None => {},
    }
    assert(out@ =~= opened + style_open(options@));
    out.append("<prosody");
    match &options.pitch {
        Some(pitch) => {
            write_attribute("pitch", pitch.as_str(), &mut out);
        },
        None => {},
    }
    let ghost pitched = out@;
    assert(pitched =~= opened + style_open(options@) + "<prosody"@ + optional_attribute(
        "pitch"@,
        options@.pitch,
    ));
    match &options.rate {
        Some(rate) => {
            write_attribute("rate", rate.as_str(), &mut out);
        },
        None => {},
    }
    assert(out@ =~= pitched + optional_attribute("rate"@, options@.rate));
    out.append(">");
    escape_into(text, &mut out);
    out.append("</prosody>");
    match &options.style {
        Some(_) => {
            out.append("</mstts:express-as>");
        },
        None => {},
    }
    out.append("</voice></speak>");
    assert(out@ =~= document(text@, options@));
    Ok(out)
}

} // verus!
