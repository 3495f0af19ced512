//! Text inside of HTML.
use maud::Render;
use vstd::prelude::*;

verus! {

/// How a character stands in HTML text and attribute values.
pub open spec fn escaped_char(c: char) -> Seq<char> {
    if c == '&' {
        "&amp;"@
    } else if c == '<' {
        "&lt;"@
    } else if c == '>' {
        "&gt;"@
    } else if c == '"' {
        "&quot;"@
    } else {
        seq![c]
    }
}

/// How a text stands in HTML text and attribute values.
pub open spec fn escaped(chars: Seq<char>) -> Seq<char>
    decreases chars.len(),
{
    if chars.len() == 0 {
        Seq::empty()
    } else {
        escaped(chars.drop_last()) + escaped_char(chars.last())
    }
}

/// `maud::Render::render` of a text: the four characters that HTML gives a
/// meaning are replaced by their entities, and nothing else is changed.
#[verifier::external_body]
pub(crate) fn escape(value: &str) -> (r: String)
    ensures
        r@ == escaped(value@),
{
    value.render().into_string()
}

/// A character that could end a text or an attribute value.
pub open spec fn breaks_out(c: char) -> bool {
    c == '<' || c == '>' || c == '"'
}

/// An escaped text neither ends the attribute value that it stands in nor opens
/// or closes a tag.
pub proof fn escaped_text_stays_inside(chars: Seq<char>)
    ensures
        forall|i: int| 0 <= i < escaped(chars).len() ==> !breaks_out(#[trigger] escaped(chars)[i]),
    decreases chars.len(),
{
    if chars.len() > 0 {
        let front = escaped(chars.drop_last());
        let back = escaped_char(chars.last());
        escaped_text_stays_inside(chars.drop_last());
        reveal_strlit("&amp;");
        reveal_strlit("&lt;");
        reveal_strlit("&gt;");
        reveal_strlit("&quot;");
        assert forall|i: int| 0 <= i < back.len() implies !breaks_out(#[trigger] back[i]) by {}
        assert forall|i: int| 0 <= i < escaped(chars).len() implies !breaks_out(
            #[trigger] escaped(chars)[i],
        ) by {
            if i < front.len() {
                assert(escaped(chars)[i] == front[i]);
            } else {
                assert(escaped(chars)[i] == back[i - front.len()]);
            }
        }
    }
}

} // verus!
