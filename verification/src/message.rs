//! Events as a tagged union with payloads of differing shapes, and their
//! textual rendering for diagnostic output.

use vstd::prelude::*;
use crate::text::dec_int;
use crate::text::i32_dec;

verus! {

/// An event is exactly one of four variants: no payload, two named signed
/// components, one string, or three positional signed components.
pub enum Message {
    Quit,
    Move { x: i32, y: i32 },
    Write(String),
    ChangeColor(i32, i32, i32),
}

/// The textual rendering of an event: the variant's name followed by its
/// payload, spelled the way the variant was declared.
pub open spec fn spec_render(m: Message) -> Seq<char> {
    match m {
        Message::Quit => "Quit"@,
        Message::Move { x, y } => "Move { x: "@ + dec_int(x as int) + ", y: "@ + dec_int(
            y as int,
        ) + " }"@,
        Message::Write(s) => "Write(\""@ + s@ + "\")"@,
        Message::ChangeColor(r, g, b) => "ChangeColor("@ + dec_int(r as int) + ", "@ + dec_int(
            g as int,
        ) + ", "@ + dec_int(b as int) + ")"@,
    }
}

/// Whether two events carry the same active variant.
pub open spec fn same_variant(m1: Message, m2: Message) -> bool {
    ||| (m1 is Quit && m2 is Quit)
    ||| (m1 is Move && m2 is Move)
    ||| (m1 is Write && m2 is Write)
    ||| (m1 is ChangeColor && m2 is ChangeColor)
}

impl Message {
    /// Exactly one variant is active in every event.
    pub proof fn lemma_one_active_variant(&self)
        ensures
            (if *self is Quit { 1int } else { 0 }) + (if *self is Move { 1int } else { 0 }) + (
            if *self is Write { 1int } else { 0 }) + (if *self is ChangeColor { 1int } else { 0 })
                == 1,
    {
    }

    /// Renders the event as text.
    pub fn render(&self) -> (r: String)
        ensures
            r@ == spec_render(*self),
    {
        match self {
            Message::Quit => String::from_str("Quit"),
            Message::Move { x, y } => {
                let mut r = String::from_str("Move { x: ");
                r.append(i32_dec(*x).as_str());
                r.append(", y: ");
                r.append(i32_dec(*y).as_str());
                r.append(" }");
                proof {
                    assert(r@ =~= spec_render(*self));
                }
                r
            },
            Message::Write(s) => {
                let mut r = String::from_str("Write(\"");
                r.append(s.as_str());
                r.append("\")");
                proof {
                    assert(r@ =~= spec_render(*self));
                }
                r
            },
            Message::ChangeColor(red, green, blue) => {
                let mut r = String::from_str("ChangeColor(");
                r.append(i32_dec(*red).as_str());
                r.append(", ");
                r.append(i32_dec(*green).as_str());
                r.append(", ");
                r.append(i32_dec(*blue).as_str());
                r.append(")");
                proof {
                    assert(r@ =~= spec_render(*self));
                }
                r
            },
        }
    }
}

/// The rendering of a `Write` event contains the written string verbatim,
/// right after the opening of the payload.
pub proof fn lemma_write_render_contains_payload(m: Message)
    ensures
        m matches Message::Write(s) ==> {
            &&& spec_render(m).len() == s@.len() + 9
            &&& spec_render(m).subrange(7, 7 + s@.len() as int) == s@
        },
{
    match m {
        Message::Write(s) => {
            reveal_strlit("Write(\"");
            reveal_strlit("\")");
            assert(spec_render(m).subrange(7, 7 + s@.len() as int) =~= s@);
        },
        _ => {},
    }
}

/// Events of distinct variants render to distinct text: the rendering starts
/// with the variant's name, so inspection of the text tells the variants apart.
pub proof fn lemma_render_distinguishes_variants(m1: Message, m2: Message)
    ensures
        !same_variant(m1, m2) ==> spec_render(m1) != spec_render(m2),
{
    reveal_strlit("Quit");
    reveal_strlit("Move { x: ");
    reveal_strlit("Write(\"");
    reveal_strlit("ChangeColor(");
    assert(m1 is Quit ==> spec_render(m1)[0] == 'Q');
    assert(m1 is Move ==> spec_render(m1)[0] == 'M');
    assert(m1 is Write ==> spec_render(m1)[0] == 'W');
    assert(m1 is ChangeColor ==> spec_render(m1)[0] == 'C');
    assert(m2 is Quit ==> spec_render(m2)[0] == 'Q');
    assert(m2 is Move ==> spec_render(m2)[0] == 'M');
    assert(m2 is Write ==> spec_render(m2)[0] == 'W');
    assert(m2 is ChangeColor ==> spec_render(m2)[0] == 'C');
}

} // verus!
