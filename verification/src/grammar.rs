//! The shape every grammar entity shares: a parser that accepts exactly one
//! set of texts, and a renderer that maps every well-formed value back onto
//! the unique text it came from.
use crate::ParseError;
use vstd::prelude::*;

verus! {

/// A validated domain value with a textual wire form.
///
/// Each entity is abstracted by its view (`Self::V`): contracts never speak
/// of the concrete representation. `accepts` names the texts the parser
/// takes; `value_of` the abstract value such a text denotes; `model_wf` the
/// abstract values that construction can produce; `text_of` the canonical
/// rendering. The two lemmas tie them together: parsing and rendering are
/// mutually inverse bijections between accepted texts and well-formed
/// values. They are the round-trip laws of this crate, proved once per
/// entity:
///
/// - every accepted text denotes a well-formed value that renders back to
///   that very text (so re-parsing a rendering returns the same value), and
/// - every well-formed value renders to an accepted text (so rendering never
///   produces a text the parser would refuse, and the renderable texts are
///   exactly the parseable ones).
pub trait Grammar: View + Sized {
    /// Which texts this entity's parser accepts.
    spec fn accepts(s: Seq<char>) -> bool;

    /// The abstract value an accepted text denotes.
    spec fn value_of(s: Seq<char>) -> Self::V;

    /// The abstract values that parsing can produce.
    spec fn model_wf(m: Self::V) -> bool;

    /// The canonical text of a well-formed abstract value.
    spec fn text_of(m: Self::V) -> Seq<char>;

    /// Every accepted text denotes a well-formed value whose canonical text
    /// is that text itself: the renderable texts include every parseable one.
    proof fn lemma_value_wf(s: Seq<char>)
        requires
            Self::accepts(s),
        ensures
            Self::model_wf(Self::value_of(s)),
            Self::text_of(Self::value_of(s)) == s,
    ;

    /// Every well-formed value renders to an accepted text that parses back
    /// to the same value: parse after render is the identity, and nothing
    /// renderable is rejected by the parser.
    proof fn lemma_canonical(m: Self::V)
        requires
            Self::model_wf(m),
        ensures
            Self::accepts(Self::text_of(m)),
            Self::value_of(Self::text_of(m)) == m,
    ;

    /// Parse a character vector.
    fn parse_chars(v: &Vec<char>) -> (r: Result<Self, ParseError>)
        ensures
            r is Ok <==> Self::accepts(v@),
            r matches Ok(t) ==> t@ == Self::value_of(v@),
    ;

    /// Render into a fresh character vector.
    fn render_chars(&self) -> (r: Vec<char>)
        requires
            Self::model_wf(self@),
        ensures
            r@ == Self::text_of(self@),
    ;
}

/// A grammar entity that never accepts the empty text. Lists of entities
/// joined by separators rely on this: an empty piece can then never stand
/// for an element.
pub trait Atom: Grammar {
    /// No accepted text is empty.
    proof fn lemma_nonempty(s: Seq<char>)
        requires
            Self::accepts(s),
        ensures
            s.len() >= 1,
    ;
}

} // verus!
