//! A comma-separated, order-preserving list of grammar entities, duplicates
//! permitted. Empty input is the empty list; empty elements are rejected
//! because no entity accepts an empty text.
use crate::grammar::{Atom, Grammar};
use crate::text::{from_chars, lemma_join_push, lemma_join_of_split, lemma_split_len, lemma_split_no_sep, lemma_split_of_join, push_range, spec_join, spec_split, split_all, to_chars};
use crate::ParseError;
use vstd::prelude::*;

verus! {

/// An ordered list of values of one grammar entity, written on the wire as
/// their texts joined with commas.
#[derive(PartialEq, Eq, Debug, Clone)]
pub struct KeywordList<T: Atom> {
    items: Vec<T>,
}

impl<T: Atom> View for KeywordList<T> {
    type V = Seq<T::V>;

    closed spec fn view(&self) -> Seq<T::V> {
        self.items@.map_values(|t: T| t@)
    }
}

/// The texts of the list's elements.
pub open spec fn klist_texts<T: Atom>(ms: Seq<T::V>) -> Seq<Seq<char>> {
    ms.map_values(|m: T::V| T::text_of(m))
}

impl<T: Atom> Grammar for KeywordList<T> {
    /// The empty text, or comma-separated pieces each accepted by `T`.
    open spec fn accepts(s: Seq<char>) -> bool {
        s.len() == 0 || forall|i: int|
            0 <= i < spec_split(s, ',').len() ==> T::accepts(#[trigger] spec_split(s, ',')[i])
    }

    open spec fn value_of(s: Seq<char>) -> Seq<T::V> {
        if s.len() == 0 {
            Seq::empty()
        } else {
            spec_split(s, ',').map_values(|p: Seq<char>| T::value_of(p))
        }
    }

    /// Every element well-formed, and no element's text holding a comma.
    open spec fn model_wf(ms: Seq<T::V>) -> bool {
        forall|i: int|
            0 <= i < ms.len() ==> T::model_wf(#[trigger] ms[i]) && !crate::text::seq_contains(
                T::text_of(ms[i]),
                ',',
            ) && T::text_of(ms[i]).len() >= 1
    }

    open spec fn text_of(ms: Seq<T::V>) -> Seq<char> {
        spec_join(klist_texts::<T>(ms), ',')
    }

    proof fn lemma_value_wf(s: Seq<char>) {
        if s.len() == 0 {
            assert(klist_texts::<T>(Seq::empty()) =~= Seq::<Seq<char>>::empty());
        } else {
            let ps = spec_split(s, ',');
            let ms = Self::value_of(s);
            lemma_split_no_sep(s, ',');
            assert forall|i: int| 0 <= i < ms.len() implies T::model_wf(#[trigger] ms[i])
                && !crate::text::seq_contains(T::text_of(ms[i]), ',') && T::text_of(ms[i]).len()
                >= 1 by {
                T::lemma_value_wf(ps[i]);
                assert(ms[i] == T::value_of(ps[i]));
                assert(T::text_of(ms[i]) == ps[i]);
                if crate::text::seq_contains(ps[i], ',') {
                    let k = choose|k: int| 0 <= k < ps[i].len() && ps[i][k] == ',';
                    assert(ps[i][k] != ',');
                }
                T::lemma_nonempty(ps[i]);
            }
            assert(klist_texts::<T>(ms) =~= ps) by {
                assert forall|i: int| 0 <= i < ms.len() implies klist_texts::<T>(ms)[i]
                    == ps[i] by {
                    T::lemma_value_wf(ps[i]);
                }
            }
            lemma_join_of_split(s, ',');
        }
    }

    proof fn lemma_canonical(ms: Seq<T::V>) {
        let ts = klist_texts::<T>(ms);
        if ms.len() == 0 {
            assert(ts =~= Seq::<Seq<char>>::empty());
            assert(Self::value_of(Self::text_of(ms)) =~= ms);
        } else {
            assert forall|i: int, k: int|
                0 <= i < ts.len() && 0 <= k < ts[i].len() implies #[trigger] ts[i][k] != ',' by {
                assert(ts[i] == T::text_of(ms[i]));
                if ts[i][k] == ',' {
                    assert(crate::text::seq_contains(T::text_of(ms[i]), ','));
                }
            }
            lemma_split_of_join(ts, ',');
            let t = Self::text_of(ms);
            assert(t.len() >= 1) by {
                assert(ts[0].len() >= 1);
                lemma_join_first::<T>(ms);
            }
            assert forall|i: int| 0 <= i < spec_split(t, ',').len() implies T::accepts(
                #[trigger] spec_split(t, ',')[i],
            ) by {
                assert(spec_split(t, ',')[i] == ts[i]);
                T::lemma_canonical(ms[i]);
            }
            assert(Self::value_of(t) =~= ms) by {
                assert forall|i: int| 0 <= i < ms.len() implies Self::value_of(t)[i] == ms[i] by {
                    assert(spec_split(t, ',')[i] == ts[i]);
                    T::lemma_canonical(ms[i]);
                }
            }
        }
    }

    fn parse_chars(v: &Vec<char>) -> (r: Result<Self, ParseError>) {
        if v.len() == 0 {
            let items: Vec<T> = Vec::new();
            let list = KeywordList { items };
            proof {
                assert(list@ =~= KeywordList::<T>::value_of(v@));
            }
            return Ok(list);
        }
        let pieces = split_all(v, ',');
        let mut items: Vec<T> = Vec::new();
        let mut i: usize = 0;
        while i < pieces.len()
            invariant
                i <= pieces@.len(),
                v@.len() > 0,
                pieces@.len() == spec_split(v@, ',').len(),
                forall|j: int| 0 <= j < pieces@.len() ==> pieces@[j]@ == spec_split(v@, ',')[j],
                items@.len() == i,
                forall|j: int| 0 <= j < i ==> T::accepts(#[trigger] spec_split(v@, ',')[j]),
                forall|j: int|
                    0 <= j < i ==> #[trigger] items@[j]@ == T::value_of(spec_split(v@, ',')[j]),
            decreases pieces@.len() - i,
        {
            match T::parse_chars(&pieces[i]) {
                Ok(t) => {
                    items.push(t);
                },
                Err(_) => {
                    proof {
                        assert(!T::accepts(spec_split(v@, ',')[i as int]));
                    }
                    return Err(ParseError::new("KeywordList"));
                },
            }
            i = i + 1;
        }
        let list = KeywordList { items };
        proof {
            assert(list@ =~= KeywordList::<T>::value_of(v@));
        }
        Ok(list)
    }

    fn render_chars(&self) -> (r: Vec<char>) {
        let mut r: Vec<char> = Vec::new();
        let ghost ms = self@;
        let mut i: usize = 0;
        proof {
            assert(klist_texts::<T>(ms.take(0)) =~= Seq::<Seq<char>>::empty());
        }
        while i < self.items.len()
            invariant
                i <= self.items@.len(),
                ms == self@,
                KeywordList::<T>::model_wf(ms),
                r@ == spec_join(klist_texts::<T>(ms.take(i as int)), ','),
            decreases self.items@.len() - i,
        {
            proof {
                assert(self.items@[i as int]@ == ms[i as int]);
            }
            let t = self.items[i].render_chars();
            proof {
                lemma_join_push(klist_texts::<T>(ms.take(i as int)), t@, ',');
                assert(klist_texts::<T>(ms.take(i + 1)) =~= klist_texts::<T>(
                    ms.take(i as int),
                ).push(t@));
            }
            if i > 0 {
                r.push(',');
            }
            push_range(&mut r, &t, 0, t.len());
            proof {
                assert(t@.subrange(0, t@.len() as int) =~= t@);
                if i == 0 {
                    assert(klist_texts::<T>(ms.take(0)).len() == 0);
                }
            }
            i = i + 1;
        }
        proof {
            assert(ms.take(ms.len() as int) =~= ms);
        }
        r
    }
}

/// Joining at least one piece starts with the first piece.
proof fn lemma_join_first<T: Atom>(ms: Seq<T::V>)
    requires
        ms.len() >= 1,
    ensures
        spec_join(klist_texts::<T>(ms), ',').len() >= T::text_of(ms[0]).len(),
{
    let ts = klist_texts::<T>(ms);
    if ms.len() == 1 {
        assert(spec_join(ts, ',') == ts[0]);
    } else {
        assert(spec_join(ts, ',') == ts[0] + seq![','] + spec_join(ts.skip(1), ','));
    }
}

impl<T: Atom> KeywordList<T> {
    /// The empty list.
    pub fn new() -> (r: KeywordList<T>)
        ensures
            r@ == Seq::<T::V>::empty(),
    {
        let items: Vec<T> = Vec::new();
        let r = KeywordList { items };
        proof {
            assert(r@ =~= Seq::<T::V>::empty());
        }
        r
    }

    /// Append one element.
    pub fn push(&mut self, element: T)
        ensures
            final(self)@ == old(self)@.push(element@),
    {
        let ghost before = self@;
        self.items.push(element);
        proof {
            assert(self@ =~= before.push(self.items@[self.items@.len() - 1]@));
        }
    }

    /// How many elements the list holds.
    pub fn len(&self) -> (r: usize)
        ensures
            r == self@.len(),
    {
        self.items.len()
    }

    /// A reference to the element at `index`, if it is in range.
    pub fn get(&self, index: usize) -> (r: Option<&T>)
        ensures
            match r {
                Some(t) => index < self@.len() && t@ == self@[index as int],
                None => index >= self@.len(),
            },
    {
        if index < self.items.len() {
            Some(&self.items[index])
        } else {
            None
        }
    }

    /// Parse a comma-separated list.
    pub fn parse(s: &str) -> (r: Result<Self, ParseError>)
        ensures
            r is Ok <==> Self::accepts(s@),
            r matches Ok(t) ==> t@ == Self::value_of(s@),
    {
        let v = to_chars(s);
        Self::parse_chars(&v)
    }

    /// The comma-joined textual form of this list.
    pub fn render(&self) -> (r: String)
        requires
            Self::model_wf(self@),
        ensures
            r@ == Self::text_of(self@),
    {
        let v = self.render_chars();
        from_chars(&v)
    }
}

/// A non-empty list's text opens with its first element's first character.
pub proof fn lemma_klist_text_first<T: Atom>(ms: Seq<T::V>)
    requires
        ms.len() >= 1,
        T::text_of(ms[0]).len() >= 1,
    ensures
        KeywordList::<T>::text_of(ms).len() >= 1,
        KeywordList::<T>::text_of(ms)[0] == T::text_of(ms[0])[0],
{
    let ts = klist_texts::<T>(ms);
    if ms.len() == 1 {
        assert(spec_join(ts, ',') == ts[0]);
    } else {
        assert(spec_join(ts, ',') == ts[0] + seq![','] + spec_join(ts.skip(1), ','));
        assert(spec_join(ts, ',')[0] == ts[0][0]);
    }
}

} // verus!
