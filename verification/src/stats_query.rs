//! The single-letter query of the STATS command.
use crate::grammar::Grammar;
use crate::text::from_chars;
use crate::text::to_chars;
use crate::ParseError;
use crate::server::{alnum_char, is_alnum_char};
use vstd::prelude::*;

verus! {

/// A STATS query: the four letters the RFC names, or any other ASCII
/// alphanumeric carried through unchanged.
#[derive(PartialEq, Eq, Structural, Debug, Clone, Copy)]
pub enum StatsQuery {
    List,
    UsageCount,
    Ops,
    Uptime,
    Unknown(char),
}

impl View for StatsQuery {
    type V = StatsQuery;

    open spec fn view(&self) -> StatsQuery {
        *self
    }
}

/// The letter a query renders as.
pub open spec fn stats_query_char(m: StatsQuery) -> char {
    match m {
        StatsQuery::List => 'l',
        StatsQuery::UsageCount => 'm',
        StatsQuery::Ops => 'o',
        StatsQuery::Uptime => 'u',
        StatsQuery::Unknown(c) => c,
    }
}

/// The query a single letter denotes.
pub open spec fn stats_query_of(c: char) -> StatsQuery {
    if c == 'l' {
        StatsQuery::List
    } else if c == 'm' {
        StatsQuery::UsageCount
    } else if c == 'o' {
        StatsQuery::Ops
    } else if c == 'u' {
        StatsQuery::Uptime
    } else {
        StatsQuery::Unknown(c)
    }
}

impl Grammar for StatsQuery {
    open spec fn accepts(s: Seq<char>) -> bool {
        s.len() == 1 && (s[0] == 'l' || s[0] == 'm' || s[0] == 'o' || s[0] == 'u' || alnum_char(
            s[0],
        ))
    }

    open spec fn value_of(s: Seq<char>) -> StatsQuery {
        stats_query_of(s[0])
    }

    open spec fn model_wf(m: StatsQuery) -> bool {
        match m {
            StatsQuery::Unknown(c) => alnum_char(c) && c != 'l' && c != 'm' && c != 'o' && c
                != 'u',
            _ => true,
        }
    }

    open spec fn text_of(m: StatsQuery) -> Seq<char> {
        seq![stats_query_char(m)]
    }

    proof fn lemma_value_wf(s: Seq<char>) {
        assert(seq![s[0]] =~= s);
    }

    proof fn lemma_canonical(m: StatsQuery) {
    }

    fn parse_chars(v: &Vec<char>) -> (r: Result<Self, ParseError>) {
        if v.len() != 1 {
            return Err(ParseError::new("StatsQuery"));
        }
        let c = v[0];
        if c == 'l' {
            Ok(StatsQuery::List)
        } else if c == 'm' {
            Ok(StatsQuery::UsageCount)
        } else if c == 'o' {
            Ok(StatsQuery::Ops)
        } else if c == 'u' {
            Ok(StatsQuery::Uptime)
        } else if is_alnum_char(c) {
            Ok(StatsQuery::Unknown(c))
        } else {
            Err(ParseError::new("StatsQuery"))
        }
    }

    fn render_chars(&self) -> (r: Vec<char>) {
        let c = match self {
            StatsQuery::List => 'l',
            StatsQuery::UsageCount => 'm',
            StatsQuery::Ops => 'o',
            StatsQuery::Uptime => 'u',
            StatsQuery::Unknown(c) => *c,
        };
        let mut r: Vec<char> = Vec::new();
        r.push(c);
        proof {
            assert(r@ =~= seq![stats_query_char(self@)]);
        }
        r
    }
}

impl StatsQuery {
    /// Parse a STATS query letter.
    pub fn parse(s: &str) -> (r: Result<Self, ParseError>)
        ensures
            r is Ok <==> Self::accepts(s@),
            r matches Ok(t) ==> t == stats_query_of(s@[0]),
    {
        let v = to_chars(s);
        Self::parse_chars(&v)
    }

    /// The single-letter textual form of this query.
    pub fn render(&self) -> (r: String)
        requires
            Self::model_wf(*self),
        ensures
            r@ == Self::text_of(*self),
    {
        let v = self.render_chars();
        from_chars(&v)
    }
}

} // verus!
