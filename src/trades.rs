use vstd::prelude::*;
use crate::numbers::{parse_i32, parse_i32_spec, parse_u32, parse_u32_spec};
use crate::requests::GetTradesRequest;

verus! {

/// The year a trade listing falls back to when the path names none.
pub const DEFAULT_YEAR: i32 = 2023;

/// The month and day a trade listing falls back to when the path names none.
pub const DEFAULT_MONTH: u32 = 1;

pub const DEFAULT_DAY: u32 = 1;

/// The pieces of `s` between its `/` separators, in order: always at least
/// one, empty pieces included.
pub open spec fn split_slash(s: Seq<char>) -> Seq<Seq<char>>
    decreases s.len(),
{
    if s.len() == 0 {
        seq![Seq::empty()]
    } else {
        let rest = split_slash(s.drop_last());
        if s.last() == '/' {
            rest.push(Seq::empty())
        } else {
            rest.update(rest.len() - 1, rest.last().push(s.last()))
        }
    }
}

proof fn lemma_split_slash_nonempty(s: Seq<char>)
    ensures
        split_slash(s).len() >= 1,
    decreases s.len(),
{
    if s.len() > 0 {
        lemma_split_slash_nonempty(s.drop_last());
    }
}

/// Splits `s` at each `/`.
pub fn split_path(s: &str) -> (r: Vec<String>)
    ensures
        r.deep_view() == split_slash(s@),
{
    let n = s.unicode_len();
    let mut segs: Vec<String> = Vec::new();
    let mut start: usize = 0;
    let mut i: usize = 0;
    assert(s@.subrange(0, 0) =~= Seq::<char>::empty());
    assert(split_slash(s@.subrange(0, 0)) =~= segs.deep_view().push(s@.subrange(0, 0)));
    while i < n
        invariant
            n == s@.len(),
            start <= i <= n,
            split_slash(s@.subrange(0, i as int)) == segs.deep_view().push(
                s@.subrange(start as int, i as int),
            ),
        decreases n - i,
    {
        let c = s.get_char(i);
        let ghost prefix = s@.subrange(0, i + 1);
        assert(prefix.drop_last() =~= s@.subrange(0, i as int));
        assert(prefix.last() == c);
        if c == '/' {
            segs.push(String::from_str(s.substring_char(start, i)));
            start = i + 1;
            assert(s@.subrange(start as int, i + 1) =~= Seq::<char>::empty());
        } else {
            assert(s@.subrange(start as int, i + 1) =~= s@.subrange(start as int, i as int).push(c));
        }
        i = i + 1;
        assert(split_slash(s@.subrange(0, i as int)) =~= segs.deep_view().push(
            s@.subrange(start as int, i as int),
        ));
    }
    segs.push(String::from_str(s.substring_char(start, n)));
    assert(s@.subrange(0, n as int) =~= s@);
    segs
}

/// What a trade listing asks for: a view and a date.
pub struct TradesQuery {
    pub view: String,
    pub year: i32,
    pub month: u32,
    pub day: u32,
}

/// Piece `k` read as a `u32`, or the default where there is no such piece.
pub open spec fn u32_piece(pieces: Seq<Seq<char>>, k: int, default: u32) -> Option<u32> {
    if k < pieces.len() {
        parse_u32_spec(pieces[k])
    } else {
        Some(default)
    }
}

/// The view, year, month and day that a listing path asks for: the pieces
/// `view/year/month/day`, the date pieces optional, later pieces ignored;
/// `None` where a date piece is present but not a number in range.
pub open spec fn trades_query_spec(tail: Seq<char>) -> Option<(Seq<char>, i32, u32, u32)> {
    let p = split_slash(tail);
    let year = if 1 < p.len() {
        parse_i32_spec(p[1])
    } else {
        Some(DEFAULT_YEAR)
    };
    match (year, u32_piece(p, 2, DEFAULT_MONTH), u32_piece(p, 3, DEFAULT_DAY)) {
        (Some(y), Some(m), Some(d)) => Some((p[0], y, m, d)),
        _ => None,
    }
}

/// Reads the view and date of a trade listing from the tail of its path.
pub fn parse_trades_tail(tail: &str) -> (r: Option<TradesQuery>)
    ensures
        match r {
            Some(q) => trades_query_spec(tail@) == Some((q.view@, q.year, q.month, q.day)),
            None => trades_query_spec(tail@) is None,
        },
{
    let pieces = split_path(tail);
    let ghost p = pieces.deep_view();
    proof {
        lemma_split_slash_nonempty(tail@);
    }
    assert(p.len() == pieces.len());
    let year = if 1 < pieces.len() {
        assert(p[1] == pieces[1]@);
        parse_i32(pieces[1].as_str())
    } else {
        Some(DEFAULT_YEAR)
    };
    let month = if 2 < pieces.len() {
        assert(p[2] == pieces[2]@);
        parse_u32(pieces[2].as_str())
    } else {
        Some(DEFAULT_MONTH)
    };
    let day = if 3 < pieces.len() {
        assert(p[3] == pieces[3]@);
        parse_u32(pieces[3].as_str())
    } else {
        Some(DEFAULT_DAY)
    };
    assert(p[0] == pieces[0]@);
    match (year, month, day) {
        (Some(y), Some(m), Some(d)) => Some(
            TradesQuery { view: pieces[0].clone(), year: y, month: m, day: d },
        ),
        _ => None,
    }
}

impl GetTradesRequest {
    /// The listing this request asks for; `None` where it carries no path tail
    /// or its date pieces are not numbers in range.
    pub fn query(&self) -> (r: Option<TradesQuery>)
        ensures
            match self.tail {
                None => r is None,
                Some(t) => match r {
                    Some(q) => trades_query_spec(t@) == Some((q.view@, q.year, q.month, q.day)),
                    None => trades_query_spec(t@) is None,
                },
            },
    {
        match &self.tail {
            None => None,
            Some(t) => parse_trades_tail(t.as_str()),
        }
    }
}

} // verus!
