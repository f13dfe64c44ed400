//! The set of users that may use the bot, and the settings read at start.
use vstd::prelude::*;
use crate::decimal::{parse_i64_in, parse_i64_spec};

verus! {

/// The pieces of `s` between commas, as `str::split(',')` yields them: one
/// more piece than there are commas, empty pieces kept.
pub open spec fn split_commas(s: Seq<char>) -> Seq<Seq<char>>
    decreases s.len(),
{
    if s.len() == 0 {
        seq![Seq::empty()]
    } else {
        let rest = split_commas(s.drop_last());
        if s.last() == ',' {
            rest.push(Seq::empty())
        } else {
            rest.update(rest.len() - 1, rest.last().push(s.last()))
        }
    }
}

/// The identifiers that a comma-separated list writes, in order, where every
/// piece of it is an `i64`.
pub open spec fn parse_allowed_users_spec(s: Seq<char>) -> Option<Seq<i64>> {
    let pieces = split_commas(s);
    if forall|k: int| 0 <= k < pieces.len() ==> (#[trigger] parse_i64_spec(pieces[k])) is Some {
        Some(pieces.map_values(|p: Seq<char>| parse_i64_spec(p)->0))
    } else {
        None
    }
}

proof fn lemma_split_commas_nonempty(s: Seq<char>)
    ensures
        split_commas(s).len() >= 1,
    decreases s.len(),
{
    if s.len() > 0 {
        lemma_split_commas_nonempty(s.drop_last());
    }
}

/// After a comma at `i`, the pieces before it stay as they are.
proof fn lemma_pieces_kept(s: Seq<char>, i: int, j: int)
    requires
        0 <= i < j <= s.len(),
        s[i] == ',',
    ensures
        split_commas(s.subrange(0, j)).len() > split_commas(s.subrange(0, i)).len(),
        forall|k: int|
            0 <= k < split_commas(s.subrange(0, i)).len() ==> #[trigger] split_commas(
                s.subrange(0, j),
            )[k] == split_commas(s.subrange(0, i))[k],
    decreases j - i,
{
    assert(s.subrange(0, j).drop_last() =~= s.subrange(0, j - 1));
    if j > i + 1 {
        lemma_pieces_kept(s, i, j - 1);
    }
}

/// Why the settings could not be read.
#[derive(Debug, PartialEq, Eq, Structural)]
pub enum ConfigError {
    /// A piece of the allowed users list is not an `i64`.
    InvalidAllowedUser,
}

/// The identifiers of the users that may use the bot.
pub struct AllowList {
    ids: Vec<i64>,
}

impl View for AllowList {
    type V = Seq<i64>;

    closed spec fn view(&self) -> Seq<i64> {
        self.ids@
    }
}

impl AllowList {
    /// Reads a comma-separated list of identifiers, such as `"17,-4,230"`.
    /// Every piece must be an `i64` with no blanks around it; an empty list
    /// is an error too, as its one piece is empty.
    pub fn parse(s: &str) -> (r: Result<AllowList, ConfigError>)
        ensures
            r is Ok <==> parse_allowed_users_spec(s@) is Some,
            r matches Ok(list) ==> parse_allowed_users_spec(s@) == Some(list@),
    {
        let n = s.unicode_len();
        let mut ids: Vec<i64> = Vec::new();
        let mut start: usize = 0;
        let mut i: usize = 0;
        while i < n
            invariant
                n == s@.len(),
                start <= i <= n,
                ({
                    let pieces = split_commas(s@.subrange(0, i as int));
                    &&& pieces.len() == ids@.len() + 1
                    &&& pieces.last() == s@.subrange(start as int, i as int)
                    &&& forall|k: int|
                        0 <= k < ids@.len() ==> parse_i64_spec(#[trigger] pieces[k]) == Some(
                            ids@[k],
                        )
                }),
            decreases n - i,
        {
            let c = s.get_char(i);
            let ghost before = split_commas(s@.subrange(0, i as int));
            assert(s@.subrange(0, i + 1).drop_last() =~= s@.subrange(0, i as int));
            if c == ',' {
                let v = parse_i64_in(s, start, i);
                match v {
                    Some(id) => {
                        ids.push(id);
                    },
                    None => {
                        proof {
                            let k = before.len() - 1;
                            lemma_pieces_kept(s@, i as int, n as int);
                            assert(s@.subrange(0, n as int) =~= s@);
                            assert(parse_i64_spec(split_commas(s@)[k]) is None);
                        }
                        return Err(ConfigError::InvalidAllowedUser);
                    },
                }
                start = i + 1;
                assert(split_commas(s@.subrange(0, i + 1)).last() =~= s@.subrange(
                    start as int,
                    i + 1,
                ));
            } else {
                proof {
                    lemma_split_commas_nonempty(s@.subrange(0, i as int));
                }
                assert(split_commas(s@.subrange(0, i + 1)).last() =~= s@.subrange(
                    start as int,
                    i + 1,
                ));
            }
            i = i + 1;
        }
        assert(s@.subrange(0, n as int) =~= s@);
        let v = parse_i64_in(s, start, n);
        match v {
            Some(id) => {
                ids.push(id);
            },
            None => {
                return Err(ConfigError::InvalidAllowedUser);
            },
        }
        let ghost pieces = split_commas(s@);
        assert(ids@ =~= pieces.map_values(|p: Seq<char>| parse_i64_spec(p)->0));
        Ok(AllowList { ids })
    }

    /// Whether `id` is one of the allowed users.
    pub fn is_allowed(&self, id: i64) -> (r: bool)
        ensures
            r == self@.contains(id),
    {
        let mut i: usize = 0;
        while i < self.ids.len()
            invariant
                i <= self.ids@.len(),
                forall|k: int| 0 <= k < i ==> self.ids@[k] != id,
            decreases self.ids.len() - i,
        {
            if self.ids[i] == id {
                return true;
            }
            i = i + 1;
        }
        false
    }
}

} // verus!
