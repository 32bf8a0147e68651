use vstd::prelude::*;
use vstd::string::*;

verus! {

/// An ASCII letter or digit.
pub open spec fn is_alnum(c: char) -> bool {
    ('a' <= c && c <= 'z') || ('A' <= c && c <= 'Z') || ('0' <= c && c <= '9')
}

/// An ASCII capital letter.
pub open spec fn is_upper(c: char) -> bool {
    'A' <= c && c <= 'Z'
}

/// The ASCII lower case of `c`: capitals move to lower case, every other
/// character stays.
pub open spec fn lower_char(c: char) -> char {
    if is_upper(c) {
        ((c as u8) + 32) as u8 as char
    } else {
        c
    }
}

/// The letters and digits of `s`, in order, lower-cased.
pub open spec fn slug_of(s: Seq<char>) -> Seq<char>
    decreases s.len(),
{
    if s.len() == 0 {
        Seq::empty()
    } else if is_alnum(s.last()) {
        slug_of(s.drop_last()).push(lower_char(s.last()))
    } else {
        slug_of(s.drop_last())
    }
}

fn ascii_lower(c: char) -> (r: char)
    ensures
        r == lower_char(c),
{
    if 'A' <= c && c <= 'Z' {
        ((c as u8) + 32) as char
    } else {
        c
    }
}

/// Relies on String's FromIterator over chars: the characters in order.
#[verifier::external_body]
pub(crate) fn string_of(v: &Vec<char>) -> (r: String)
    ensures
        r@ == v@,
{
    v.iter().collect()
}

/// Keeps the ASCII letters and digits of `s`, lower-cased.
pub fn slug(s: &str) -> (r: String)
    ensures
        r@ == slug_of(s@),
{
    let n = s.unicode_len();
    let mut out: Vec<char> = Vec::new();
    let mut i: usize = 0;
    while i < n
        invariant
            n == s@.len(),
            i <= n,
            out@ == slug_of(s@.subrange(0, i as int)),
        decreases n - i,
    {
        let c = s.get_char(i);
        proof {
            assert(s@.subrange(0, i + 1).drop_last() == s@.subrange(0, i as int));
        }
        let keep = ('a' <= c && c <= 'z') || ('A' <= c && c <= 'Z') || ('0' <= c && c <= '9');
        if keep {
            let l = ascii_lower(c);
            out.push(l);
            assert(out@ =~= slug_of(s@.subrange(0, i + 1)));
        }
        i = i + 1;
    }
    assert(s@.subrange(0, n as int) == s@);
    string_of(&out)
}

/// A submitted run still pending, as its metadata describes it.
#[derive(Debug)]
pub struct Run {
    pub run_id: String,
    pub vod_uri: String,
    pub player: String,
    pub game: String,
    pub game_name: String,
    pub cat_full: String,
    pub cat: String,
    pub time: String,
}

/// `a`, `b`, `c` and `d` joined by dashes.
pub open spec fn dashed(a: Seq<char>, b: Seq<char>, c: Seq<char>, d: Seq<char>) -> Seq<char> {
    a + seq!['-'] + b + seq!['-'] + c + seq!['-'] + d
}

/// The colored one-line description of a run: game, category, time and
/// player.
pub open spec fn description(game_name: Seq<char>, cat_full: Seq<char>, time: Seq<char>, player: Seq<char>) -> Seq<char> {
    seq!['\x1b', '[', '3', '3', 'm'] + game_name + seq![' ', '\x1b', '[', '0', 'm', '-', ' ', '\x1b', '[', '3', '4', 'm']
        + cat_full + seq!['\x1b', '[', '0', 'm', ' ', 'i', 'n', ' ', '\x1b', '[', '3', '2', 'm'] + time
        + seq!['\x1b', '[', '0', 'm', ' ', 'b', 'y', ' ', '\x1b', '[', '3', '2', 'm'] + player
        + seq!['\x1b', '[', '0', 'm']
}

impl Run {
    /// The line that offers the run for choice.
    pub fn describe(&self) -> (r: String)
        ensures
            r@ == description(self.game_name@, self.cat_full@, self.time@, self.player@),
    {
        let mut r = String::from_str("\x1b[33m");
        r.append(self.game_name.as_str());
        r.append(" \x1b[0m- \x1b[34m");
        r.append(self.cat_full.as_str());
        r.append("\x1b[0m in \x1b[32m");
        r.append(self.time.as_str());
        r.append("\x1b[0m by \x1b[32m");
        r.append(self.player.as_str());
        r.append("\x1b[0m");
        proof {
            reveal_strlit("\x1b[33m");
            reveal_strlit(" \x1b[0m- \x1b[34m");
            reveal_strlit("\x1b[0m in \x1b[32m");
            reveal_strlit("\x1b[0m by \x1b[32m");
            reveal_strlit("\x1b[0m");
        }
        assert(r@ =~= description(self.game_name@, self.cat_full@, self.time@, self.player@));
        r
    }

    /// The file stem of the run: player, game, category and id, joined by dashes.
    pub fn filename(&self) -> (r: String)
        ensures
            r@ == dashed(self.player@, self.game@, self.cat@, self.run_id@),
    {
        let mut r = self.player.clone();
        r.append("-");
        r.append(self.game.as_str());
        r.append("-");
        r.append(self.cat.as_str());
        r.append("-");
        r.append(self.run_id.as_str());
        proof {
            reveal_strlit("-");
        }
        assert(r@ =~= dashed(self.player@, self.game@, self.cat@, self.run_id@));
        r
    }
}

} // verus!
