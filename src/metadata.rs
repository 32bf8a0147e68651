use vstd::prelude::*;
use crate::naming::{slug, slug_of, string_of, Run};

verus! {

#[verifier::external_type_specification]
#[verifier::external_body]
pub struct ExValue(serde_json::Value);

/// Whether `serde_json::from_str` accepts the text as a JSON value.
pub uninterp spec fn is_json(text: Seq<char>) -> bool;

/// The JSON value that `serde_json::from_str` reads from the text.
pub uninterp spec fn json_of(text: Seq<char>) -> serde_json::Value;

/// The member `key` of a JSON value, `Null` where there is none.
pub uninterp spec fn member_of(v: serde_json::Value, key: Seq<char>) -> serde_json::Value;

/// The element `i` of a JSON value, `Null` where there is none.
pub uninterp spec fn element_of(v: serde_json::Value, i: nat) -> serde_json::Value;

/// The text of a JSON value, where it is a string.
pub uninterp spec fn str_of(v: serde_json::Value) -> Option<Seq<char>>;

/// The elements of a JSON value, where it is an array.
pub uninterp spec fn array_of(v: serde_json::Value) -> Option<Seq<serde_json::Value>>;

/// What the duration parser gives for an ISO 8601 duration text: its length
/// in whole seconds, or `None` where the text is not such a duration or
/// has a year or month part.
pub uninterp spec fn iso_seconds(text: Seq<char>) -> Option<u64>;

/// Relies on serde_json::from_str: the text parsed as one JSON value, or
/// `None` where it is not JSON.
#[verifier::external_body]
fn parse_json(text: &str) -> (r: Option<serde_json::Value>)
    ensures
        r is Some <==> is_json(text@),
        r is Some ==> r->Some_0 == json_of(text@),
{
    serde_json::from_str(text).ok()
}

/// Relies on Value's `Index<&str>`: the member, or `Null` where there is none.
#[verifier::external_body]
fn member<'a>(v: &'a serde_json::Value, key: &str) -> (r: &'a serde_json::Value)
    ensures
        *r == member_of(*v, key@),
{
    &v[key]
}

/// Relies on Value's `Index<usize>`: the element, or `Null` where there is none.
#[verifier::external_body]
fn element<'a>(v: &'a serde_json::Value, i: usize) -> (r: &'a serde_json::Value)
    ensures
        *r == element_of(*v, i as nat),
{
    &v[i]
}

/// Relies on Value::as_str: the text of a JSON string.
#[verifier::external_body]
fn text_of<'a>(v: &'a serde_json::Value) -> (r: Option<&'a str>)
    ensures
        r is Some <==> str_of(*v) is Some,
        r is Some ==> r->Some_0@ == str_of(*v)->Some_0,
{
    v.as_str()
}

/// Relies on Value::as_array: the elements of a JSON array.
#[verifier::external_body]
fn elements_of<'a>(v: &'a serde_json::Value) -> (r: Option<&'a Vec<serde_json::Value>>)
    ensures
        r is Some <==> array_of(*v) is Some,
        r is Some ==> r->Some_0@ == array_of(*v)->Some_0,
{
    v.as_array()
}

/// Relies on iso8601_duration's Duration::parse and Duration::num_seconds,
/// and on std's Duration to cut the seconds to whole ones.
#[verifier::external_body]
fn duration_seconds(text: &str) -> (r: Option<u64>)
    ensures
        r == iso_seconds(text@),
{
    let secs = iso8601_duration::Duration::parse(text).ok().and_then(|d| d.num_seconds());
    secs.and_then(|s| std::time::Duration::try_from_secs_f32(s).ok()).map(|d| d.as_secs())
}

/// The decimal digit `d`.
pub open spec fn digit_char(d: nat) -> char {
    if d == 0 { '0' } else if d == 1 { '1' } else if d == 2 { '2' } else if d == 3 { '3' }
    else if d == 4 { '4' } else if d == 5 { '5' } else if d == 6 { '6' } else if d == 7 { '7' }
    else if d == 8 { '8' } else { '9' }
}

/// `n` in decimal, without leading zeros.
pub open spec fn decimal(n: nat) -> Seq<char>
    decreases n,
{
    if n < 10 {
        seq![digit_char(n)]
    } else {
        decimal(n / 10).push(digit_char(n % 10))
    }
}

/// `n` in decimal, with a leading zero below ten.
pub open spec fn two_digits(n: nat) -> Seq<char> {
    if n < 10 {
        seq!['0', digit_char(n)]
    } else {
        decimal(n)
    }
}

/// `secs` as hours, minutes and seconds: `hh:mm:ss`, hours growing past two
/// digits where needed.
pub open spec fn clock_text(secs: nat) -> Seq<char> {
    two_digits(secs / 3600) + seq![':'] + two_digits((secs / 60) % 60) + seq![':'] + two_digits(
        secs % 60,
    )
}

fn digit(d: u64) -> (r: char)
    requires
        d < 10,
    ensures
        r == digit_char(d as nat),
{
    if d == 0 { '0' } else if d == 1 { '1' } else if d == 2 { '2' } else if d == 3 { '3' }
    else if d == 4 { '4' } else if d == 5 { '5' } else if d == 6 { '6' } else if d == 7 { '7' }
    else if d == 8 { '8' } else { '9' }
}

fn push_decimal(n: u64, out: &mut Vec<char>)
    ensures
        final(out)@ == old(out)@ + decimal(n as nat),
    decreases n,
{
    if n >= 10 {
        push_decimal(n / 10, out);
    }
    out.push(digit(n % 10));
    proof {
        if n >= 10 {
            assert(old(out)@ + decimal(n as nat) =~= old(out)@ + decimal((n / 10) as nat) + seq![
                digit_char((n % 10) as nat),
            ]);
        } else {
            assert(old(out)@ + decimal(n as nat) =~= old(out)@.push(digit_char(n as nat)));
        }
    }
}

fn push_two_digits(n: u64, out: &mut Vec<char>)
    ensures
        final(out)@ == old(out)@ + two_digits(n as nat),
{
    if n < 10 {
        out.push('0');
        out.push(digit(n));
        assert(final(out)@ =~= old(out)@ + two_digits(n as nat));
    } else {
        push_decimal(n, out);
    }
}

/// A length of time in seconds, as `hh:mm:ss`.
pub fn clock(secs: u64) -> (r: String)
    ensures
        r@ == clock_text(secs as nat),
{
    let mut out: Vec<char> = Vec::new();
    push_two_digits(secs / 3600, &mut out);
    out.push(':');
    push_two_digits((secs / 60) % 60, &mut out);
    out.push(':');
    push_two_digits(secs % 60, &mut out);
    assert(out@ =~= clock_text(secs as nat));
    string_of(&out)
}

/// Why the metadata of a run could not be read.
#[derive(Clone, Copy, Debug, PartialEq, Eq, Structural)]
pub enum RunError {
    /// The response is not JSON.
    NotJson,
    /// The response has no list of runs.
    NoRunList,
    RunId,
    VodUri,
    Player,
    Game,
    GameName,
    Category,
    /// The run has no time.
    TimeMissing,
    /// The run's time is not a duration in days, hours, minutes and seconds.
    TimeUnparsed,
}

/// Reads one field: the text at `v`, or `err`.
fn text_or(v: &serde_json::Value, err: RunError) -> (r: Result<String, RunError>)
    ensures
        r is Ok <==> str_of(*v) is Some,
        r is Ok ==> r->Ok_0@ == str_of(*v)->Some_0,
        r is Err ==> r->Err_0 == err,
{
    match text_of(v) {
        Some(s) => Ok(s.to_owned()),
        None => Err(err),
    }
}

/// The run's id in its record.
pub open spec fn id_at(v: serde_json::Value) -> Option<Seq<char>> {
    str_of(member_of(v, "id"@))
}

/// The address of the run's first video.
pub open spec fn uri_at(v: serde_json::Value) -> Option<Seq<char>> {
    str_of(member_of(element_of(member_of(member_of(v, "videos"@), "links"@), 0), "uri"@))
}

/// The international name of the run's first player.
pub open spec fn player_at(v: serde_json::Value) -> Option<Seq<char>> {
    str_of(
        member_of(
            member_of(element_of(member_of(member_of(v, "players"@), "data"@), 0), "names"@),
            "international"@,
        ),
    )
}

/// The game's data in a run's record.
pub open spec fn game_data_at(v: serde_json::Value) -> serde_json::Value {
    member_of(member_of(v, "game"@), "data"@)
}

/// The game's abbreviation.
pub open spec fn game_at(v: serde_json::Value) -> Option<Seq<char>> {
    str_of(member_of(game_data_at(v), "abbreviation"@))
}

/// The game's name on the streaming site.
pub open spec fn game_name_at(v: serde_json::Value) -> Option<Seq<char>> {
    str_of(member_of(member_of(game_data_at(v), "names"@), "twitch"@))
}

/// The category's full name.
pub open spec fn category_at(v: serde_json::Value) -> Option<Seq<char>> {
    str_of(member_of(member_of(member_of(v, "category"@), "data"@), "name"@))
}

/// The run's primary time, as an ISO 8601 duration text.
pub open spec fn time_at(v: serde_json::Value) -> Option<Seq<char>> {
    str_of(member_of(member_of(v, "times"@), "primary"@))
}

/// The error of the first field of the record that cannot be read, in the
/// order id, video, player, game, game name, category, time; `None` where
/// every field reads.
pub open spec fn record_error(v: serde_json::Value) -> Option<RunError> {
    if id_at(v) is None {
        Some(RunError::RunId)
    } else if uri_at(v) is None {
        Some(RunError::VodUri)
    } else if player_at(v) is None {
        Some(RunError::Player)
    } else if game_at(v) is None {
        Some(RunError::Game)
    } else if game_name_at(v) is None {
        Some(RunError::GameName)
    } else if category_at(v) is None {
        Some(RunError::Category)
    } else if time_at(v) is None {
        Some(RunError::TimeMissing)
    } else if iso_seconds(time_at(v)->Some_0) is None {
        Some(RunError::TimeUnparsed)
    } else {
        None
    }
}

/// `run` holds what the record `v` gives: each field as looked up, the
/// category's slug, and the time as `hh:mm:ss`.
pub open spec fn reads_as(run: Run, v: serde_json::Value) -> bool {
    &&& run.run_id@ == id_at(v)->Some_0
    &&& run.vod_uri@ == uri_at(v)->Some_0
    &&& run.player@ == player_at(v)->Some_0
    &&& run.game@ == game_at(v)->Some_0
    &&& run.game_name@ == game_name_at(v)->Some_0
    &&& run.cat_full@ == category_at(v)->Some_0
    &&& run.cat@ == slug_of(run.cat_full@)
    &&& run.time@ == clock_text(iso_seconds(time_at(v)->Some_0)->Some_0 as nat)
}

impl Run {
    /// A run from its fields and its time as an ISO 8601 duration: the
    /// category's slug and the time as `hh:mm:ss` are derived. Fails
    /// exactly when the time is not such a duration.
    pub fn from_fields(
        run_id: String,
        vod_uri: String,
        player: String,
        game: String,
        game_name: String,
        cat_full: String,
        time: &str,
    ) -> (r: Result<Run, RunError>)
        ensures
            r is Err <==> iso_seconds(time@) is None,
            r is Err ==> r->Err_0 == RunError::TimeUnparsed,
            r is Ok ==> ({
                let run = r->Ok_0;
                &&& run.run_id == run_id
                &&& run.vod_uri == vod_uri
                &&& run.player == player
                &&& run.game == game
                &&& run.game_name == game_name
                &&& run.cat_full == cat_full
                &&& run.cat@ == slug_of(cat_full@)
                &&& run.time@ == clock_text(iso_seconds(time@)->Some_0 as nat)
            }),
    {
        match duration_seconds(time) {
            None => Err(RunError::TimeUnparsed),
            Some(secs) => {
                let cat = slug(cat_full.as_str());
                let time = clock(secs);
                Ok(Run { run_id, vod_uri, player, game, game_name, cat_full, cat, time })
            },
        }
    }

    /// Reads a run from its JSON record; the first field that cannot be
    /// read gives its own error.
    pub fn try_from(value: &serde_json::Value) -> (r: Result<Run, RunError>)
        ensures
            r is Ok <==> record_error(*value) is None,
            r is Err ==> r->Err_0 == record_error(*value)->Some_0,
            r is Ok ==> reads_as(r->Ok_0, *value),
    {
        let run_id = match text_or(member(value, "id"), RunError::RunId) {
            Ok(s) => s,
            Err(e) => return Err(e),
        };
        let links = member(member(value, "videos"), "links");
        let vod_uri = match text_or(member(element(links, 0), "uri"), RunError::VodUri) {
            Ok(s) => s,
            Err(e) => return Err(e),
        };
        let players = member(member(value, "players"), "data");
        let names = member(element(players, 0), "names");
        let player = match text_or(member(names, "international"), RunError::Player) {
            Ok(s) => s,
            Err(e) => return Err(e),
        };
        let game_data = member(member(value, "game"), "data");
        let game = match text_or(member(game_data, "abbreviation"), RunError::Game) {
            Ok(s) => s,
            Err(e) => return Err(e),
        };
        let game_name = match text_or(member(member(game_data, "names"), "twitch"), RunError::GameName) {
            Ok(s) => s,
            Err(e) => return Err(e),
        };
        let category = member(member(value, "category"), "data");
        let cat_full = match text_or(member(category, "name"), RunError::Category) {
            Ok(s) => s,
            Err(e) => return Err(e),
        };
        let time = match text_of(member(member(value, "times"), "primary")) {
            Some(t) => t,
            None => return Err(RunError::TimeMissing),
        };
        Run::from_fields(run_id, vod_uri, player, game, game_name, cat_full, time)
    }
}

/// The runs of an API response's `data` list, where the text is JSON and
/// that member an array.
pub open spec fn run_records(body: Seq<char>) -> Option<Seq<serde_json::Value>> {
    if is_json(body) {
        array_of(member_of(json_of(body), "data"@))
    } else {
        None
    }
}

/// Reads the runs of an API response: its `data` list, each element a run,
/// in order. The first record that cannot be read gives its error.
pub fn parse_runs(body: &str) -> (r: Result<Vec<Run>, RunError>)
    ensures
        (r == Err::<Vec<Run>, RunError>(RunError::NotJson)) <==> !is_json(body@),
        (r == Err::<Vec<Run>, RunError>(RunError::NoRunList)) <==> is_json(body@)
            && run_records(body@) is None,
        r is Ok <==> run_records(body@) is Some && forall|i: int|
            0 <= i < run_records(body@)->Some_0.len() ==> record_error(
                #[trigger] run_records(body@)->Some_0[i],
            ) is None,
        r is Ok ==> r->Ok_0.len() == run_records(body@)->Some_0.len() && forall|i: int|
            0 <= i < r->Ok_0.len() ==> reads_as(
                #[trigger] r->Ok_0[i],
                run_records(body@)->Some_0[i],
            ),
        r is Err && run_records(body@) is Some ==> exists|k: int|
            0 <= k < run_records(body@)->Some_0.len() && record_error(
                #[trigger] run_records(body@)->Some_0[k],
            ) == Some(r->Err_0) && forall|j: int|
                0 <= j < k ==> record_error(#[trigger] run_records(body@)->Some_0[j]) is None,
{
    let doc = match parse_json(body) {
        Some(d) => d,
        None => return Err(RunError::NotJson),
    };
    let list = match elements_of(member(&doc, "data")) {
        Some(l) => l,
        None => return Err(RunError::NoRunList),
    };
    let ghost records = list@;
    assert(run_records(body@) == Some(records));
    let mut runs: Vec<Run> = Vec::new();
    let mut i: usize = 0;
    while i < list.len()
        invariant
            i <= list.len(),
            list@ == records,
            run_records(body@) == Some(records),
            runs.len() == i,
            forall|j: int| 0 <= j < i ==> record_error(#[trigger] records[j]) is None,
            forall|j: int| 0 <= j < i ==> reads_as(#[trigger] runs[j], records[j]),
        decreases list.len() - i,
    {
        match Run::try_from(&list[i]) {
            Ok(run) => runs.push(run),
            Err(e) => {
                assert(record_error(records[i as int]) == Some(e));
                return Err(e);
            },
        }
        i = i + 1;
    }
    Ok(runs)
}

} // verus!
