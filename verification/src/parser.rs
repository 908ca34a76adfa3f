use crate::dates::{clock_now, date_of, days_ago, days_until, parse_date, Moment};
use crate::record::{
    add_unique, empty_record, lemma_add_unique, opt_view, push_unique, ParsedWhoisData, Record,
};
use crate::text::{
    append_chars, append_text, begins_with, chars_of, contains, decimal, digits, first_token,
    has_text, is_space, is_text, leading_token, lemma_leading_solid, lines, lowercase, lowered, position_of, slice_of,
    split_lines, split_once, starts_with, string_of, string_views, trim, trimmed, views,
};
use vstd::prelude::*;

verus! {

/// The fields that a line of a reply can fill.
#[derive(Clone, Copy, Debug, PartialEq, Eq, Structural)]
pub enum Field {
    Expiration,
    Creation,
    Updated,
    Registrar,
    NameServer,
    Status,
    RegistrantName,
    RegistrantEmail,
    AdminEmail,
    TechEmail,
    Unrecognized,
}

/// The field that a key names. `key` is the text before the colon, trimmed and in
/// lower case. The tests are made in this order and the first that holds decides:
/// a key that names both a registrar and an expiry is an expiry date.
pub open spec fn classify(key: Seq<char>) -> Field {
    if contains(key, "expir"@) || contains(key, "expires"@) {
        Field::Expiration
    } else if contains(key, "creation"@) || contains(key, "created"@) || key == "registered"@ {
        Field::Creation
    } else if contains(key, "updated"@) || contains(key, "modified"@) || contains(
        key,
        "last updated"@,
    ) {
        Field::Updated
    } else if contains(key, "registrar"@) && !contains(key, "whois"@) && !contains(key, "url"@)
        && !contains(key, "abuse"@) && !contains(key, "expir"@) && !contains(
        key,
        "registration"@,
    ) {
        Field::Registrar
    } else if contains(key, "name server"@) || key == "nserver"@ || key == "ns"@ {
        Field::NameServer
    } else if contains(key, "status"@) || contains(key, "state"@) {
        Field::Status
    } else if starts_with(key, "registrant"@) && (contains(key, "name"@) || contains(
        key,
        "organization"@,
    ) || contains(key, "org"@) || key == "registrant"@) {
        Field::RegistrantName
    } else if contains(key, "registrant"@) && contains(key, "email"@) {
        Field::RegistrantEmail
    } else if contains(key, "admin"@) && contains(key, "email"@) {
        Field::AdminEmail
    } else if contains(key, "tech"@) && contains(key, "email"@) {
        Field::TechEmail
    } else {
        Field::Unrecognized
    }
}

/// A value that stands in for data withheld for privacy: it names a "select
/// request", in any mix of cases.
pub open spec fn is_placeholder(value: Seq<char>) -> bool {
    contains(lowercase(value), "select request"@)
}

/// A field that is filled once keeps its first value.
pub open spec fn first_wins(held: Option<Seq<char>>, value: Seq<char>) -> Option<Seq<char>> {
    if held is None {
        Some(value)
    } else {
        held
    }
}

/// The host name in the value of a name-server line: its first run of characters
/// without white space. An address behind it is left out.
pub open spec fn name_server_of(value: Seq<char>) -> Seq<char> {
    if first_token(value).len() == 0 {
        value
    } else {
        first_token(value)
    }
}

/// The record `r` after a line of field `field` and value `value` was read.
pub open spec fn with_field(r: Record, field: Field, value: Seq<char>) -> Record {
    match field {
        Field::Expiration => Record { expiration_date: first_wins(r.expiration_date, value), ..r },
        Field::Creation => Record { creation_date: first_wins(r.creation_date, value), ..r },
        Field::Updated => Record { updated_date: first_wins(r.updated_date, value), ..r },
        Field::Registrar => Record { registrar: first_wins(r.registrar, value), ..r },
        Field::NameServer => Record {
            name_servers: add_unique(r.name_servers, name_server_of(value)),
            ..r
        },
        Field::Status => Record { status: add_unique(r.status, value), ..r },
        Field::RegistrantName => if is_placeholder(value) {
            r
        } else {
            Record { registrant_name: first_wins(r.registrant_name, value), ..r }
        },
        Field::RegistrantEmail => if is_placeholder(value) {
            r
        } else {
            Record { registrant_email: first_wins(r.registrant_email, value), ..r }
        },
        Field::AdminEmail => if is_placeholder(value) {
            r
        } else {
            Record { admin_email: first_wins(r.admin_email, value), ..r }
        },
        Field::TechEmail => if is_placeholder(value) {
            r
        } else {
            Record { tech_email: first_wins(r.tech_email, value), ..r }
        },
        Field::Unrecognized => r,
    }
}

/// A trimmed line that says nothing: an empty one, or a comment.
pub open spec fn is_skipped(line: Seq<char>) -> bool {
    line.len() == 0 || starts_with(line, "%"@) || starts_with(line, "#"@) || starts_with(
        line,
        ">>>"@,
    )
}

/// The record `r` after the line `raw` was read. A line counts where, trimmed, it
/// is no comment and holds a colon with a value behind it.
pub open spec fn with_line(r: Record, raw: Seq<char>) -> Record {
    let line = trim(raw);
    if is_skipped(line) {
        r
    } else {
        match split_once(line, ':') {
            None => r,
            Some((k, v)) => if trim(v).len() == 0 {
                r
            } else {
                with_field(r, classify(lowercase(trim(k))), trim(v))
            },
        }
    }
}

/// The record `r` after each of `all` was read, in order.
pub open spec fn with_lines(r: Record, all: Seq<Seq<char>>) -> Record
    decreases all.len(),
{
    if all.len() == 0 {
        r
    } else {
        with_lines(with_line(r, all[0]), all.drop_first())
    }
}

/// The moment that a date field stands for, where the field is there and is in
/// one of the known formats.
pub open spec fn date_of_field(field: Option<Seq<char>>) -> Option<Moment> {
    match field {
        Some(s) => date_of(s),
        None => None,
    }
}

/// `r` with its three day counts derived from its date fields, as of `now`.
pub open spec fn with_day_counts(r: Record, now: Moment) -> Record {
    Record {
        created_ago: days_ago(date_of_field(r.creation_date), now),
        updated_ago: days_ago(date_of_field(r.updated_date), now),
        expires_in: days_until(date_of_field(r.expiration_date), now),
        ..r
    }
}

/// The fields that the text of a reply fills, before any day count.
pub open spec fn fields_of(data: Seq<char>) -> Record {
    with_lines(empty_record(), lines(data))
}

/// The record that the text of a reply gives at the moment `now`.
pub open spec fn record_of(data: Seq<char>, now: Moment) -> Record {
    with_day_counts(fields_of(data), now)
}

/// The field that `key` names: `key` is taken as it stands.
pub fn field_of_key(key: &str) -> (f: Field)
    ensures
        f == classify(key@),
{
    let k = chars_of(key);
    classify_key(&k)
}

fn classify_key(k: &Vec<char>) -> (f: Field)
    ensures
        f == classify(k@),
{
    if has_text(k, "expir") || has_text(k, "expires") {
        Field::Expiration
    } else if has_text(k, "creation") || has_text(k, "created") || is_text(k, "registered") {
        Field::Creation
    } else if has_text(k, "updated") || has_text(k, "modified") || has_text(k, "last updated") {
        Field::Updated
    } else if has_text(k, "registrar") && !has_text(k, "whois") && !has_text(k, "url")
        && !has_text(k, "abuse") && !has_text(k, "expir") && !has_text(k, "registration") {
        Field::Registrar
    } else if has_text(k, "name server") || is_text(k, "nserver") || is_text(k, "ns") {
        Field::NameServer
    } else if has_text(k, "status") || has_text(k, "state") {
        Field::Status
    } else if begins_with(k, "registrant") && (has_text(k, "name") || has_text(k, "organization")
        || has_text(k, "org") || is_text(k, "registrant")) {
        Field::RegistrantName
    } else if has_text(k, "registrant") && has_text(k, "email") {
        Field::RegistrantEmail
    } else if has_text(k, "admin") && has_text(k, "email") {
        Field::AdminEmail
    } else if has_text(k, "tech") && has_text(k, "email") {
        Field::TechEmail
    } else {
        Field::Unrecognized
    }
}

fn placeholder(value: &Vec<char>) -> (b: bool)
    ensures
        b == is_placeholder(value@),
{
    let l = lowered(value);
    has_text(&l, "select request")
}

fn keep_first(held: &mut Option<String>, value: &Vec<char>)
    ensures
        opt_view(*final(held)) == first_wins(opt_view(*old(held)), value@),
{
    if held.is_none() {
        *held = Some(string_of(value));
    }
}

/// Reads one field into `parsed`.
pub fn record_field(parsed: &mut ParsedWhoisData, field: Field, value: &str)
    ensures
        final(parsed)@ == with_field(old(parsed)@, field, value@),
{
    let v = chars_of(value);
    store_field(parsed, field, &v);
}

fn store_field(parsed: &mut ParsedWhoisData, field: Field, value: &Vec<char>)
    ensures
        final(parsed)@ == with_field(old(parsed)@, field, value@),
{
    match field {
        Field::Expiration => keep_first(&mut parsed.expiration_date, value),
        Field::Creation => keep_first(&mut parsed.creation_date, value),
        Field::Updated => keep_first(&mut parsed.updated_date, value),
        Field::Registrar => keep_first(&mut parsed.registrar, value),
        Field::NameServer => {
            let token = leading_token(value);
            let server = if token.len() == 0 {
                string_of(value)
            } else {
                string_of(&token)
            };
            push_unique(&mut parsed.name_servers, server);
        },
        Field::Status => push_unique(&mut parsed.status, string_of(value)),
        Field::RegistrantName => if !placeholder(value) {
            keep_first(&mut parsed.registrant_name, value);
        },
        Field::RegistrantEmail => if !placeholder(value) {
            keep_first(&mut parsed.registrant_email, value);
        },
        Field::AdminEmail => if !placeholder(value) {
            keep_first(&mut parsed.admin_email, value);
        },
        Field::TechEmail => if !placeholder(value) {
            keep_first(&mut parsed.tech_email, value);
        },
        Field::Unrecognized => {},
    }
}

fn store_line(parsed: &mut ParsedWhoisData, raw: &Vec<char>)
    ensures
        final(parsed)@ == with_line(old(parsed)@, raw@),
{
    let line = trimmed(raw);
    if line.len() == 0 || begins_with(&line, "%") || begins_with(&line, "#") || begins_with(
        &line,
        ">>>",
    ) {
        return ;
    }
    let k = position_of(&line, ':');
    if k < line.len() {
        let key = lowered(&trimmed(&slice_of(&line, 0, k)));
        let value = trimmed(&slice_of(&line, k + 1, line.len()));
        proof {
            assert(line@.take(k as int) =~= line@.subrange(0, k as int));
            assert(line@.skip(k + 1) =~= line@.subrange(k + 1, line@.len() as int));
        }
        if value.len() != 0 {
            let field = classify_key(&key);
            store_field(parsed, field, &value);
        }
    }
}

fn day_count(date: &Option<String>, now: &Moment, ahead: bool) -> (r: Option<i64>)
    ensures
        ahead ==> r == days_until(date_of_field(opt_view(*date)), *now),
        !ahead ==> r == days_ago(date_of_field(opt_view(*date)), *now),
{
    match date {
        Some(s) => match parse_date(s.as_str()) {
            Some(m) => if ahead {
                Some(m.days_since(now))
            } else {
                Some(now.days_since(&m))
            },
            None => None,
        },
        None => None,
    }
}

/// Derives the three day counts of `parsed` from its date fields, as of `now`.
pub fn set_day_counts(parsed: &mut ParsedWhoisData, now: &Moment)
    ensures
        final(parsed)@ == with_day_counts(old(parsed)@, *now),
{
    parsed.created_ago = day_count(&parsed.creation_date, now, false);
    parsed.updated_ago = day_count(&parsed.updated_date, now, false);
    parsed.expires_in = day_count(&parsed.expiration_date, now, true);
}

/// Reads the fields of a reply, line by line.
pub fn parse_fields(data: &str) -> (r: ParsedWhoisData)
    ensures
        r@ == fields_of(data@),
{
    let all = split_lines(&chars_of(data));
    let mut parsed = ParsedWhoisData::empty();
    let ghost every = lines(data@);
    let mut i: usize = 0;
    proof {
        assert(every.skip(0) =~= every);
    }
    while i < all.len()
        invariant
            i <= all.len(),
            every == views(all@),
            every == lines(data@),
            with_lines(empty_record(), every) == with_lines(parsed@, every.skip(i as int)),
        decreases all.len() - i,
    {
        proof {
            assert(every.skip(i as int)[0] == all@[i as int]@);
            assert(every.skip(i as int).drop_first() =~= every.skip(i + 1));
        }
        store_line(&mut parsed, &all[i]);
        i += 1;
    }
    parsed
}

/// What a summary line says of a field: its value, or that it was not found.
pub open spec fn found_or_not(field: Option<Seq<char>>) -> Seq<char> {
    match field {
        Some(s) => s,
        None => "NOT FOUND"@,
    }
}

/// The lines that sum up what was found in a reply.
pub open spec fn summary(r: Record) -> Seq<Seq<char>> {
    seq![
        "✓ Registrar: "@ + found_or_not(r.registrar),
        "✓ Creation Date: "@ + found_or_not(r.creation_date),
        "✓ Expiration Date: "@ + found_or_not(r.expiration_date),
        "✓ Updated Date: "@ + found_or_not(r.updated_date),
        "✓ Registrant Name: "@ + found_or_not(r.registrant_name),
        "✓ Name Servers: "@ + digits(r.name_servers.len()) + " found"@,
        "✓ Status: "@ + digits(r.status.len()) + " found"@,
    ]
}

/// What is noted of line number `number`, counted from 1: its number and the line,
/// trimmed.
pub open spec fn noted_line(number: nat, line: Seq<char>) -> Seq<char> {
    "Line "@ + digits(number) + ": "@ + trim(line)
}

/// A note for each of the first `n` lines of `all` that holds `word` once it is
/// put in lower case, in order.
pub open spec fn noted_lines(all: Seq<Seq<char>>, word: Seq<char>, n: nat) -> Seq<Seq<char>>
    decreases n,
{
    if n == 0 || n > all.len() {
        Seq::empty()
    } else if contains(lowercase(all[n - 1]), word) {
        noted_lines(all, word, (n - 1) as nat).push(noted_line(n, all[n - 1]))
    } else {
        noted_lines(all, word, (n - 1) as nat)
    }
}

/// The trace of a parse: a heading, the summary of the record `r`, and the lines
/// of the reply that speak of a registrant and of an expiry.
pub open spec fn analysis_of(data: Seq<char>, r: Record) -> Seq<Seq<char>> {
    seq!["=== PARSING ANALYSIS ==="@] + summary(r) + seq![
        "\n=== LINES CONTAINING 'REGISTRANT' ==="@,
    ] + noted_lines(lines(data), "registrant"@, lines(data).len()) + seq![
        "\n=== LINES CONTAINING 'EXPIR' ==="@,
    ] + noted_lines(lines(data), "expir"@, lines(data).len())
}

pub(crate) fn labelled(label: &str, field: &Option<String>) -> (s: String)
    ensures
        s@ == label@ + found_or_not(opt_view(*field)),
{
    let mut v = chars_of(label);
    match field {
        Some(f) => append_text(&mut v, f.as_str()),
        None => append_text(&mut v, "NOT FOUND"),
    }
    string_of(&v)
}

pub(crate) fn counted(label: &str, n: usize) -> (s: String)
    ensures
        s@ == label@ + digits(n as nat) + " found"@,
{
    let mut v = chars_of(label);
    append_chars(&mut v, &decimal(n));
    append_text(&mut v, " found");
    string_of(&v)
}

fn push_summary(analysis: &mut Vec<String>, parsed: &ParsedWhoisData)
    ensures
        string_views(final(analysis)@) == string_views(old(analysis)@) + summary(parsed@),
{
    let ghost before = string_views(analysis@);
    analysis.push(labelled("✓ Registrar: ", &parsed.registrar));
    analysis.push(labelled("✓ Creation Date: ", &parsed.creation_date));
    analysis.push(labelled("✓ Expiration Date: ", &parsed.expiration_date));
    analysis.push(labelled("✓ Updated Date: ", &parsed.updated_date));
    analysis.push(labelled("✓ Registrant Name: ", &parsed.registrant_name));
    analysis.push(counted("✓ Name Servers: ", parsed.name_servers.len()));
    analysis.push(counted("✓ Status: ", parsed.status.len()));
    proof {
        assert(string_views(parsed.name_servers@).len() == parsed.name_servers@.len());
        assert(string_views(analysis@) =~= before + summary(parsed@));
    }
}

fn push_noted(analysis: &mut Vec<String>, all: &Vec<Vec<char>>, word: &str)
    ensures
        string_views(final(analysis)@) == string_views(old(analysis)@) + noted_lines(
            views(all@),
            word@,
            all@.len(),
        ),
{
    let ghost before = string_views(analysis@);
    let ghost every = views(all@);
    let mut i: usize = 0;
    proof {
        assert(string_views(analysis@) =~= before + noted_lines(every, word@, 0));
    }
    while i < all.len()
        invariant
            i <= all.len(),
            every == views(all@),
            string_views(analysis@) == before + noted_lines(every, word@, i as nat),
        decreases all.len() - i,
    {
        let line = &all[i];
        if has_text(&lowered(line), word) {
            let mut v = chars_of("Line ");
            append_chars(&mut v, &decimal(i + 1));
            append_text(&mut v, ": ");
            append_chars(&mut v, &trimmed(line));
            let ghost held = string_views(analysis@);
            analysis.push(string_of(&v));
            proof {
                assert(every[i as int] == line@);
                assert(string_views(analysis@) =~= held.push(noted_line((i + 1) as nat, line@)));
                assert(string_views(analysis@) =~= before + noted_lines(
                    every,
                    word@,
                    (i + 1) as nat,
                ));
            }
        } else {
            proof {
                assert(every[i as int] == line@);
            }
        }
        i += 1;
    }
}

/// Writes the trace of a parse of `data` that gave `parsed`.
pub fn analyse(data: &str, parsed: &ParsedWhoisData) -> (analysis: Vec<String>)
    ensures
        string_views(analysis@) == analysis_of(data@, parsed@),
{
    let all = split_lines(&chars_of(data));
    let mut analysis: Vec<String> = Vec::new();
    analysis.push("=== PARSING ANALYSIS ===".to_owned());
    proof {
        assert(string_views(analysis@) =~= seq!["=== PARSING ANALYSIS ==="@]);
    }
    push_summary(&mut analysis, parsed);
    let ghost held = string_views(analysis@);
    analysis.push("\n=== LINES CONTAINING 'REGISTRANT' ===".to_owned());
    proof {
        assert(string_views(analysis@) =~= held + seq![
            "\n=== LINES CONTAINING 'REGISTRANT' ==="@,
        ]);
    }
    push_noted(&mut analysis, &all, "registrant");
    let ghost held = string_views(analysis@);
    analysis.push("\n=== LINES CONTAINING 'EXPIR' ===".to_owned());
    proof {
        assert(string_views(analysis@) =~= held + seq!["\n=== LINES CONTAINING 'EXPIR' ==="@]);
    }
    push_noted(&mut analysis, &all, "expir");
    analysis
}

/// The parser of WHOIS replies: free-form text, one `key: value` pair to a line.
pub struct WhoisParser;

impl WhoisParser {
    pub fn new() -> (p: Self) {
        WhoisParser
    }

    /// Reads a reply as of the moment `now`.
    pub fn parse_whois_data_at(&self, data: &str, now: &Moment) -> (r: Option<ParsedWhoisData>)
        ensures
            r is Some,
            r->0@ == record_of(data@, *now),
    {
        let mut parsed = parse_fields(data);
        set_day_counts(&mut parsed, now);
        Some(parsed)
    }

    /// Reads a reply as of now: the clock is read once.
    pub fn parse_whois_data(&self, data: &str) -> (r: Option<ParsedWhoisData>)
        ensures
            r is Some,
            exists|now: Moment| r->0@ == record_of(data@, now),
    {
        let now = clock_now();
        self.parse_whois_data_at(data, &now)
    }

    /// Reads a reply as of the moment `now` and writes the trace of the parse.
    pub fn parse_whois_data_with_analysis_at(&self, data: &str, now: &Moment) -> (r: (
        Option<ParsedWhoisData>,
        Vec<String>,
    ))
        ensures
            r.0 is Some,
            r.0->0@ == record_of(data@, *now),
            string_views(r.1@) == analysis_of(data@, record_of(data@, *now)),
    {
        let mut parsed = parse_fields(data);
        set_day_counts(&mut parsed, now);
        let analysis = analyse(data, &parsed);
        (Some(parsed), analysis)
    }

    /// Reads a reply as of now and writes the trace of the parse.
    pub fn parse_whois_data_with_analysis(&self, data: &str) -> (r: (
        Option<ParsedWhoisData>,
        Vec<String>,
    ))
        ensures
            r.0 is Some,
            exists|now: Moment| r.0->0@ == record_of(data@, now),
            string_views(r.1@) == analysis_of(data@, r.0->0@),
    {
        let now = clock_now();
        self.parse_whois_data_with_analysis_at(data, &now)
    }

    /// Reads a date text in the formats that registries use.
    pub fn parse_date(&self, date_str: &str) -> (r: Option<Moment>)
        ensures
            r == date_of(date_str@),
    {
        parse_date(date_str)
    }
}

/// A key that speaks of an expiry names the expiry date, whatever else it speaks
/// of: a line with such a key fills the expiry date, where none is held, and leaves
/// the registrar as it was.
pub proof fn lemma_expiry_takes_precedence(r: Record, key: Seq<char>, value: Seq<char>)
    requires
        contains(key, "expir"@),
    ensures
        classify(key) == Field::Expiration,
        with_field(r, classify(key), value).registrar == r.registrar,
        with_field(r, classify(key), value).expiration_date == first_wins(r.expiration_date, value),
{
}

/// The name server taken from a value holds no white space where the value holds
/// anything else: what follows the host name is left out.
pub proof fn lemma_name_server_is_one_token(value: Seq<char>)
    requires
        first_token(value).len() > 0,
    ensures
        name_server_of(value) == first_token(value),
        forall|i: int|
            0 <= i < name_server_of(value).len() ==> !is_space(#[trigger] name_server_of(value)[i]),
{
    let t = crate::text::trim_start(value);
    lemma_leading_solid(t);
    assert forall|i: int| 0 <= i < first_token(value).len() implies !is_space(
        #[trigger] first_token(value)[i],
    ) by {
        assert(first_token(value)[i] == t[i]);
    }
}

/// A name-server line adds at most one name, and none that is held already.
pub proof fn lemma_name_servers_stay_unique(r: Record, value: Seq<char>)
    requires
        r.name_servers.no_duplicates(),
    ensures
        with_field(r, Field::NameServer, value).name_servers.no_duplicates(),
        with_field(r, Field::NameServer, value).name_servers.contains(name_server_of(value)),
{
    lemma_add_unique(r.name_servers, name_server_of(value));
}

} // verus!
