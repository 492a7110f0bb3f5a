//! Editing the lines of profile files.
//!
//! A profile file is a list of lines. A profile starts at the line that is
//! its name in square brackets and ends before the next header line. Which
//! lines are headers, and how a stored value is replaced, is decided by
//! regular expressions; the results here are stated over what the `regex`
//! crate answers for them (see [`crate::pattern`]).
use crate::config::{Config, Credentials};
use crate::error::CliError;
use crate::pattern::{
    compile, compile_failure, describe, has_match, is_match, replace_first, replaced,
};
use crate::text::{
    chars_eq, chars_of, decimal, decimal_string, joined, line_feeds_removed, str_eq,
    without_line_feeds,
};
use vstd::prelude::*;
use vstd::string::*;

verus! {

/// The pattern of a line that opens a profile.
pub const PROFILE_HEADER_PATTERN: &'static str = "^\\s*\\[[^\\]]+\\]\\s*$";

/// The pattern of a line that stores a token.
pub const TOKEN_PATTERN: &'static str = "^token\\s*=\\s*([\\w\\.-]*)\\s*$";

/// The pattern of a line that stores a cache name.
pub const CACHE_PATTERN: &'static str = "^cache\\s*=\\s*([\\w-]*)\\s*$";

/// The pattern of a line that stores a time to live.
pub const TTL_PATTERN: &'static str = "^ttl\\s*=\\s*([\\d]*)\\s*$";

/// The message of the error for a profile header pattern that does not compile.
pub const HEADER_PATTERN_FAILURE: &'static str = "Unable to compile profile header regex";

/// The start of the message of the error for a value pattern that does not compile.
pub const VALUE_PATTERN_FAILURE: &'static str = "invalid regex expression is provided, error: ";

/// The line that opens the profile `name`.
pub open spec fn header_line(name: Seq<char>) -> Seq<char> {
    seq!['['] + name + seq![']']
}

/// The least index from `from` on at which `flags` is set, or the length of
/// `flags` where there is none.
pub open spec fn first_set_from(flags: Seq<bool>, from: int) -> int
    decreases flags.len() - from,
{
    if from >= flags.len() {
        flags.len() as int
    } else if from >= 0 && flags[from] {
        from
    } else {
        first_set_from(flags, from + 1)
    }
}

/// The lines of a profile as a half-open range, given for each line whether
/// it opens that profile and whether it is a header: from the first line
/// that opens it up to the next header. Where no line opens the profile, the
/// range is the whole file.
pub open spec fn span_of(opens: Seq<bool>, is_header: Seq<bool>) -> (int, int) {
    let start = first_set_from(opens, 0);
    if start < opens.len() {
        (start, first_set_from(is_header, start + 1))
    } else {
        (0, is_header.len() as int)
    }
}

/// For each line, whether it is exactly the header of the profile `name`.
pub open spec fn opening_flags(lines: Seq<Seq<char>>, name: Seq<char>) -> Seq<bool> {
    Seq::new(lines.len(), |i: int| lines[i] == header_line(name))
}

/// For each line, whether it has the form of a profile header.
pub open spec fn header_flags(lines: Seq<Seq<char>>) -> Seq<bool> {
    Seq::new(lines.len(), |i: int| is_match(PROFILE_HEADER_PATTERN@, lines[i]))
}

/// The lines of the profile `name` in `lines`, as a half-open range.
pub open spec fn profile_span(lines: Seq<Seq<char>>, name: Seq<char>) -> (int, int) {
    span_of(opening_flags(lines, name), header_flags(lines))
}

/// `line` with its leftmost match of `pattern` replaced by the expansion of
/// `replacement`; `line` as it is where the pattern has no match in it.
pub open spec fn stored(pattern: Seq<char>, line: Seq<char>, replacement: Seq<char>) -> Seq<
    char,
> {
    if is_match(pattern, line) {
        replaced(pattern, line, replacement)
    } else {
        line
    }
}

/// A line after a new token was stored in it: a line that the token pattern
/// matches gives way to `token=` and the token, and any other line is kept.
pub open spec fn credentials_line(line: Seq<char>, token: Seq<char>) -> Seq<char> {
    stored(TOKEN_PATTERN@, line, "token="@ + token)
}

/// A line after a new cache name and a new time to live were stored in it,
/// in this order: a line that the cache pattern matches gives way to
/// `cache=` and the name, what came of that gives way to `ttl=` and the
/// number where the time to live pattern matches it, and a line that neither
/// pattern matches is kept.
pub open spec fn config_line(line: Seq<char>, cache: Seq<char>, ttl: nat) -> Seq<char> {
    stored(TTL_PATTERN@, stored(CACHE_PATTERN@, line, "cache="@ + cache), "ttl="@ + decimal(ttl))
}

/// `lines` with a new token stored in each line from `start` up to `end`.
pub open spec fn with_credentials(
    lines: Seq<Seq<char>>,
    start: int,
    end: int,
    token: Seq<char>,
) -> Seq<Seq<char>> {
    Seq::new(
        lines.len(),
        |i: int|
            if start <= i < end {
                credentials_line(lines[i], token)
            } else {
                lines[i]
            },
    )
}

/// `lines` with a new cache name and time to live stored in each line from
/// `start` up to `end`.
pub open spec fn with_config(
    lines: Seq<Seq<char>>,
    start: int,
    end: int,
    cache: Seq<char>,
    ttl: nat,
) -> Seq<Seq<char>> {
    Seq::new(
        lines.len(),
        |i: int|
            if start <= i < end {
                config_line(lines[i], cache, ttl)
            } else {
                lines[i]
            },
    )
}

/// What storing a new token in the profile `name` of `lines` gives: the new
/// lines, or the message of the error.
pub open spec fn credentials_update(
    lines: Seq<Seq<char>>,
    name: Seq<char>,
    token: Seq<char>,
) -> Result<Seq<Seq<char>>, Seq<char>> {
    let span = profile_span(lines, name);
    if compile_failure(PROFILE_HEADER_PATTERN@) is Some {
        Err(HEADER_PATTERN_FAILURE@)
    } else if span.0 < span.1 && compile_failure(TOKEN_PATTERN@) is Some {
        Err(VALUE_PATTERN_FAILURE@ + compile_failure(TOKEN_PATTERN@)->0)
    } else {
        Ok(with_credentials(lines, span.0, span.1, token))
    }
}

/// What storing a new cache name and time to live in the profile `name` of
/// `lines` gives: the new lines, or the message of the error.
pub open spec fn config_update(
    lines: Seq<Seq<char>>,
    name: Seq<char>,
    cache: Seq<char>,
    ttl: nat,
) -> Result<Seq<Seq<char>>, Seq<char>> {
    let span = profile_span(lines, name);
    if compile_failure(PROFILE_HEADER_PATTERN@) is Some {
        Err(HEADER_PATTERN_FAILURE@)
    } else if span.0 < span.1 && compile_failure(CACHE_PATTERN@) is Some {
        Err(VALUE_PATTERN_FAILURE@ + compile_failure(CACHE_PATTERN@)->0)
    } else if span.0 < span.1 && compile_failure(TTL_PATTERN@) is Some {
        Err(VALUE_PATTERN_FAILURE@ + compile_failure(TTL_PATTERN@)->0)
    } else {
        Ok(with_config(lines, span.0, span.1, cache, ttl))
    }
}

/// The header of the profile `name`, as text.
fn bracketed(name: &str) -> (r: String)
    ensures
        r@ == header_line(name@),
{
    proof {
        reveal_strlit("[");
        reveal_strlit("]");
    }
    let mut r = String::from_str("[");
    r.append(name);
    r.append("]");
    assert(r@ =~= header_line(name@));
    r
}

/// The lines of a new credentials profile.
pub fn create_new_credentials_profile(profile_name: &str, credentials: Credentials) -> (r: Vec<
    String,
>)
    ensures
        r.deep_view() == seq![header_line(profile_name@), "token="@ + credentials.token@],
{
    let mut r: Vec<String> = Vec::new();
    r.push(bracketed(profile_name));
    r.push(joined("token=", credentials.token.as_str()));
    assert(r.deep_view() =~= seq![header_line(profile_name@), "token="@ + credentials.token@]);
    r
}

/// The lines of a new configuration profile.
pub fn create_new_config_profile(profile_name: &str, config: Config) -> (r: Vec<String>)
    ensures
        r.deep_view() == seq![
            header_line(profile_name@),
            "cache="@ + config.cache@,
            "ttl="@ + decimal(config.ttl as nat),
        ],
{
    let mut r: Vec<String> = Vec::new();
    r.push(bracketed(profile_name));
    r.push(joined("cache=", config.cache.as_str()));
    let ttl = decimal_string(config.ttl);
    r.push(joined("ttl=", ttl.as_str()));
    assert(r.deep_view() =~= seq![
        header_line(profile_name@),
        "cache="@ + config.cache@,
        "ttl="@ + decimal(config.ttl as nat),
    ]);
    r
}

/// Whether some line of `file_contents`, its line feeds apart, is the header of
/// the profile `profile_name`.
pub fn does_profile_name_exist(file_contents: &[&str], profile_name: &str) -> (r: bool)
    ensures
        r == exists|i: int|
            0 <= i < file_contents@.len() && without_line_feeds(#[trigger] file_contents@[i]@)
                == header_line(profile_name@),
{
    let header = bracketed(profile_name);
    let expected = chars_of(header.as_str());
    let mut i: usize = 0;
    while i < file_contents.len()
        invariant
            i <= file_contents@.len(),
            expected@ == header_line(profile_name@),
            forall|k: int|
                0 <= k < i ==> without_line_feeds(#[trigger] file_contents@[k]@) != header_line(
                    profile_name@,
                ),
        decreases file_contents@.len() - i,
    {
        let trimmed = line_feeds_removed(file_contents[i]);
        if chars_eq(&trimmed, &expected) {
            return true;
        }
        i = i + 1;
    }
    false
}

/// The range of a profile, given for each line whether it opens the profile
/// and whether it is a header.
pub fn locate(opens: &Vec<bool>, is_header: &Vec<bool>) -> (r: (usize, usize))
    ensures
        (r.0 as int, r.1 as int) == span_of(opens@, is_header@),
        opens@.len() == is_header@.len() ==> r.0 <= r.1 <= is_header@.len(),
{
    let mut start: usize = 0;
    while start < opens.len() && !opens[start]
        invariant
            start <= opens.len(),
            first_set_from(opens@, 0) == first_set_from(opens@, start as int),
        decreases opens.len() - start,
    {
        start = start + 1;
    }
    if start == opens.len() {
        return (0, is_header.len());
    }
    let mut end: usize = start + 1;
    while end < is_header.len() && !is_header[end]
        invariant
            start < end,
            start < is_header.len() ==> end <= is_header.len(),
            first_set_from(is_header@, start + 1) == first_set_from(is_header@, end as int),
        decreases is_header.len() - end,
    {
        end = end + 1;
    }
    if end > is_header.len() {
        end = is_header.len();
    }
    (start, end)
}

/// The error for a profile header pattern that does not compile.
fn header_pattern_error() -> (e: CliError)
    ensures
        e@ == HEADER_PATTERN_FAILURE@,
{
    CliError::new(HEADER_PATTERN_FAILURE)
}

/// The error for a value pattern that does not compile.
fn value_pattern_error(cause: &regex::Error) -> (e: CliError)
    ensures
        e@ == VALUE_PATTERN_FAILURE@ + crate::pattern::error_text(*cause),
{
    let detail = describe(cause);
    CliError::with_detail(VALUE_PATTERN_FAILURE, detail.as_str())
}

/// Whether `line` has the form of a profile header. Fails where the header
/// pattern does not compile.
pub fn is_profile_header_line(line: &str) -> (r: Result<bool, CliError>)
    ensures
        match r {
            Ok(b) => compile_failure(PROFILE_HEADER_PATTERN@) is None && b == is_match(
                PROFILE_HEADER_PATTERN@,
                line@,
            ),
            Err(e) => compile_failure(PROFILE_HEADER_PATTERN@) is Some && e@
                == HEADER_PATTERN_FAILURE@,
        },
{
    match compile(PROFILE_HEADER_PATTERN) {
        Ok(re) => Ok(has_match(&re, line)),
        Err(_) => Err(header_pattern_error()),
    }
}

/// The lines of the profile `profile_name` as a half-open range of indices
/// into `file_contents`. Fails where the header pattern does not compile.
pub fn find_line_numbers_for_profile(file_contents: &[&str], profile_name: &str) -> (r: Result<
    (usize, usize),
    CliError,
>)
    ensures
        match r {
            Ok(span) => compile_failure(PROFILE_HEADER_PATTERN@) is None && (
                span.0 as int,
                span.1 as int,
            ) == profile_span(file_contents.deep_view(), profile_name@) && span.0 <= span.1
                <= file_contents@.len(),
            Err(e) => compile_failure(PROFILE_HEADER_PATTERN@) is Some && e@
                == HEADER_PATTERN_FAILURE@,
        },
{
    let re = match compile(PROFILE_HEADER_PATTERN) {
        Ok(re) => re,
        Err(_) => {
            return Err(header_pattern_error());
        },
    };
    let header = bracketed(profile_name);
    let mut opens: Vec<bool> = Vec::new();
    let mut is_header: Vec<bool> = Vec::new();
    let mut i: usize = 0;
    while i < file_contents.len()
        invariant
            i <= file_contents@.len(),
            header@ == header_line(profile_name@),
            crate::pattern::source(re) == PROFILE_HEADER_PATTERN@,
            opens@ == opening_flags(file_contents.deep_view(), profile_name@).take(i as int),
            is_header@ == header_flags(file_contents.deep_view()).take(i as int),
        decreases file_contents@.len() - i,
    {
        let line: &str = file_contents[i];
        opens.push(str_eq(line, header.as_str()));
        is_header.push(has_match(&re, line));
        assert(opens@ =~= opening_flags(file_contents.deep_view(), profile_name@).take(i + 1));
        assert(is_header@ =~= header_flags(file_contents.deep_view()).take(i + 1));
        i = i + 1;
    }
    assert(opens@ =~= opening_flags(file_contents.deep_view(), profile_name@));
    assert(is_header@ =~= header_flags(file_contents.deep_view()));
    Ok(locate(&opens, &is_header))
}

/// Owned copies of `lines`.
pub fn owned_lines(lines: &[&str]) -> (r: Vec<String>)
    ensures
        r.deep_view() == lines.deep_view(),
{
    let mut r: Vec<String> = Vec::new();
    let mut i: usize = 0;
    while i < lines.len()
        invariant
            i <= lines@.len(),
            r@.len() == i,
            forall|k: int| 0 <= k < i ==> r@[k]@ == lines@[k]@,
        decreases lines@.len() - i,
    {
        r.push(lines[i].to_owned());
        i = i + 1;
    }
    assert(r.deep_view() =~= lines.deep_view());
    r
}

/// A copy of `lines` in which `line` stands at `index`.
pub fn with_line(lines: &[String], index: usize, line: String) -> (r: Vec<String>)
    requires
        index < lines@.len(),
    ensures
        r.deep_view() == lines.deep_view().update(index as int, line@),
{
    let mut r: Vec<String> = Vec::new();
    let mut i: usize = 0;
    while i < lines.len()
        invariant
            i <= lines@.len(),
            r@.len() == i,
            forall|k: int| 0 <= k < i ==> r@[k]@ == lines@[k]@,
        decreases lines@.len() - i,
    {
        r.push(lines[i].clone());
        i = i + 1;
    }
    r[index] = line;
    assert(r.deep_view() =~= lines.deep_view().update(index as int, line@));
    r
}

/// `line` with its first match of `pattern` replaced by the expansion of
/// `replacement`; `line` itself where the pattern has no match in it. Fails
/// where the pattern does not compile.
pub fn replace_value(pattern: &str, line: &str, replacement: &str) -> (r: Result<String, CliError>)
    ensures
        match r {
            Ok(changed) => compile_failure(pattern@) is None && changed@ == stored(
                pattern@,
                line@,
                replacement@,
            ),
            Err(e) => compile_failure(pattern@) matches Some(cause) && e@
                == VALUE_PATTERN_FAILURE@ + cause,
        },
{
    match compile(pattern) {
        Ok(re) => Ok(replace_first(&re, line, replacement)),
        Err(e) => Err(value_pattern_error(&e)),
    }
}

/// Stores the token of `credentials` in the line at `index`: the line's
/// first match of the token pattern gives way to `token=` and the token.
/// Fails where the token pattern does not compile.
pub fn replace_credentials_value(
    file_contents: &[String],
    index: usize,
    credentials: &Credentials,
) -> (r: Result<Vec<String>, CliError>)
    requires
        index < file_contents@.len(),
    ensures
        match r {
            Ok(lines) => compile_failure(TOKEN_PATTERN@) is None && lines.deep_view()
                == file_contents.deep_view().update(
                index as int,
                credentials_line(file_contents@[index as int]@, credentials.token@),
            ),
            Err(e) => compile_failure(TOKEN_PATTERN@) matches Some(cause) && e@
                == VALUE_PATTERN_FAILURE@ + cause,
        },
{
    let replacement = joined("token=", credentials.token.as_str());
    match replace_value(TOKEN_PATTERN, file_contents[index].as_str(), replacement.as_str()) {
        Ok(line) => Ok(with_line(file_contents, index, line)),
        Err(e) => Err(e),
    }
}

/// Stores the cache name and the time to live of `config` in the line at
/// `index`: first the line's match of the cache pattern gives way to
/// `cache=` and the name, then the match of the time to live pattern in what
/// came of that gives way to `ttl=` and the number. Fails where one of the
/// two patterns does not compile.
pub fn replace_config_value(file_contents: &[String], index: usize, config: &Config) -> (r: Result<
    Vec<String>,
    CliError,
>)
    requires
        index < file_contents@.len(),
    ensures
        match r {
            Ok(lines) => compile_failure(CACHE_PATTERN@) is None && compile_failure(TTL_PATTERN@)
                is None && lines.deep_view() == file_contents.deep_view().update(
                index as int,
                config_line(file_contents@[index as int]@, config.cache@, config.ttl as nat),
            ),
            Err(e) => match compile_failure(CACHE_PATTERN@) {
                Some(cause) => e@ == VALUE_PATTERN_FAILURE@ + cause,
                None => compile_failure(TTL_PATTERN@) matches Some(cause) && e@
                    == VALUE_PATTERN_FAILURE@ + cause,
            },
        },
{
    let cache = joined("cache=", config.cache.as_str());
    let line = match replace_value(CACHE_PATTERN, file_contents[index].as_str(), cache.as_str()) {
        Ok(line) => line,
        Err(e) => {
            return Err(e);
        },
    };
    let number = decimal_string(config.ttl);
    let ttl = joined("ttl=", number.as_str());
    match replace_value(TTL_PATTERN, line.as_str(), ttl.as_str()) {
        Ok(line) => Ok(with_line(file_contents, index, line)),
        Err(e) => Err(e),
    }
}

/// Stores the token of `credentials` in every line of the profile
/// `profile_name`, and returns all lines of the file.
pub fn update_credentials_profile(
    profile_name: &str,
    file_contents: &[&str],
    credentials: Credentials,
) -> (r: Result<Vec<String>, CliError>)
    ensures
        match r {
            Ok(lines) => credentials_update(
                file_contents.deep_view(),
                profile_name@,
                credentials.token@,
            ) == Ok::<Seq<Seq<char>>, Seq<char>>(lines.deep_view()),
            Err(e) => credentials_update(
                file_contents.deep_view(),
                profile_name@,
                credentials.token@,
            ) == Err::<Seq<Seq<char>>, Seq<char>>(e@),
        },
{
    let (start, end): (usize, usize) = match find_line_numbers_for_profile(
        file_contents,
        profile_name,
    ) {
        Ok(span) => span,
        Err(e) => {
            return Err(e);
        },
    };
    let mut updated = owned_lines(file_contents);
    let mut n: usize = start;
    while n < end
        invariant
            start <= n <= end <= file_contents@.len(),
            n > start ==> compile_failure(TOKEN_PATTERN@) is None,
            compile_failure(PROFILE_HEADER_PATTERN@) is None,
            (start as int, end as int) == profile_span(file_contents.deep_view(), profile_name@),
            updated@.len() == file_contents@.len(),
            updated.deep_view() == with_credentials(
                file_contents.deep_view(),
                start as int,
                n as int,
                credentials.token@,
            ),
        decreases end - n,
    {
        assert(updated@[n as int]@ == updated.deep_view()[n as int]);
        assert(file_contents@[n as int]@ == file_contents.deep_view()[n as int]);
        updated =
        match replace_credentials_value(updated.as_slice(), n, &credentials) {
            Ok(lines) => lines,
            Err(e) => {
                return Err(e);
            },
        };
        assert(updated.deep_view() =~= with_credentials(
            file_contents.deep_view(),
            start as int,
            n + 1,
            credentials.token@,
        ));
        n = n + 1;
    }
    Ok(updated)
}

/// Stores the cache name and the time to live of `config` in every line of
/// the profile `profile_name`, and returns all lines of the file.
pub fn update_config_profile(profile_name: &str, file_contents: &[&str], config: Config) -> (r:
    Result<Vec<String>, CliError>)
    ensures
        match r {
            Ok(lines) => config_update(
                file_contents.deep_view(),
                profile_name@,
                config.cache@,
                config.ttl as nat,
            ) == Ok::<Seq<Seq<char>>, Seq<char>>(lines.deep_view()),
            Err(e) => config_update(
                file_contents.deep_view(),
                profile_name@,
                config.cache@,
                config.ttl as nat,
            ) == Err::<Seq<Seq<char>>, Seq<char>>(e@),
        },
{
    let (start, end): (usize, usize) = match find_line_numbers_for_profile(
        file_contents,
        profile_name,
    ) {
        Ok(span) => span,
        Err(e) => {
            return Err(e);
        },
    };
    let mut updated = owned_lines(file_contents);
    let mut n: usize = start;
    while n < end
        invariant
            start <= n <= end <= file_contents@.len(),
            n > start ==> compile_failure(CACHE_PATTERN@) is None && compile_failure(TTL_PATTERN@)
                is None,
            compile_failure(PROFILE_HEADER_PATTERN@) is None,
            (start as int, end as int) == profile_span(file_contents.deep_view(), profile_name@),
            updated@.len() == file_contents@.len(),
            updated.deep_view() == with_config(
                file_contents.deep_view(),
                start as int,
                n as int,
                config.cache@,
                config.ttl as nat,
            ),
        decreases end - n,
    {
        assert(updated@[n as int]@ == updated.deep_view()[n as int]);
        assert(file_contents@[n as int]@ == file_contents.deep_view()[n as int]);
        updated =
        match replace_config_value(updated.as_slice(), n, &config) {
            Ok(lines) => lines,
            Err(e) => {
                return Err(e);
            },
        };
        assert(updated.deep_view() =~= with_config(
            file_contents.deep_view(),
            start as int,
            n + 1,
            config.cache@,
            config.ttl as nat,
        ));
        n = n + 1;
    }
    Ok(updated)
}

} // verus!
