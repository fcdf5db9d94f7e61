//! Expansion of `{{ placeholder }}` tokens in free-form text.
//!
//! A token opens with `{{` and runs to the first `}}` after it. What stands
//! between, with the white space at both ends taken off, is the token's
//! content; a content that holds a line feed makes no token. Text is read from
//! left to right: where a token stands it is replaced, and reading goes on
//! behind it; any other character is kept.

use crate::config::defines::{lemma_lookup_at, lookup, names_distinct, DefineMap};
use crate::config::model::{ConfigDefineType, DefineValue};
use crate::text::{
    chars_of, decimal, decimal_string, is_text, lemma_skip_spaces, lemma_trim_back, skip_spaces,
    skip_white, string_of, trim_back, trim_white,
};
use crate::trusted::{is_numeral_within, is_year_numeral, local_time_text};
use vstd::prelude::*;
use vstd::string::StringExecFns;

verus! {

/// `{{` stands at place `i` of `s`.
pub open spec fn opens_at(s: Seq<char>, i: int) -> bool {
    0 <= i && i + 1 < s.len() && s[i] == '{' && s[i + 1] == '{'
}

/// `}}` stands at place `i` of `s`.
pub open spec fn closes_at(s: Seq<char>, i: int) -> bool {
    0 <= i && i + 1 < s.len() && s[i] == '}' && s[i + 1] == '}'
}

/// The first place at or after `from` where `}}` stands, or the length of `s`
/// where there is none.
pub open spec fn next_close(s: Seq<char>, from: int) -> int
    decreases s.len() - from,
{
    if from < 0 || from >= s.len() {
        s.len() as int
    } else if closes_at(s, from) {
        from
    } else {
        next_close(s, from + 1)
    }
}

/// A token found in a text: where its content starts and ends, and the place
/// behind its closing braces.
pub struct Token {
    pub content_start: int,
    pub content_end: int,
    pub end: int,
}

/// The token that starts at place `i` of `s`, if one does.
pub open spec fn token_at(s: Seq<char>, i: int) -> Option<Token> {
    if opens_at(s, i) {
        let close = next_close(s, i + 2);
        let content_start = skip_spaces(s, i + 2, close);
        let content_end = trim_back(s, content_start, close);
        if close < s.len() && !s.subrange(content_start, content_end).contains('\n') {
            Some(Token { content_start, content_end, end: close + 2 })
        } else {
            None
        }
    } else {
        None
    }
}

/// The readings of the local clock that a template can name.
pub struct LocalTime {
    /// Weekday, day, month, year and twelve-hour time, as in
    /// `Wed 28 Oct 2026, 09:05AM`.
    pub stamp: String,
    /// Date and time with the offset from UTC, in the ISO 8601 form.
    pub iso8601: String,
    pub year: String,
    pub month: String,
    pub day: String,
    pub hour: String,
    pub minute: String,
}

/// What a `LocalTime` holds, mathematically.
pub struct Clock {
    pub stamp: Seq<char>,
    pub iso8601: Seq<char>,
    pub year: Seq<char>,
    pub month: Seq<char>,
    pub day: Seq<char>,
    pub hour: Seq<char>,
    pub minute: Seq<char>,
}

impl View for LocalTime {
    type V = Clock;

    open spec fn view(&self) -> Clock {
        Clock {
            stamp: self.stamp@,
            iso8601: self.iso8601@,
            year: self.year@,
            month: self.month@,
            day: self.day@,
            hour: self.hour@,
            minute: self.minute@,
        }
    }
}

/// What holds of every reading of the clock: the year is written as the
/// numeral of a year, and month, day, hour and minute as the numerals of a
/// month of the year, a day of the month, an hour of the day and a minute of
/// the hour. Of the two longer forms nothing is known.
pub open spec fn is_reading(clock: Clock) -> bool {
    &&& is_year_numeral(clock.year)
    &&& is_numeral_within(clock.month, 1, 12)
    &&& is_numeral_within(clock.day, 1, 31)
    &&& is_numeral_within(clock.hour, 0, 23)
    &&& is_numeral_within(clock.minute, 0, 59)
}

impl LocalTime {
    /// The local time at the moment of the call. Each reading is taken for
    /// itself, so the fields may lie a moment apart.
    pub(crate) fn now() -> (now: LocalTime)
        ensures
            is_reading(now@),
    {
        LocalTime {
            stamp: local_time_text("%a %d %b %Y, %I:%M%p"),
            iso8601: local_time_text("%+"),
            year: local_time_text("%-Y"),
            month: local_time_text("%-m"),
            day: local_time_text("%-d"),
            hour: local_time_text("%-H"),
            minute: local_time_text("%-M"),
        }
    }
}

/// Everything a template is expanded against.
pub struct Context {
    pub computer_name: Seq<char>,
    pub language: Seq<char>,
    pub minify: bool,
    pub defines: Seq<(Seq<char>, DefineValue)>,
    pub now: Clock,
}

/// The short form of a language tag.
pub open spec fn short_language(language: Seq<char>) -> Seq<char> {
    if language == "python"@ {
        "py"@
    } else if language == "cpp"@ {
        "cpp"@
    } else {
        "?"@
    }
}

/// The first `n` defines as `name=value, ` one after the other.
pub open spec fn defines_list(defines: Seq<(Seq<char>, DefineValue)>, n: int) -> Seq<char>
    decreases n,
{
    if n <= 0 || n > defines.len() {
        Seq::empty()
    } else {
        defines_list(defines, n - 1) + defines[n - 1].0 + "="@ + defines[n - 1].1.rendered()
            + ", "@
    }
}

/// What a token with the given content is replaced by; `whole` is the token as
/// it stands in the text, braces included, and is what an unknown content
/// leaves in place.
pub open spec fn replacement(content: Seq<char>, whole: Seq<char>, ctx: Context) -> Seq<char> {
    if content == "computer-name"@ {
        ctx.computer_name
    } else if content == "language"@ {
        ctx.language
    } else if content == "language::short"@ {
        short_language(ctx.language)
    } else if content == "minify"@ {
        if ctx.minify {
            "true"@
        } else {
            "false"@
        }
    } else if content == "minify::short"@ {
        if ctx.minify {
            "y"@
        } else {
            "n"@
        }
    } else if content == "time"@ {
        ctx.now.stamp
    } else if content == "time::iso8601"@ {
        ctx.now.iso8601
    } else if content == "time/year"@ {
        ctx.now.year
    } else if content == "time/month"@ {
        ctx.now.month
    } else if content == "time/day"@ {
        ctx.now.day
    } else if content == "time/hour"@ {
        ctx.now.hour
    } else if content == "time/minute"@ {
        ctx.now.minute
    } else if content == "defines::list"@ {
        defines_list(ctx.defines, ctx.defines.len() as int)
    } else if content == "defines::count"@ {
        decimal(ctx.defines.len())
    } else if names_define(content) {
        match lookup(ctx.defines, named_define(content)) {
            Some(value) => value.rendered(),
            None => whole,
        }
    } else {
        whole
    }
}

/// `content` has the form `defines/<name>`.
pub open spec fn names_define(content: Seq<char>) -> bool {
    content.len() >= "defines/"@.len() && content.subrange(0, "defines/"@.len() as int)
        == "defines/"@
}

/// The `<name>` of a content of the form `defines/<name>`.
pub open spec fn named_define(content: Seq<char>) -> Seq<char> {
    content.subrange("defines/"@.len() as int, content.len() as int)
}

/// The expansion of `s` from place `i` on.
pub open spec fn expand_from(s: Seq<char>, i: int, ctx: Context) -> Seq<char>
    decreases s.len() - i,
    via expand_from_ends
{
    if i < 0 || i >= s.len() {
        Seq::empty()
    } else {
        match token_at(s, i) {
            Some(token) => replacement(
                s.subrange(token.content_start, token.content_end),
                s.subrange(i, token.end),
                ctx,
            ) + expand_from(s, token.end, ctx),
            None => seq![s[i]] + expand_from(s, i + 1, ctx),
        }
    }
}

#[via_fn]
proof fn expand_from_ends(s: Seq<char>, i: int, ctx: Context) {
    lemma_token_bounds(s, i);
}

/// The expansion of the template `s`: every token replaced, all else kept.
pub open spec fn expand(s: Seq<char>, ctx: Context) -> Seq<char> {
    expand_from(s, 0, ctx)
}

/// `next_close` finds the first `}}` at or after `from`.
pub proof fn lemma_next_close(s: Seq<char>, from: int)
    requires
        0 <= from <= s.len(),
    ensures
        from <= next_close(s, from) <= s.len(),
        next_close(s, from) < s.len() ==> closes_at(s, next_close(s, from)),
        forall|k: int| from <= k < next_close(s, from) ==> !closes_at(s, k),
    decreases s.len() - from,
{
    if from < s.len() && !closes_at(s, from) {
        lemma_next_close(s, from + 1);
    }
}

/// A token lies within the text: its content stands between its braces, and
/// it ends behind the first `}}` after its opening.
pub proof fn lemma_token_bounds(s: Seq<char>, i: int)
    ensures
        token_at(s, i) matches Some(token) ==> {
            &&& opens_at(s, i)
            &&& i + 2 <= token.content_start <= token.content_end <= token.end - 2
            &&& token.end <= s.len()
            &&& closes_at(s, token.end - 2)
            &&& token.end - 2 == next_close(s, i + 2)
        },
{
    if opens_at(s, i) {
        lemma_next_close(s, i + 2);
        let close = next_close(s, i + 2);
        lemma_skip_spaces(s, i + 2, close);
        lemma_trim_back(s, skip_spaces(s, i + 2, close), close);
    }
}

/// Text without tokens expands to itself: where no token starts at any place
/// of `s`, the expansion of `s` is `s`.
pub proof fn law_text_without_tokens_is_kept(s: Seq<char>, ctx: Context)
    requires
        forall|i: int| (#[trigger] token_at(s, i)) is None,
    ensures
        expand(s, ctx) == s,
{
    lemma_tail_without_tokens(s, 0, ctx);
    assert(s.subrange(0, s.len() as int) =~= s);
}

proof fn lemma_tail_without_tokens(s: Seq<char>, i: int, ctx: Context)
    requires
        0 <= i <= s.len(),
        forall|k: int| (#[trigger] token_at(s, k)) is None,
    ensures
        expand_from(s, i, ctx) == s.subrange(i, s.len() as int),
    decreases s.len() - i,
{
    if i < s.len() {
        assert(token_at(s, i) is None);
        lemma_tail_without_tokens(s, i + 1, ctx);
        assert(seq![s[i]] + s.subrange(i + 1, s.len() as int) =~= s.subrange(i, s.len() as int));
    } else {
        assert(s.subrange(i, s.len() as int) =~= Seq::<char>::empty());
    }
}

/// Text in which `{{` stands nowhere expands to itself, and so does text in
/// which `}}` stands nowhere.
pub proof fn law_text_without_braces_is_kept(s: Seq<char>, ctx: Context)
    requires
        (forall|i: int| !opens_at(s, i)) || (forall|i: int| !closes_at(s, i)),
    ensures
        expand(s, ctx) == s,
{
    assert forall|i: int| (#[trigger] token_at(s, i)) is None by {
        lemma_token_bounds(s, i);
    }
    law_text_without_tokens_is_kept(s, ctx);
}

/// A token `defines/<name>` is replaced by the value entered under `name`,
/// written out, and is left as it stands where no define has that name.
pub proof fn law_define_token(name: Seq<char>, whole: Seq<char>, ctx: Context)
    ensures
        replacement("defines/"@ + name, whole, ctx) == match lookup(ctx.defines, name) {
            Some(value) => value.rendered(),
            None => whole,
        },
{
    let content = "defines/"@ + name;
    reveal_strlit("defines/");
    reveal_strlit("computer-name");
    reveal_strlit("language");
    reveal_strlit("language::short");
    reveal_strlit("minify");
    reveal_strlit("minify::short");
    reveal_strlit("time");
    reveal_strlit("time::iso8601");
    reveal_strlit("time/year");
    reveal_strlit("time/month");
    reveal_strlit("time/day");
    reveal_strlit("time/hour");
    reveal_strlit("time/minute");
    reveal_strlit("defines::list");
    reveal_strlit("defines::count");
    assert(content[0] == 'd');
    assert(content[7] == '/');
    assert(content.subrange(0, 8) =~= "defines/"@);
    assert(content.subrange(8, content.len() as int) =~= name);
}

/// Each define of a context with distinct names is what its own token
/// `defines/<name>` is replaced by.
pub proof fn law_define_token_of_entry(k: int, whole: Seq<char>, ctx: Context)
    requires
        names_distinct(ctx.defines),
        0 <= k < ctx.defines.len(),
    ensures
        replacement("defines/"@ + ctx.defines[k].0, whole, ctx) == ctx.defines[k].1.rendered(),
{
    law_define_token(ctx.defines[k].0, whole, ctx);
    lemma_lookup_at(ctx.defines, k);
}

fn find_close(chars: &Vec<char>, from: usize) -> (close: usize)
    requires
        from <= chars.len(),
    ensures
        close == next_close(chars@, from as int),
        from <= close <= chars.len(),
{
    proof {
        lemma_next_close(chars@, from as int);
    }
    let n = chars.len();
    let mut k: usize = from;
    while k < n
        invariant
            from <= k <= n,
            n == chars.len(),
            next_close(chars@, from as int) == next_close(chars@, k as int),
        decreases n - k,
    {
        if k + 1 < n && chars[k] == '}' && chars[k + 1] == '}' {
            return k;
        }
        k = k + 1;
    }
    n
}

fn holds_line_feed(chars: &Vec<char>, from: usize, to: usize) -> (r: bool)
    requires
        from <= to <= chars.len(),
    ensures
        r == chars@.subrange(from as int, to as int).contains('\n'),
{
    let ghost part = chars@.subrange(from as int, to as int);
    let mut k: usize = from;
    while k < to
        invariant
            from <= k <= to <= chars.len(),
            part == chars@.subrange(from as int, to as int),
            forall|j: int| 0 <= j < k - from ==> part[j] != '\n',
        decreases to - k,
    {
        if chars[k] == '\n' {
            assert(part[k - from] == '\n');
            return true;
        }
        k = k + 1;
    }
    false
}

/// The token that starts at place `i`, as the places where its content starts
/// and ends and the place behind it.
fn scan_token(chars: &Vec<char>, i: usize) -> (r: Option<(usize, usize, usize)>)
    requires
        i < chars.len(),
    ensures
        match r {
            Some((content_start, content_end, end)) => token_at(chars@, i as int) == Some(
                Token {
                    content_start: content_start as int,
                    content_end: content_end as int,
                    end: end as int,
                },
            ) && i + 2 <= content_start <= content_end <= end - 2 && end <= chars.len(),
            None => token_at(chars@, i as int) is None,
        },
{
    proof {
        lemma_token_bounds(chars@, i as int);
    }
    let n = chars.len();
    if i + 1 < n && chars[i] == '{' && chars[i + 1] == '{' {
        let close = find_close(chars, i + 2);
        if close < n {
            let content_start = skip_white(chars, i + 2, close);
            let content_end = trim_white(chars, content_start, close);
            if holds_line_feed(chars, content_start, content_end) {
                None
            } else {
                Some((content_start, content_end, close + 2))
            }
        } else {
            None
        }
    } else {
        None
    }
}

fn render_defines(defines: &DefineMap<ConfigDefineType>) -> (out: String)
    ensures
        out@ == defines_list(defines@, defines@.len() as int),
{
    let n = defines.len();
    let mut out = String::new();
    let mut k: usize = 0;
    while k < n
        invariant
            k <= n,
            n == defines@.len(),
            out@ == defines_list(defines@, k as int),
        decreases n - k,
    {
        out.append(defines.name(k).as_str());
        out.append("=");
        out.append(defines.value(k).to_string().as_str());
        out.append(", ");
        k = k + 1;
    }
    out
}

/// What the token `whole`, with the content `content`, is replaced by.
pub fn resolve_token(
    content: &String,
    whole: String,
    computer_name: &str,
    language: &str,
    minify: bool,
    resolved_defines: &DefineMap<ConfigDefineType>,
    now: &LocalTime,
) -> (out: String)
    ensures
        out@ == replacement(
            content@,
            whole@,
            (Context {
                computer_name: computer_name@,
                language: language@,
                minify,
                defines: resolved_defines@,
                now: now@,
            }),
        ),
{
    if is_text(content, "computer-name") {
        computer_name.to_owned()
    } else if is_text(content, "language") {
        language.to_owned()
    } else if is_text(content, "language::short") {
        let tag = language.to_owned();
        if is_text(&tag, "python") {
            "py".to_owned()
        } else if is_text(&tag, "cpp") {
            "cpp".to_owned()
        } else {
            "?".to_owned()
        }
    } else if is_text(content, "minify") {
        if minify {
            "true".to_owned()
        } else {
            "false".to_owned()
        }
    } else if is_text(content, "minify::short") {
        if minify {
            "y".to_owned()
        } else {
            "n".to_owned()
        }
    } else if is_text(content, "time") {
        now.stamp.clone()
    } else if is_text(content, "time::iso8601") {
        now.iso8601.clone()
    } else if is_text(content, "time/year") {
        now.year.clone()
    } else if is_text(content, "time/month") {
        now.month.clone()
    } else if is_text(content, "time/day") {
        now.day.clone()
    } else if is_text(content, "time/hour") {
        now.hour.clone()
    } else if is_text(content, "time/minute") {
        now.minute.clone()
    } else if is_text(content, "defines::list") {
        render_defines(resolved_defines)
    } else if is_text(content, "defines::count") {
        decimal_string(resolved_defines.len())
    } else {
        proof {
            reveal_strlit("defines/");
        }
        let chars = chars_of(content.as_str());
        if chars.len() >= 8 && is_text(&string_of(&chars, 0, 8), "defines/") {
            let name = string_of(&chars, 8, chars.len());
            match resolved_defines.get(&name) {
                Some(value) => value.to_string(),
                None => whole,
            }
        } else {
            whole
        }
    }
}

/// Expands `template` against the given context, with `now` for the time
/// tokens.
pub fn evaluate_template_at(
    template: &str,
    computer_name: &str,
    language: &str,
    minify: bool,
    resolved_defines: &DefineMap<ConfigDefineType>,
    now: &LocalTime,
) -> (out: String)
    ensures
        out@ == expand(
            template@,
            (Context {
                computer_name: computer_name@,
                language: language@,
                minify,
                defines: resolved_defines@,
                now: now@,
            }),
        ),
{
    let ghost ctx = Context {
        computer_name: computer_name@,
        language: language@,
        minify,
        defines: resolved_defines@,
        now: now@,
    };
    let chars = chars_of(template);
    let n = chars.len();
    let mut out = String::new();
    let mut i: usize = 0;
    while i < n
        invariant
            i <= n,
            n == chars.len(),
            chars@ == template@,
            ctx == (Context {
                computer_name: computer_name@,
                language: language@,
                minify,
                defines: resolved_defines@,
                now: now@,
            }),
            out@ + expand_from(chars@, i as int, ctx) == expand(chars@, ctx),
        decreases n - i,
    {
        match scan_token(&chars, i) {
            Some((content_start, content_end, end)) => {
                let content = string_of(&chars, content_start, content_end);
                let whole = string_of(&chars, i, end);
                let piece = resolve_token(
                    &content,
                    whole,
                    computer_name,
                    language,
                    minify,
                    resolved_defines,
                    now,
                );
                let ghost before = out@;
                out.append(piece.as_str());
                assert(out@ + expand_from(chars@, end as int, ctx) =~= before + expand_from(
                    chars@,
                    i as int,
                    ctx,
                ));
                i = end;
            },
            None => {
                let ghost before = out@;
                out.push(chars[i]);
                assert(out@ + expand_from(chars@, i + 1, ctx) =~= before + expand_from(
                    chars@,
                    i as int,
                    ctx,
                ));
                i = i + 1;
            },
        }
    }
    assert(out@ =~= out@ + expand_from(chars@, i as int, ctx));
    out
}

/// Expands `template` against the given context, reading the local clock for
/// the time tokens.
pub fn evaluate_template(
    template: &str,
    computer_name: &str,
    language: &str,
    minify: bool,
    resolved_defines: &DefineMap<ConfigDefineType>,
) -> (out: String)
    ensures
        exists|now: Clock|
            out@ == expand(
                template@,
                (Context {
                    computer_name: computer_name@,
                    language: language@,
                    minify,
                    defines: resolved_defines@,
                    now,
                }),
            ),
{
    let now = LocalTime::now();
    evaluate_template_at(template, computer_name, language, minify, resolved_defines, &now)
}

} // verus!
