//! Command tokens: extraction from comment text, and the try-branch that
//! each recognised token selects.

use vstd::prelude::*;
use crate::text::decimal;
use crate::text::decimal_string;

verus! {

/// Pattern of a mention of the bot followed by a command word of letters,
/// digits, `_` and `-`; the word is the first capture group.
pub const BOT_MENTION_PATTERN: &'static str = "@bot\\s+([\\w-]+)";

/// Branch prefix of the `try` command.
pub const TRY_PREFIX: &'static str = "automation/bot/try";

/// Branch prefix of the `try-merge` command.
pub const TRY_MERGE_PREFIX: &'static str = "automation/bot/try-merge";

/// First capture group of the leftmost match of regular expression
/// `pattern` in `text`; `None` where the pattern does not compile, does not
/// match, or its group takes no part in the match.
pub uninterp spec fn first_capture_of(pattern: Seq<char>, text: Seq<char>) -> Option<Seq<char>>;

/// Lower-case mapping of `s` under Unicode's rules.
pub uninterp spec fn lower_of(s: Seq<char>) -> Seq<char>;

/// Relies on regex::Regex::new, Regex::captures and Captures::get: the text
/// of group 1 of the leftmost match, or nothing. Compilation and matching
/// depend on the pattern and the text alone.
#[verifier::external_body]
fn first_capture(pattern: &str, text: &str) -> (r: Option<String>)
    ensures
        r is None <==> first_capture_of(pattern@, text@) is None,
        r matches Some(c) ==> c@ == first_capture_of(pattern@, text@)->0,
{
    let re = regex::Regex::new(pattern).ok()?;
    let caps = re.captures(text)?;
    caps.get(1).map(|m| m.as_str().to_string())
}

/// Relies on str::to_lowercase: the result depends on the characters alone.
#[verifier::external_body]
fn lowercase(s: &str) -> (r: String)
    ensures
        r@ == lower_of(s@),
{
    s.to_lowercase()
}

/// The command a comment carries: the lower-cased word after the first
/// mention of the bot.
pub open spec fn command_of(pattern: Seq<char>, text: Seq<char>) -> Option<Seq<char>> {
    match first_capture_of(pattern, text) {
        Some(word) => Some(lower_of(word)),
        None => None,
    }
}

/// Extracts command tokens from comment bodies.
#[derive(Debug, Clone)]
pub struct CommandProcessor {
    bot_mention_pattern: String,
}

impl CommandProcessor {
    /// The pattern that this processor matches comments against.
    pub closed spec fn pattern(&self) -> Seq<char> {
        self.bot_mention_pattern@
    }

    /// A processor that looks for a mention of the bot.
    pub fn new() -> (r: CommandProcessor)
        ensures
            r.pattern() == BOT_MENTION_PATTERN@,
    {
        CommandProcessor { bot_mention_pattern: String::from_str(BOT_MENTION_PATTERN) }
    }

    /// The lower-cased command word of `comment_body`, if it mentions the bot.
    pub fn parse_command(&self, comment_body: &str) -> (r: Option<String>)
        ensures
            r is None <==> command_of(self.pattern(), comment_body@) is None,
            r matches Some(c) ==> c@ == command_of(self.pattern(), comment_body@)->0,
    {
        match first_capture(self.bot_mention_pattern.as_str(), comment_body) {
            Some(word) => Some(lowercase(word.as_str())),
            None => None,
        }
    }
}

/// The branch prefix that a command token selects; `None` for a token that
/// is not a command of the bot.
pub open spec fn prefix_of(token: Seq<char>) -> Option<Seq<char>> {
    if token == "try"@ {
        Some(TRY_PREFIX@)
    } else if token == "try-merge"@ {
        Some(TRY_MERGE_PREFIX@)
    } else {
        None
    }
}

/// Branch prefix of a command token; unknown tokens select nothing.
pub fn command_prefix(token: &str) -> (r: Option<&'static str>)
    ensures
        r is None <==> prefix_of(token@) is None,
        r matches Some(p) ==> p@ == prefix_of(token@)->0,
{
    let t = String::from_str(token);
    if t == String::from_str("try") {
        Some(TRY_PREFIX)
    } else if t == String::from_str("try-merge") {
        Some(TRY_MERGE_PREFIX)
    } else {
        None
    }
}

/// The try-branch name of a pull request: `<prefix>/<number>`.
pub open spec fn branch_name_spec(prefix: Seq<char>, pr_number: int) -> Seq<char> {
    prefix + seq!['/'] + decimal(pr_number)
}

/// Builds the try-branch name for `pr_number` under `prefix`.
pub fn branch_name(prefix: &str, pr_number: i32) -> (r: String)
    ensures
        r@ == branch_name_spec(prefix@, pr_number as int),
{
    proof { reveal_strlit("/"); }
    let number = decimal_string(pr_number as i64);
    let r = String::from_str(prefix).concat("/").concat(number.as_str());
    assert(r@ =~= prefix@ + seq!['/'] + decimal(pr_number as int));
    r
}

} // verus!
