//! The command line of the external syntax highlighter.
use vstd::prelude::*;

verus! {

/// The whitespace-separated words of `s`, in order, as std splits them.
pub uninterp spec fn words_of(s: Seq<char>) -> Seq<Seq<char>>;

pub open spec fn words_view(v: Seq<String>) -> Seq<Seq<char>> {
    v.map_values(|w: String| w@)
}

/// Relies on `str::split_whitespace`: the words of `s`, in order.
#[verifier::external_body]
fn split_words(s: &str) -> (r: Vec<String>)
    ensures
        words_view(r@) == words_of(s@),
{
    s.split_whitespace().map(|w| w.to_string()).collect()
}

/// Program and arguments for a highlighter configured as `config`: its words
/// followed by `--`; none when `config` holds no word, which disables
/// highlighting.
pub open spec fn invocation_of(config: Seq<char>) -> Option<Seq<Seq<char>>> {
    if words_of(config).len() == 0 {
        None
    } else {
        Some(words_of(config).push("--"@))
    }
}

/// Splits the highlighter configuration into program and arguments, and adds
/// the `--` that ends the options; `None` when highlighting is disabled.
pub fn highlighter_invocation(config: &str) -> (r: Option<Vec<String>>)
    ensures
        match r {
            Some(v) => invocation_of(config@) == Some(words_view(v@)),
            None => invocation_of(config@) is None,
        },
{
    let mut words = split_words(config);
    if words.len() == 0 {
        None
    } else {
        let ghost before = words@;
        words.push(String::from_str("--"));
        assert(words_view(words@) =~= words_view(before).push("--"@));
        Some(words)
    }
}

} // verus!
