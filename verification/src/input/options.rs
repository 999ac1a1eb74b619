//! The slash commands offered by the dropdown.

use vstd::prelude::*;

use crate::text::{
    chars_of, is_whitespace, lemma_trim_end_index, lemma_trim_start_index, string_of_range, trim,
    trim_end_by, trim_start_by, trimmed_range, whitespace_pred,
};

verus! {

broadcast use vstd::string::group_string_axioms;

/// A slash command and the description shown next to it.
#[derive(Debug, Clone, PartialEq, Eq)]
pub struct InputOption {
    /// The command, without its leading `/`.
    pub command: String,
    pub description: String,
}

/// The mathematical value of an [`InputOption`].
pub struct OptionModel {
    pub command: Seq<char>,
    pub description: Seq<char>,
}

impl View for InputOption {
    type V = OptionModel;

    open spec fn view(&self) -> OptionModel {
        OptionModel { command: self.command@, description: self.description@ }
    }
}

/// The test for a leading slash, as a predicate value.
pub open spec fn slash_pred() -> spec_fn(char) -> bool {
    |c: char| c == '/'
}

/// A command as the user wrote it, trimmed and without its leading slashes.
pub open spec fn normalize_command(command: Seq<char>) -> Seq<char> {
    trim_start_by(trim(command), slash_pred())
}

/// The views of a sequence of options.
pub open spec fn options_view(options: Seq<InputOption>) -> Seq<OptionModel> {
    options.map_values(|o: InputOption| o@)
}

/// The options of `options` whose command is not empty, in order.
pub open spec fn non_empty_options(options: Seq<OptionModel>) -> Seq<OptionModel>
    decreases options.len(),
{
    if options.len() == 0 {
        Seq::empty()
    } else {
        let prev = non_empty_options(options.drop_last());
        if options.last().command.len() > 0 {
            prev.push(options.last())
        } else {
            prev
        }
    }
}

/// Every option kept by [`non_empty_options`] has a command.
pub proof fn lemma_non_empty_options(options: Seq<OptionModel>)
    ensures
        forall|i: int|
            0 <= i < non_empty_options(options).len() ==> (#[trigger] non_empty_options(
                options,
            )[i]).command.len() > 0,
    decreases options.len(),
{
    if options.len() > 0 {
        let prev = non_empty_options(options.drop_last());
        lemma_non_empty_options(options.drop_last());
        let last = options.last();
        if last.command.len() > 0 {
            assert forall|i: int| 0 <= i < prev.push(last).len() implies (#[trigger] prev.push(
                last,
            )[i]).command.len() > 0 by {
                if i < prev.len() {
                    assert(prev.push(last)[i] == prev[i]);
                }
            }
        }
    }
}

impl InputOption {
    /// An option for `command` (trimmed, leading slashes removed) described
    /// by `description` (trimmed).
    pub fn new(command: &str, description: &str) -> (r: Self)
        ensures
            r@.command == normalize_command(command@),
            r@.description == trim(description@),
    {
        InputOption {
            command: normalize_command_str(command),
            description: trim_str(description),
        }
    }

    /// Whether the command is empty.
    pub fn is_empty(&self) -> (r: bool)
        ensures
            r == (self@.command.len() == 0),
    {
        self.command.as_str().is_empty()
    }
}

impl From<&str> for InputOption {
    /// An option for the command `value`, with no description.
    fn from(value: &str) -> (r: Self)
        ensures
            r@.command == normalize_command(value@),
            r@.description == Seq::<char>::empty(),
    {
        let r = InputOption::new(value, "");
        proof {
            reveal_strlit("");
            assert(trim(Seq::<char>::empty()) =~= Seq::<char>::empty());
        }
        r
    }
}

impl vstd::std_specs::convert::FromSpecImpl<&str> for InputOption {
    /// `from` states its result over the view; the value itself is not
    /// claimed here, as two strings with the same characters are not known
    /// to be one value.
    open spec fn obeys_from_spec() -> bool {
        false
    }

    open spec fn from_spec(v: &str) -> Self {
        choose|o: InputOption| #[trigger] o@ == (OptionModel { command: normalize_command(v@), description: Seq::<char>::empty() })
    }
}

impl From<String> for InputOption {
    /// An option for the command `value`, with no description.
    fn from(value: String) -> (r: Self)
        ensures
            r@.command == normalize_command(value@),
            r@.description == Seq::<char>::empty(),
    {
        let r = InputOption::new(value.as_str(), "");
        proof {
            reveal_strlit("");
            assert(trim(Seq::<char>::empty()) =~= Seq::<char>::empty());
        }
        r
    }
}

impl vstd::std_specs::convert::FromSpecImpl<String> for InputOption {
    /// `from` states its result over the view; the value itself is not
    /// claimed here, as two strings with the same characters are not known
    /// to be one value.
    open spec fn obeys_from_spec() -> bool {
        false
    }

    open spec fn from_spec(v: String) -> Self {
        choose|o: InputOption| #[trigger] o@ == (OptionModel { command: normalize_command(v@), description: Seq::<char>::empty() })
    }
}

impl From<(&str, &str)> for InputOption {
    /// An option for the command `pair.0` described by `pair.1`.
    fn from(pair: (&str, &str)) -> (r: Self)
        ensures
            r@.command == normalize_command(pair.0@),
            r@.description == trim(pair.1@),
    {
        InputOption::new(pair.0, pair.1)
    }
}

impl vstd::std_specs::convert::FromSpecImpl<(&str, &str)> for InputOption {
    /// `from` states its result over the view; the value itself is not
    /// claimed here, as two strings with the same characters are not known
    /// to be one value.
    open spec fn obeys_from_spec() -> bool {
        false
    }

    open spec fn from_spec(v: (&str, &str)) -> Self {
        choose|o: InputOption| #[trigger] o@ == (OptionModel { command: normalize_command(v.0@), description: trim(v.1@) })
    }
}

impl From<(String, String)> for InputOption {
    /// An option for the command `pair.0` described by `pair.1`.
    fn from(pair: (String, String)) -> (r: Self)
        ensures
            r@.command == normalize_command(pair.0@),
            r@.description == trim(pair.1@),
    {
        InputOption::new(pair.0.as_str(), pair.1.as_str())
    }
}

impl vstd::std_specs::convert::FromSpecImpl<(String, String)> for InputOption {
    /// `from` states its result over the view; the value itself is not
    /// claimed here, as two strings with the same characters are not known
    /// to be one value.
    open spec fn obeys_from_spec() -> bool {
        false
    }

    open spec fn from_spec(v: (String, String)) -> Self {
        choose|o: InputOption| #[trigger] o@ == (OptionModel { command: normalize_command(v.0@), description: trim(v.1@) })
    }
}

impl From<(String, &str)> for InputOption {
    /// An option for the command `pair.0` described by `pair.1`.
    fn from(pair: (String, &str)) -> (r: Self)
        ensures
            r@.command == normalize_command(pair.0@),
            r@.description == trim(pair.1@),
    {
        InputOption::new(pair.0.as_str(), pair.1)
    }
}

impl vstd::std_specs::convert::FromSpecImpl<(String, &str)> for InputOption {
    /// `from` states its result over the view; the value itself is not
    /// claimed here, as two strings with the same characters are not known
    /// to be one value.
    open spec fn obeys_from_spec() -> bool {
        false
    }

    open spec fn from_spec(v: (String, &str)) -> Self {
        choose|o: InputOption| #[trigger] o@ == (OptionModel { command: normalize_command(v.0@), description: trim(v.1@) })
    }
}

impl From<(&str, String)> for InputOption {
    /// An option for the command `pair.0` described by `pair.1`.
    fn from(pair: (&str, String)) -> (r: Self)
        ensures
            r@.command == normalize_command(pair.0@),
            r@.description == trim(pair.1@),
    {
        InputOption::new(pair.0, pair.1.as_str())
    }
}

impl vstd::std_specs::convert::FromSpecImpl<(&str, String)> for InputOption {
    /// `from` states its result over the view; the value itself is not
    /// claimed here, as two strings with the same characters are not known
    /// to be one value.
    open spec fn obeys_from_spec() -> bool {
        false
    }

    open spec fn from_spec(v: (&str, String)) -> Self {
        choose|o: InputOption| #[trigger] o@ == (OptionModel { command: normalize_command(v.0@), description: trim(v.1@) })
    }
}

/// `text` without leading and trailing white space.
fn trim_str(text: &str) -> (s: String)
    ensures
        s@ == trim(text@),
{
    let v = chars_of(text);
    let (lo, hi) = trimmed_range(&v, 0);
    assert(v@.skip(0) =~= v@);
    string_of_range(&v, lo, hi)
}

/// `command` trimmed and without its leading slashes.
fn normalize_command_str(command: &str) -> (s: String)
    ensures
        s@ == normalize_command(command@),
{
    let v = chars_of(command);
    let (lo, hi) = trimmed_range(&v, 0);
    assert(v@.skip(0) =~= v@);
    let mut start = lo;
    while start < hi && v[start] == '/'
        invariant
            lo <= start <= hi <= v@.len(),
            forall|k: int| lo <= k < start ==> #[trigger] v@[k] == '/',
        decreases hi - start,
    {
        start = start + 1;
    }
    proof {
        let t = v@.subrange(lo as int, hi as int);
        let p = slash_pred();
        assert forall|k: int| 0 <= k < start - lo implies p(#[trigger] t[k]) by {
            assert(t[k] == v@[lo + k]);
        }
        lemma_trim_start_index(t, start - lo, p);
        let u = t.skip(start - lo);
        assert(u =~= v@.subrange(start as int, hi as int));
        if u.len() > 0 {
            assert(u[0] == v@[start as int]);
            assert(!p(u[0]));
        }
        assert(trim_start_by(u, p) == u);
    }
    string_of_range(&v, start, hi)
}

/// The options with a non-empty command, in order.
pub fn collect_options(options: Vec<InputOption>) -> (r: Vec<InputOption>)
    ensures
        options_view(r@) == non_empty_options(options_view(options@)),
{
    let mut r: Vec<InputOption> = Vec::new();
    let ghost all = options@;
    for option in it: options
        invariant
            it.seq() == all,
            options_view(r@) == non_empty_options(options_view(all.take(it.index() as int))),
    {
        proof {
            assert(options_view(all.take(it.index() + 1)).drop_last() =~= options_view(
                all.take(it.index() as int),
            ));
        }
        if !option.is_empty() {
            r.push(option);
        }
        assert(options_view(r@) =~= non_empty_options(options_view(all.take(it.index() + 1))));
    }
    assert(all.take(all.len() as int) =~= all);
    r
}

/// The lines, in order.
pub fn collect_lines(lines: Vec<String>) -> (r: Vec<String>)
    ensures
        r@ == lines@,
{
    lines
}

/// A command is kept as written once the white space around it and the
/// slashes in front of it are taken away: `"  //help "` is `help`.
pub proof fn law_command_drops_spaces_and_slashes(pre: Seq<char>, slashes: nat, word: Seq<char>, post: Seq<char>)
    requires
        forall|k: int| 0 <= k < pre.len() ==> is_whitespace(#[trigger] pre[k]),
        forall|k: int| 0 <= k < post.len() ==> is_whitespace(#[trigger] post[k]),
        word.len() > 0,
        word[0] != '/',
        !is_whitespace(word[0]),
        !is_whitespace(word.last()),
    ensures
        normalize_command(pre + Seq::new(slashes, |_k: int| '/') + word + post) == word,
{
    let sl = Seq::new(slashes, |_k: int| '/');
    let c = pre + sl + word + post;
    let ws = whitespace_pred();
    lemma_trim_start_index(c, pre.len() as int, ws);
    let rest = c.skip(pre.len() as int);
    assert(rest =~= sl + word + post);
    assert(!is_whitespace('/'));
    assert(rest.len() > 0 && !ws(rest[0])) by {
        if slashes > 0 {
            assert(rest[0] == '/');
        } else {
            assert(rest[0] == word[0]);
        }
    }
    assert(trim_start_by(rest, ws) == rest);
    let mid = sl + word;
    assert(forall|k: int| mid.len() <= k < rest.len() ==> ws(#[trigger] rest[k])) by {
        assert forall|k: int| mid.len() <= k < rest.len() implies ws(#[trigger] rest[k]) by {
            assert(rest[k] == post[k - mid.len()]);
        }
    }
    lemma_trim_end_index(rest, mid.len() as int, ws);
    assert(rest.take(mid.len() as int) =~= mid);
    assert(mid.last() == word.last());
    assert(trim_end_by(mid, ws) == mid);
    assert(trim(c) == mid);
    assert(forall|k: int| 0 <= k < slashes ==> slash_pred()(#[trigger] mid[k]));
    lemma_trim_start_index(mid, slashes as int, slash_pred());
    assert(mid.skip(slashes as int) =~= word);
    assert(trim_start_by(word, slash_pred()) == word);
}

} // verus!
