//! The command model: the three subcommands, their flags and defaults, and a
//! parser from argument tokens to a typed command.

use vstd::prelude::*;

verus! {

/// The subcommand that a command line names.
#[derive(Clone, Copy, Debug, PartialEq, Eq, Structural)]
pub enum Subcommand {
    FetchData,
    Coaching,
    Example,
}

/// What the subcommand token `name` selects, if anything.
pub open spec fn subcommand_of(name: Seq<char>) -> Option<Subcommand> {
    if name == "fetch-data"@ {
        Some(Subcommand::FetchData)
    } else if name == "coaching"@ {
        Some(Subcommand::Coaching)
    } else if name == "example"@ {
        Some(Subcommand::Example)
    } else {
        None
    }
}

/// The long form of the one flag that subcommand `s` takes.
pub open spec fn long_flag(s: Subcommand) -> Seq<char> {
    match s {
        Subcommand::FetchData => "--data-type"@,
        Subcommand::Coaching => "--coaching-type"@,
        Subcommand::Example => "--example-type"@,
    }
}

/// The short form of the one flag that subcommand `s` takes.
pub open spec fn short_flag(s: Subcommand) -> Seq<char> {
    match s {
        Subcommand::FetchData => "-d"@,
        Subcommand::Coaching => "-c"@,
        Subcommand::Example => "-e"@,
    }
}

/// The kind that subcommand `s` gets when its flag is left out.
pub open spec fn default_kind(s: Subcommand) -> Seq<char> {
    match s {
        Subcommand::FetchData => "activities"@,
        Subcommand::Coaching => "activity"@,
        Subcommand::Example => "data"@,
    }
}

/// A token that can stand as a flag's value on its own: non-empty, and not
/// itself shaped like a flag.
pub open spec fn is_value_token(v: Seq<char>) -> bool {
    v.len() > 0 && v[0] != '-'
}

/// What follows `prefix` in `tok`, where `tok` starts with `prefix` and is
/// longer than it.
pub open spec fn after_prefix(tok: Seq<char>, prefix: Seq<char>) -> Option<Seq<char>> {
    if tok.len() > prefix.len() && tok.subrange(0, prefix.len() as int) == prefix {
        Some(tok.subrange(prefix.len() as int, tok.len() as int))
    } else {
        None
    }
}

/// The value of a `<long>=<value>` token with a non-empty value.
pub open spec fn assigned_value(tok: Seq<char>, long: Seq<char>) -> Option<Seq<char>> {
    after_prefix(tok, long.push('='))
}

/// The value of a `<short><value>` or `<short>=<value>` token with a
/// non-empty value.
pub open spec fn attached_value(tok: Seq<char>, short: Seq<char>) -> Option<Seq<char>> {
    match after_prefix(tok, short) {
        Some(v) => if v[0] != '=' {
            Some(v)
        } else if v.len() > 1 {
            Some(v.drop_first())
        } else {
            None
        },
        None => None,
    }
}

/// The value that the single token `tok` gives the flag of subcommand `s`.
pub open spec fn single_token_value(s: Subcommand, tok: Seq<char>) -> Option<Seq<char>> {
    match assigned_value(tok, long_flag(s)) {
        Some(v) => Some(v),
        None => attached_value(tok, short_flag(s)),
    }
}

/// The kind that the tokens `rest` after subcommand `s` give: the default when
/// there are none, else the value of exactly one occurrence of the flag.
pub open spec fn flag_value(s: Subcommand, rest: Seq<Seq<char>>) -> Option<Seq<char>> {
    if rest.len() == 0 {
        Some(default_kind(s))
    } else if rest.len() == 1 {
        single_token_value(s, rest[0])
    } else if rest.len() == 2 && (rest[0] == long_flag(s) || rest[0] == short_flag(s))
        && is_value_token(rest[1]) {
        Some(rest[1])
    } else {
        None
    }
}

/// Why a command line was not accepted.
#[derive(Clone, Copy, Debug, PartialEq, Eq, Structural)]
pub enum ParseError {
    /// No subcommand was given.
    MissingSubcommand,
    /// The first token names none of the subcommands.
    UnknownSubcommand,
    /// The subcommand is known, but what follows it is not one well-formed flag.
    InvalidFlags,
}

/// What a command line means: the subcommand and its kind, or why it is refused.
pub open spec fn parse_spec(args: Seq<Seq<char>>) -> Result<(Subcommand, Seq<char>), ParseError> {
    if args.len() == 0 {
        Err(ParseError::MissingSubcommand)
    } else {
        match subcommand_of(args[0]) {
            None => Err(ParseError::UnknownSubcommand),
            Some(s) => match flag_value(s, args.drop_first()) {
                Some(k) => Ok((s, k)),
                None => Err(ParseError::InvalidFlags),
            },
        }
    }
}

/// One user request: a subcommand with its kind. A command that `parse`
/// gives has a non-empty kind (`wf`).
#[derive(Debug)]
pub enum Command {
    /// Retrieve data; the kind is a descriptive hint (activities, health, stats).
    FetchData { kind: String },
    /// Get coaching feedback; the kind is a topic (activity, health, plan).
    Coaching { kind: String },
    /// Run an example; only the kinds `data` and `ai` are supported.
    Example { kind: String },
}

impl View for Command {
    type V = (Subcommand, Seq<char>);

    open spec fn view(&self) -> (Subcommand, Seq<char>) {
        match self {
            Command::FetchData { kind } => (Subcommand::FetchData, kind@),
            Command::Coaching { kind } => (Subcommand::Coaching, kind@),
            Command::Example { kind } => (Subcommand::Example, kind@),
        }
    }
}

impl Command {
    /// The kind is present and non-empty.
    pub open spec fn wf(&self) -> bool {
        self@.1.len() > 0
    }

    /// The command of subcommand `s` with the given kind.
    pub fn new(s: Subcommand, kind: String) -> (c: Command)
        ensures
            c@ == (s, kind@),
    {
        match s {
            Subcommand::FetchData => Command::FetchData { kind },
            Subcommand::Coaching => Command::Coaching { kind },
            Subcommand::Example => Command::Example { kind },
        }
    }

    /// The subcommand this command belongs to.
    pub fn subcommand(&self) -> (s: Subcommand)
        ensures
            s == self@.0,
    {
        match self {
            Command::FetchData { .. } => Subcommand::FetchData,
            Command::Coaching { .. } => Subcommand::Coaching,
            Command::Example { .. } => Subcommand::Example,
        }
    }

    /// The kind this command carries.
    pub fn kind(&self) -> (k: &String)
        ensures
            k@ == self@.1,
    {
        match self {
            Command::FetchData { kind } => kind,
            Command::Coaching { kind } => kind,
            Command::Example { kind } => kind,
        }
    }
}

/// Whether two texts are equal, character by character.
fn same_text(a: &str, b: &str) -> (r: bool)
    ensures
        r == (a@ == b@),
{
    let n = a.unicode_len();
    if n != b.unicode_len() {
        return false;
    }
    let mut i: usize = 0;
    while i < n
        invariant
            n == a@.len(),
            n == b@.len(),
            i <= n,
            forall|j: int| 0 <= j < i ==> a@[j] == b@[j],
        decreases n - i,
    {
        if a.get_char(i) != b.get_char(i) {
            return false;
        }
        i = i + 1;
    }
    assert(a@ =~= b@);
    true
}

/// The subcommand that the token `name` selects, if any.
pub fn subcommand_from(name: &str) -> (r: Option<Subcommand>)
    ensures
        r == subcommand_of(name@),
{
    if same_text(name, "fetch-data") {
        Some(Subcommand::FetchData)
    } else if same_text(name, "coaching") {
        Some(Subcommand::Coaching)
    } else if same_text(name, "example") {
        Some(Subcommand::Example)
    } else {
        None
    }
}

/// The long form of the flag of subcommand `s`.
pub fn long_flag_text(s: Subcommand) -> (r: &'static str)
    ensures
        r@ == long_flag(s),
{
    match s {
        Subcommand::FetchData => "--data-type",
        Subcommand::Coaching => "--coaching-type",
        Subcommand::Example => "--example-type",
    }
}

/// The short form of the flag of subcommand `s`.
pub fn short_flag_text(s: Subcommand) -> (r: &'static str)
    ensures
        r@ == short_flag(s),
{
    match s {
        Subcommand::FetchData => "-d",
        Subcommand::Coaching => "-c",
        Subcommand::Example => "-e",
    }
}

/// The kind that subcommand `s` gets when its flag is left out.
pub fn default_kind_text(s: Subcommand) -> (r: &'static str)
    ensures
        r@ == default_kind(s),
        r@.len() > 0,
{
    proof {
        reveal_strlit("activities");
        reveal_strlit("activity");
        reveal_strlit("data");
    }
    match s {
        Subcommand::FetchData => "activities",
        Subcommand::Coaching => "activity",
        Subcommand::Example => "data",
    }
}

/// The long form of the flag of subcommand `s`, followed by `=`.
fn long_assign_text(s: Subcommand) -> (r: &'static str)
    ensures
        r@ == long_flag(s).push('='),
{
    proof {
        reveal_strlit("--data-type");
        reveal_strlit("--coaching-type");
        reveal_strlit("--example-type");
        reveal_strlit("--data-type=");
        reveal_strlit("--coaching-type=");
        reveal_strlit("--example-type=");
    }
    match s {
        Subcommand::FetchData => {
            assert("--data-type="@ =~= "--data-type"@.push('='));
            "--data-type="
        },
        Subcommand::Coaching => {
            assert("--coaching-type="@ =~= "--coaching-type"@.push('='));
            "--coaching-type="
        },
        Subcommand::Example => {
            assert("--example-type="@ =~= "--example-type"@.push('='));
            "--example-type="
        },
    }
}

/// What follows `prefix` in `tok`, where `tok` starts with it and is longer.
fn text_after_prefix<'a>(tok: &'a str, prefix: &str) -> (r: Option<&'a str>)
    ensures
        match r {
            Some(v) => after_prefix(tok@, prefix@) == Some(v@),
            None => after_prefix(tok@, prefix@) is None,
        },
{
    let t = tok.unicode_len();
    let n = prefix.unicode_len();
    if t <= n {
        return None;
    }
    let mut i: usize = 0;
    while i < n
        invariant
            t == tok@.len(),
            n == prefix@.len(),
            n < t,
            i <= n,
            forall|j: int| 0 <= j < i ==> tok@[j] == prefix@[j],
        decreases n - i,
    {
        if tok.get_char(i) != prefix.get_char(i) {
            assert(tok@.subrange(0, n as int)[i as int] != prefix@[i as int]);
            return None;
        }
        i = i + 1;
    }
    assert(tok@.subrange(0, n as int) =~= prefix@);
    Some(tok.substring_char(n, t))
}

/// The value that the single token `tok` gives the flag of subcommand `s`.
fn single_token_text(s: Subcommand, tok: &str) -> (r: Option<String>)
    ensures
        match r {
            Some(v) => single_token_value(s, tok@) == Some(v@),
            None => single_token_value(s, tok@) is None,
        },
{
    if let Some(v) = text_after_prefix(tok, long_assign_text(s)) {
        return Some(v.to_owned());
    }
    match text_after_prefix(tok, short_flag_text(s)) {
        Some(v) => {
            if v.get_char(0) != '=' {
                Some(v.to_owned())
            } else if v.unicode_len() > 1 {
                let n = v.unicode_len();
                let w = v.substring_char(1, n);
                assert(w@ =~= v@.drop_first());
                Some(w.to_owned())
            } else {
                None
            }
        },
        None => None,
    }
}

/// Whether `v` can stand as a flag's value on its own.
fn value_token(v: &str) -> (r: bool)
    ensures
        r == is_value_token(v@),
{
    v.unicode_len() > 0 && v.get_char(0) != '-'
}

/// Parses the tokens of a command line, the subcommand first, into a command.
/// Parsing has no effect besides its result.
pub fn parse(args: &Vec<String>) -> (r: Result<Command, ParseError>)
    ensures
        match parse_spec(args.deep_view()) {
            Ok(v) => r matches Ok(c) && c@ == v,
            Err(e) => r == Err::<Command, ParseError>(e),
        },
        r matches Ok(c) ==> c.wf(),
{
    let ghost a = args.deep_view();
    if args.len() == 0 {
        return Err(ParseError::MissingSubcommand);
    }
    let s = match subcommand_from(args[0].as_str()) {
        Some(s) => s,
        None => return Err(ParseError::UnknownSubcommand),
    };
    let ghost rest = a.drop_first();
    assert(rest.len() == args.len() - 1);
    let long = long_flag_text(s);
    let kind: Option<String> = if args.len() == 1 {
        Some(default_kind_text(s).to_owned())
    } else if args.len() == 2 {
        assert(rest[0] == args[1]@);
        single_token_text(s, args[1].as_str())
    } else if args.len() == 3 {
        assert(rest[0] == args[1]@ && rest[1] == args[2]@);
        let flag = args[1].as_str();
        if (same_text(flag, long) || same_text(flag, short_flag_text(s)))
            && value_token(args[2].as_str()) {
            Some(args[2].clone())
        } else {
            None
        }
    } else {
        None
    };
    match kind {
        Some(k) => Ok(Command::new(s, k)),
        None => Err(ParseError::InvalidFlags),
    }
}

/// A command line that names a known subcommand and nothing else parses to
/// that subcommand with its default kind; and whatever parses successfully
/// parses to exactly one subcommand with a non-empty kind.
pub proof fn lemma_parse_applies_defaults(args: Seq<Seq<char>>)
    ensures
        args.len() == 1 && subcommand_of(args[0]) is Some ==> parse_spec(args) == Ok::<
            (Subcommand, Seq<char>),
            ParseError,
        >((subcommand_of(args[0])->0, default_kind(subcommand_of(args[0])->0))),
        parse_spec(args) matches Ok(v) ==> subcommand_of(args[0]) == Some(v.0) && v.1.len() > 0,
{
    reveal_strlit("activities");
    reveal_strlit("activity");
    reveal_strlit("data");
}

/// A command line whose first token names no subcommand is refused, whatever
/// follows it; an empty one is refused too. Parsing has no other effect, so
/// nothing is run for either.
pub proof fn lemma_parse_rejects_unknown(args: Seq<Seq<char>>)
    ensures
        args.len() == 0 ==> parse_spec(args) == Err::<(Subcommand, Seq<char>), ParseError>(
            ParseError::MissingSubcommand,
        ),
        args.len() > 0 && subcommand_of(args[0]) is None ==> parse_spec(args) == Err::<
            (Subcommand, Seq<char>),
            ParseError,
        >(ParseError::UnknownSubcommand),
{
}

} // verus!
