//! The validated configuration of one run, built from the values given on
//! the command line.

use crate::entry::{token_type, EntryType};
use crate::pattern::{compiles, NamePattern};
use vstd::prelude::*;

verus! {

/// Whether every pattern text compiles.
pub open spec fn names_valid(names: Seq<Seq<char>>) -> bool {
    forall|i: int| 0 <= i < names.len() ==> compiles(#[trigger] names[i])
}

/// Whether `i` is the position of the first pattern text that does not compile.
pub open spec fn first_bad_name(names: Seq<Seq<char>>, i: int) -> bool {
    &&& 0 <= i < names.len()
    &&& !compiles(names[i])
    &&& forall|k: int| 0 <= k < i ==> compiles(#[trigger] names[k])
}

/// Whether every type token is one of `d`, `f` and `l`.
pub open spec fn tokens_valid(tokens: Seq<Seq<char>>) -> bool {
    forall|i: int| 0 <= i < tokens.len() ==> (#[trigger] token_type(tokens[i])).is_some()
}

/// Whether `i` is the position of the first type token that is not one of
/// `d`, `f` and `l`.
pub open spec fn first_bad_token(tokens: Seq<Seq<char>>, i: int) -> bool {
    &&& 0 <= i < tokens.len()
    &&& token_type(tokens[i]).is_none()
    &&& forall|k: int| 0 <= k < i ==> (#[trigger] token_type(tokens[k])).is_some()
}

/// The paths searched: those given, or the current directory where none is.
pub open spec fn search_paths(paths: Seq<Seq<char>>) -> Seq<Seq<char>> {
    if paths.len() == 0 {
        seq![seq!['.']]
    } else {
        paths
    }
}

/// The type filters that valid tokens stand for, in their order.
pub open spec fn token_types(tokens: Seq<Seq<char>>) -> Seq<EntryType> {
    tokens.map_values(|t: Seq<char>| token_type(t).unwrap())
}

/// Why a configuration could not be built.
#[derive(Debug, PartialEq, Eq)]
pub enum ConfigError {
    /// A name pattern that does not compile, as it was given.
    InvalidName(String),
    /// A type token other than `d`, `f` and `l`, as it was given.
    InvalidType(String),
}

/// The text of the message that reports an error.
pub open spec fn error_message(e: ConfigError) -> Seq<char> {
    match e {
        ConfigError::InvalidName(p) => "Invalid --name \""@ + p@ + "\""@,
        ConfigError::InvalidType(t) => "Invalid --type \""@ + t@ + "\""@,
    }
}

/// The message for a pattern that does not compile holds the pattern
/// verbatim, right after the opening quote.
pub proof fn lemma_message_quotes_pattern(p: String)
    ensures
        error_message(ConfigError::InvalidName(p)).subrange(16, 16 + p@.len() as int) == p@,
{
    reveal_strlit("Invalid --name \"");
    reveal_strlit("\"");
    assert(error_message(ConfigError::InvalidName(p)).subrange(16, 16 + p@.len() as int) =~= p@);
}

impl ConfigError {
    /// The message that reports this error; it quotes the offending input
    /// as it was given.
    pub fn message(&self) -> (r: String)
        ensures
            r@ == error_message(*self),
    {
        let (mut s, v) = match self {
            ConfigError::InvalidName(p) => (String::from_str("Invalid --name \""), p),
            ConfigError::InvalidType(t) => (String::from_str("Invalid --type \""), t),
        };
        s.append(v.as_str());
        s.append("\"");
        s
    }
}

/// The configuration of one run: the paths to walk, in order and with
/// repeats kept, the name filters and the type filters. An empty set of
/// filters of either sort lets every entry through.
pub struct Config {
    paths: Vec<String>,
    names: Vec<NamePattern>,
    entry_types: Vec<EntryType>,
}

impl Config {
    /// The paths to walk, in order.
    pub closed spec fn paths_view(&self) -> Seq<Seq<char>> {
        self.paths.deep_view()
    }

    /// The texts of the name patterns, in order.
    pub closed spec fn names_view(&self) -> Seq<Seq<char>> {
        self.names@.map_values(|p: NamePattern| p@)
    }

    /// The type filters, in order.
    pub closed spec fn types_view(&self) -> Seq<EntryType> {
        self.entry_types@
    }

    /// Every name pattern compiles; paths are never empty.
    pub closed spec fn wf(&self) -> bool {
        &&& names_valid(self.names_view())
        &&& self.paths@.len() > 0
    }

    /// The paths to walk, in order.
    pub fn paths(&self) -> (r: &Vec<String>)
        ensures
            r.deep_view() == self.paths_view(),
    {
        &self.paths
    }

    /// The type filters, in order.
    pub fn entry_types(&self) -> (r: &Vec<EntryType>)
        ensures
            r@ == self.types_view(),
    {
        &self.entry_types
    }

    /// How many name patterns there are.
    pub fn pattern_count(&self) -> (r: usize)
        ensures
            r == self.names_view().len(),
    {
        self.names.len()
    }

    /// The name pattern at position `i`.
    pub fn pattern(&self, i: usize) -> (r: &NamePattern)
        requires
            i < self.names_view().len(),
        ensures
            r@ == self.names_view()[i as int],
    {
        &self.names[i]
    }

    /// Builds a configuration from the values given on the command line:
    /// search paths, name patterns and type tokens.
    ///
    /// Fails on the first pattern that does not compile; where all compile,
    /// on the first token that is not `d`, `f` or `l`. Otherwise each
    /// collection holds what was given, in order, with the current
    /// directory as the one path where none was given.
    pub fn new(paths: Vec<String>, names: Vec<String>, types: Vec<String>) -> (r: Result<
        Config,
        ConfigError,
    >)
        ensures
            r.is_ok() == (names_valid(names.deep_view()) && tokens_valid(types.deep_view())),
            (r matches Err(ConfigError::InvalidName(_))) == !names_valid(names.deep_view()),
            r matches Err(ConfigError::InvalidName(p)) ==> exists|i: int|
                first_bad_name(names.deep_view(), i) && p@ == names.deep_view()[i],
            (r matches Err(ConfigError::InvalidType(_))) == (names_valid(names.deep_view())
                && !tokens_valid(types.deep_view())),
            r matches Err(ConfigError::InvalidType(t)) ==> exists|i: int|
                first_bad_token(types.deep_view(), i) && t@ == types.deep_view()[i],
            r matches Ok(c) ==> {
                &&& c.wf()
                &&& c.paths_view() == search_paths(paths.deep_view())
                &&& c.names_view() == names.deep_view()
                &&& c.types_view() == token_types(types.deep_view())
            },
    {
        let ghost nv = names.deep_view();
        let ghost tv = types.deep_view();
        let mut pats: Vec<NamePattern> = Vec::new();
        let mut i: usize = 0;
        while i < names.len()
            invariant
                0 <= i <= names.len(),
                nv == names.deep_view(),
                pats@.len() == i,
                forall|k: int| 0 <= k < i ==> compiles(#[trigger] nv[k]) && pats@[k]@ == nv[k],
            decreases names.len() - i,
        {
            match NamePattern::new(names[i].as_str()) {
                Some(p) => pats.push(p),
                None => {
                    assert(first_bad_name(nv, i as int));
                    return Err(ConfigError::InvalidName(names[i].clone()));
                },
            }
            i += 1;
        }
        assert(pats@.map_values(|p: NamePattern| p@) =~= nv);
        let mut kinds: Vec<EntryType> = Vec::new();
        let mut j: usize = 0;
        while j < types.len()
            invariant
                0 <= j <= types.len(),
                tv == types.deep_view(),
                nv == names.deep_view(),
                names_valid(nv),
                kinds@.len() == j,
                forall|k: int|
                    0 <= k < j ==> (#[trigger] token_type(tv[k])).is_some() && kinds@[k]
                        == token_type(tv[k]).unwrap(),
            decreases types.len() - j,
        {
            match EntryType::from_token(types[j].as_str()) {
                Some(t) => kinds.push(t),
                None => {
                    assert(first_bad_token(tv, j as int));
                    return Err(ConfigError::InvalidType(types[j].clone()));
                },
            }
            j += 1;
        }
        assert(kinds@ =~= token_types(tv));
        let paths = if paths.len() == 0 {
            let mut v: Vec<String> = Vec::new();
            v.push(String::from_str("."));
            proof {
                reveal_strlit(".");
                assert(v@[0]@ =~= seq!['.']);
                assert(v.deep_view() =~= seq![seq!['.']]);
            }
            v
        } else {
            paths
        };
        Ok(Config { paths, names: pats, entry_types: kinds })
    }
}

} // verus!
