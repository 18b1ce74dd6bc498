//! The command language: one command per line, a verb and its arguments,
//! separated by white space.

use crate::error::{result_view, ParseError, ParseErrorView};
use crate::text::{
    is_space, is_word, lemma_tokens_are_words, lemma_tokens_blank, lowercase, split, to_lowercase,
    tokens, views,
};
use vstd::prelude::*;

verus! {

/// A command of the store.
#[derive(Clone, Debug, PartialEq, Eq)]
pub enum Command {
    /// `get`: look up the value under `key`.
    Get { key: String },
    /// `set`: store `value` under `key`.
    Put { key: String, value: String },
    /// `delete`: take `key` and its value out.
    Delete { key: String },
    /// `list`: name the keys.
    List,
    /// `exit`: end the command loop.
    Exit,
}

/// The mathematical value of a [`Command`].
pub enum CommandView {
    Get { key: Seq<char> },
    Put { key: Seq<char>, value: Seq<char> },
    Delete { key: Seq<char> },
    List,
    Exit,
}

impl View for Command {
    type V = CommandView;

    open spec fn view(&self) -> CommandView {
        match self {
            Command::Get { key } => CommandView::Get { key: key@ },
            Command::Put { key, value } => CommandView::Put { key: key@, value: value@ },
            Command::Delete { key } => CommandView::Delete { key: key@ },
            Command::List => CommandView::List,
            Command::Exit => CommandView::Exit,
        }
    }
}

/// The families of commands, one for each verb.
#[derive(Clone, Copy, Debug, PartialEq, Eq, Structural)]
pub enum Family {
    Get,
    /// The family of the verb `set`.
    Put,
    Delete,
    List,
    Exit,
}

impl Family {
    /// The number of arguments that a command of this family takes. `list`
    /// and `exit` take one, which is read and ignored.
    pub open spec fn arity(self) -> nat {
        match self {
            Family::Put => 2,
            _ => 1,
        }
    }

    /// The text that reports `arity`: its decimal digit.
    pub open spec fn arity_text(self) -> Seq<char> {
        match self {
            Family::Put => "2"@,
            _ => "1"@,
        }
    }

    /// The command of this family with the arguments `args`.
    pub open spec fn command(self, args: Seq<Seq<char>>) -> CommandView
        recommends
            args.len() == self.arity(),
    {
        match self {
            Family::Get => CommandView::Get { key: args[0] },
            Family::Put => CommandView::Put { key: args[0], value: args[1] },
            Family::Delete => CommandView::Delete { key: args[0] },
            Family::List => CommandView::List,
            Family::Exit => CommandView::Exit,
        }
    }

    /// The family that the verb `verb` names, which is compared as it
    /// stands: an upper-case letter in it names nothing.
    pub open spec fn named(verb: Seq<char>) -> Option<Family> {
        if verb == "get"@ {
            Some(Family::Get)
        } else if verb == "set"@ {
            Some(Family::Put)
        } else if verb == "delete"@ {
            Some(Family::Delete)
        } else if verb == "list"@ {
            Some(Family::List)
        } else if verb == "exit"@ {
            Some(Family::Exit)
        } else {
            None
        }
    }

    /// Decides `named`.
    pub fn of_verb(verb: &str) -> (r: Option<Family>)
        ensures
            r == Family::named(verb@),
    {
        if verb.eq("get") {
            Some(Family::Get)
        } else if verb.eq("set") {
            Some(Family::Put)
        } else if verb.eq("delete") {
            Some(Family::Delete)
        } else if verb.eq("list") {
            Some(Family::List)
        } else if verb.eq("exit") {
            Some(Family::Exit)
        } else {
            None
        }
    }

    /// Computes `arity`.
    pub fn args(self) -> (n: usize)
        ensures
            n == self.arity(),
    {
        match self {
            Family::Put => 2,
            _ => 1,
        }
    }

    /// Computes `arity_text`.
    pub fn expected(self) -> (text: &'static str)
        ensures
            text@ == self.arity_text(),
    {
        match self {
            Family::Put => "2",
            _ => "1",
        }
    }
}

/// What a verb in lower case and its arguments mean: the command, or why
/// there is none.
pub open spec fn command_of(verb: Seq<char>, args: Seq<Seq<char>>) -> Result<
    CommandView,
    ParseErrorView,
> {
    match Family::named(verb) {
        None => Err(ParseErrorView::UnknownCommand(verb)),
        Some(family) => if args.len() == family.arity() {
            Ok(family.command(args))
        } else {
            Err(
                ParseErrorView::WrongArity {
                    command: verb,
                    expected: family.arity_text(),
                    found: args.len(),
                },
            )
        },
    }
}

/// What a line means: its first token, in lower case, is the verb, and the
/// tokens after it are the arguments.
pub open spec fn command_in(line: Seq<char>) -> Result<CommandView, ParseErrorView> {
    let words = tokens(line);
    if words.len() == 0 {
        Err(ParseErrorView::Empty)
    } else {
        command_of(lowercase(words[0]), words.skip(1))
    }
}

/// A line is reported as empty exactly where it holds nothing but white
/// space, the line without any character among them.
pub proof fn lemma_empty_line(line: Seq<char>)
    ensures
        command_in(line) == Err::<CommandView, ParseErrorView>(ParseErrorView::Empty)
            <==> forall|i: int| 0 <= i < line.len() ==> is_space(#[trigger] line[i]),
{
    lemma_tokens_blank(line);
}

/// The key and the value of a command that a line holds are words: they
/// are not empty and hold no white space.
pub proof fn lemma_arguments_are_words(line: Seq<char>)
    ensures
        match command_in(line) {
            Ok(CommandView::Get { key }) => is_word(key),
            Ok(CommandView::Put { key, value }) => is_word(key) && is_word(value),
            Ok(CommandView::Delete { key }) => is_word(key),
            _ => true,
        },
{
    lemma_tokens_are_words(line);
}

/// Splits a line into its first token and the tokens after it. `None` where
/// the line holds no token.
pub fn parse<'a>(line: &'a str) -> (r: Option<(&'a str, Vec<&'a str>)>)
    ensures
        match r {
            None => tokens(line@).len() == 0,
            Some((verb, args)) => tokens(line@).len() > 0 && verb@ == tokens(line@)[0] && views(
                args@,
            ) == tokens(line@).skip(1),
        },
{
    let mut words = split(line);
    if words.len() == 0 {
        None
    } else {
        let verb = words.remove(0);
        Some((verb, words))
    }
}

/// The command that the verb `verb`, already in lower case, and the
/// arguments `args` make.
pub fn command_from(verb: &str, args: &Vec<&str>) -> (r: Result<Command, ParseError>)
    ensures
        result_view(r) == command_of(verb@, views(args@)),
{
    match Family::of_verb(verb) {
        None => Err(ParseError::UnknownCommand(verb.to_owned())),
        Some(family) => {
            if args.len() != family.args() {
                Err(
                    ParseError::WrongArity {
                        command: verb.to_owned(),
                        expected: family.expected(),
                        found: args.len(),
                    },
                )
            } else {
                Ok(
                    match family {
                        Family::Get => Command::Get { key: args[0].to_owned() },
                        Family::Put => Command::Put {
                            key: args[0].to_owned(),
                            value: args[1].to_owned(),
                        },
                        Family::Delete => Command::Delete { key: args[0].to_owned() },
                        Family::List => Command::List,
                        Family::Exit => Command::Exit,
                    },
                )
            }
        },
    }
}

/// Reads a command from a line. Defined on every line: a line that is no
/// command gives the reason.
pub fn parse_command(line: &str) -> (r: Result<Command, ParseError>)
    ensures
        result_view(r) == command_in(line@),
{
    match parse(line) {
        None => Err(ParseError::Empty),
        Some((verb, args)) => {
            let verb = to_lowercase(verb);
            command_from(verb.as_str(), &args)
        },
    }
}

} // verus!
